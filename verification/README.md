# vector_shooter

The rules of a 3D wireframe shooter, written in Verus and proved against
their contracts, with a small program around them.

- `src/` is the verified library: enemy awareness (`alert`), enemy kinds,
  patrols and formations (`enemy`), bases and their ground turrets (`base`),
  collision passes and scoring (`collision`), waves and spawning (`waves`,
  `spawning`), entity-list bookkeeping (`collections`), input mapping
  (`input`), sound decisions (`sound`), the biome map's integer layout
  (`biome`) and the line and triangle buffers a frame is drawn from
  (`render`). Random draws go through the `rand` crate.
- `app/` is the game itself on `miniquad` and `glam`: flight physics,
  distances, timers and drawing, which hand what they measure to the
  library and act on what it decides.
- `tests/` runs the library on concrete values.
