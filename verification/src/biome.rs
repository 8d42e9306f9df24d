//! Terrain biomes and the integer noise that places them on the map.
use vstd::prelude::*;

verus! {

/// The twelve terrain biomes, in the order the biome map draws them from.
#[derive(Clone, Copy, Debug, PartialEq, Eq, Structural)]
pub enum Biome {
    Plains,
    Canyon,
    Plateau,
    Crystalline,
    Volcanic,
    Mountains,
    Desert,
    Arctic,
    Badlands,
    Floating,
    Caverns,
    Swamp,
}

/// Number of biomes.
pub const BIOME_COUNT: usize = 12;

/// The position of each biome in the drawing order.
pub open spec fn biome_index_of(b: Biome) -> nat {
    match b {
        Biome::Plains => 0,
        Biome::Canyon => 1,
        Biome::Plateau => 2,
        Biome::Crystalline => 3,
        Biome::Volcanic => 4,
        Biome::Mountains => 5,
        Biome::Desert => 6,
        Biome::Arctic => 7,
        Biome::Badlands => 8,
        Biome::Floating => 9,
        Biome::Caverns => 10,
        Biome::Swamp => 11,
    }
}

/// Noise, in thousandths, at grid cell (`i`, `j`) for the seed and the two
/// multipliers of one noise layer.
pub open spec fn noise_of(seed: int, i: int, j: int, mi: int, mj: int) -> int {
    (seed + i * mi + j * mj) % 1000
}

/// Noise below this many thousandths places no extra biome point in a cell.
pub const EXTRA_POINT_THRESHOLD: u32 = 700;

impl Biome {
    /// The biome at position `i` of the drawing order.
    pub fn from_index(i: usize) -> (b: Biome)
        requires
            i < BIOME_COUNT,
        ensures
            biome_index_of(b) == i,
    {
        match i {
            0 => Biome::Plains,
            1 => Biome::Canyon,
            2 => Biome::Plateau,
            3 => Biome::Crystalline,
            4 => Biome::Volcanic,
            5 => Biome::Mountains,
            6 => Biome::Desert,
            7 => Biome::Arctic,
            8 => Biome::Badlands,
            9 => Biome::Floating,
            10 => Biome::Caverns,
            _ => Biome::Swamp,
        }
    }

    /// The position of this biome in the drawing order.
    pub fn index(self) -> (i: usize)
        ensures
            i == biome_index_of(self),
            i < BIOME_COUNT,
    {
        match self {
            Biome::Plains => 0,
            Biome::Canyon => 1,
            Biome::Plateau => 2,
            Biome::Crystalline => 3,
            Biome::Volcanic => 4,
            Biome::Mountains => 5,
            Biome::Desert => 6,
            Biome::Arctic => 7,
            Biome::Badlands => 8,
            Biome::Floating => 9,
            Biome::Caverns => 10,
            Biome::Swamp => 11,
        }
    }
}

/// The integer parts of the biome map's layout.
pub struct BiomeMap;

impl BiomeMap {
    /// Noise, in thousandths, at grid cell (`i`, `j`) of one noise layer.
    pub fn noise_permille(seed: u32, i: u32, j: u32, mi: u32, mj: u32) -> (n: u32)
        requires
            seed + i * mi + j * mj <= u32::MAX,
        ensures
            n == noise_of(seed as int, i as int, j as int, mi as int, mj as int),
            n < 1000,
    {
        proof {
            assert(0 <= i * mi <= u32::MAX) by (nonlinear_arith)
                requires seed + i * mi + j * mj <= u32::MAX, 0 <= j * mj, 0 <= seed;
            assert(0 <= j * mj <= u32::MAX) by (nonlinear_arith)
                requires seed + i * mi + j * mj <= u32::MAX, 0 <= i * mi, 0 <= seed;
        }
        (seed + i * mi + j * mj) % 1000
    }

    /// Whether a cell whose first noise layer reads `noise1` thousandths gets an
    /// extra biome point.
    pub fn has_extra_point(noise1: u32) -> (r: bool)
        ensures
            r == (noise1 > EXTRA_POINT_THRESHOLD),
    {
        noise1 > EXTRA_POINT_THRESHOLD
    }

    /// The biome of a cell's extra point: three places further along the
    /// drawing order than the cell's own biome, wrapping round.
    pub fn extra_biome(own: Biome) -> (b: Biome)
        ensures
            biome_index_of(b) == (biome_index_of(own) + 3) % 12,
    {
        Biome::from_index((own.index() + 3) % BIOME_COUNT)
    }
}

/// The drawing order lists every biome once: index and biome are inverse.
pub proof fn law_biome_index_round_trip(b: Biome)
    ensures
        biome_index_of(b) < 12,
        forall|c: Biome| biome_index_of(c) == biome_index_of(b) ==> c == b,
{
}

} // verus!
