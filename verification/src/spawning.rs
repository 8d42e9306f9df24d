//! The spawning rules of the wave system: the kinds of spawner base it
//! places, which enemies each kind sends out as the waves go on, and how many.
use vstd::prelude::*;
use crate::enemy::EnemyType;
use crate::random::random_range_inclusive;

verus! {

/// The kinds of spawner base the wave system places.
#[derive(Clone, Copy, Debug, PartialEq, Eq, Structural)]
pub enum SpawnBaseType {
    Basic,
    Heavy,
    Shielded,
    Fortress,
    Outpost,
}

/// The enemy a spawner of kind `base` sends out on wave `wave` for the draw
/// `roll` (out of a hundred). Basic bases send simple enemies, heavy bases
/// tougher ones, shielded bases defenders and support, fortresses the elite,
/// outposts fast swarming enemies; the later the wave, the wider the choice.
pub open spec fn enemy_for_roll(base: SpawnBaseType, wave: int, roll: int) -> EnemyType {
    match base {
        SpawnBaseType::Basic => if wave < 3 {
            if roll < 70 { EnemyType::Cube } else { EnemyType::Pyramid }
        } else if wave < 6 {
            if roll < 40 { EnemyType::Cube } else if roll < 70 { EnemyType::Pyramid } else { EnemyType::Spinner }
        } else {
            if roll < 20 {
                EnemyType::Cube
            } else if roll < 40 {
                EnemyType::Pyramid
            } else if roll < 60 {
                EnemyType::Spinner
            } else if roll < 80 {
                EnemyType::Hunter
            } else {
                EnemyType::Swarm
            }
        },
        SpawnBaseType::Heavy => if wave < 5 {
            if roll < 50 { EnemyType::Pyramid } else { EnemyType::Spinner }
        } else if wave < 10 {
            if roll < 30 {
                EnemyType::Spinner
            } else if roll < 60 {
                EnemyType::Hunter
            } else if roll < 85 {
                EnemyType::Guardian
            } else {
                EnemyType::Laser
            }
        } else {
            if roll < 20 {
                EnemyType::Hunter
            } else if roll < 40 {
                EnemyType::Guardian
            } else if roll < 60 {
                EnemyType::Laser
            } else if roll < 80 {
                EnemyType::Bomber
            } else {
                EnemyType::Disruptor
            }
        },
        SpawnBaseType::Shielded => if wave < 7 {
            if roll < 60 { EnemyType::Guardian } else { EnemyType::Shield }
        } else {
            if roll < 30 {
                EnemyType::Guardian
            } else if roll < 50 {
                EnemyType::Shield
            } else if roll < 70 {
                EnemyType::Reflector
            } else if roll < 90 {
                EnemyType::Disruptor
            } else {
                EnemyType::Phaser
            }
        },
        SpawnBaseType::Fortress => if wave < 10 {
            if roll < 40 { EnemyType::Hunter } else if roll < 70 { EnemyType::Laser } else { EnemyType::Bomber }
        } else {
            if roll < 20 {
                EnemyType::Laser
            } else if roll < 35 {
                EnemyType::Bomber
            } else if roll < 50 {
                EnemyType::Phaser
            } else if roll < 65 {
                EnemyType::Carrier
            } else if roll < 80 {
                EnemyType::Reflector
            } else if roll < 95 {
                EnemyType::Vortex
            } else {
                EnemyType::Disruptor
            }
        },
        SpawnBaseType::Outpost => if roll < 40 {
            EnemyType::Swarm
        } else if roll < 70 {
            EnemyType::Hunter
        } else if roll < 90 {
            EnemyType::Phaser
        } else {
            EnemyType::Spinner
        },
    }
}

/// Whether some draw out of a hundred makes a spawner of kind `base` send out
/// `t` on wave `wave`.
pub open spec fn spawnable(base: SpawnBaseType, wave: int, t: EnemyType) -> bool {
    exists|roll: int| 0 <= roll < 100 && t == enemy_for_roll(base, wave, roll)
}

/// The smallest group a spawner of each kind sends out.
pub open spec fn spawn_min(base: SpawnBaseType) -> nat {
    match base {
        SpawnBaseType::Basic => 1,
        SpawnBaseType::Heavy => 2,
        SpawnBaseType::Shielded => 1,
        SpawnBaseType::Fortress => 3,
        SpawnBaseType::Outpost => 1,
    }
}

/// The largest group a spawner of each kind sends out.
pub open spec fn spawn_max(base: SpawnBaseType) -> nat {
    match base {
        SpawnBaseType::Basic => 2,
        SpawnBaseType::Heavy => 3,
        SpawnBaseType::Shielded => 3,
        SpawnBaseType::Fortress => 5,
        SpawnBaseType::Outpost => 1,
    }
}

/// Spawning from spawner bases.
pub struct SpawningSystem;

impl SpawningSystem {
    /// The enemy a spawner of kind `base` sends out on wave `wave` for the draw
    /// `roll`.
    pub fn enemy_type_for_roll(base: SpawnBaseType, wave: u32, roll: u32) -> (t: EnemyType)
        ensures
            t == enemy_for_roll(base, wave as int, roll as int),
    {
        match base {
            SpawnBaseType::Basic => {
                if wave < 3 {
                    if roll < 70 { EnemyType::Cube } else { EnemyType::Pyramid }
                } else if wave < 6 {
                    if roll < 40 {
                        EnemyType::Cube
                    } else if roll < 70 {
                        EnemyType::Pyramid
                    } else {
                        EnemyType::Spinner
                    }
                } else {
                    if roll < 20 {
                        EnemyType::Cube
                    } else if roll < 40 {
                        EnemyType::Pyramid
                    } else if roll < 60 {
                        EnemyType::Spinner
                    } else if roll < 80 {
                        EnemyType::Hunter
                    } else {
                        EnemyType::Swarm
                    }
                }
            },
            SpawnBaseType::Heavy => {
                if wave < 5 {
                    if roll < 50 { EnemyType::Pyramid } else { EnemyType::Spinner }
                } else if wave < 10 {
                    if roll < 30 {
                        EnemyType::Spinner
                    } else if roll < 60 {
                        EnemyType::Hunter
                    } else if roll < 85 {
                        EnemyType::Guardian
                    } else {
                        EnemyType::Laser
                    }
                } else {
                    if roll < 20 {
                        EnemyType::Hunter
                    } else if roll < 40 {
                        EnemyType::Guardian
                    } else if roll < 60 {
                        EnemyType::Laser
                    } else if roll < 80 {
                        EnemyType::Bomber
                    } else {
                        EnemyType::Disruptor
                    }
                }
            },
            SpawnBaseType::Shielded => {
                if wave < 7 {
                    if roll < 60 { EnemyType::Guardian } else { EnemyType::Shield }
                } else {
                    if roll < 30 {
                        EnemyType::Guardian
                    } else if roll < 50 {
                        EnemyType::Shield
                    } else if roll < 70 {
                        EnemyType::Reflector
                    } else if roll < 90 {
                        EnemyType::Disruptor
                    } else {
                        EnemyType::Phaser
                    }
                }
            },
            SpawnBaseType::Fortress => {
                if wave < 10 {
                    if roll < 40 {
                        EnemyType::Hunter
                    } else if roll < 70 {
                        EnemyType::Laser
                    } else {
                        EnemyType::Bomber
                    }
                } else {
                    if roll < 20 {
                        EnemyType::Laser
                    } else if roll < 35 {
                        EnemyType::Bomber
                    } else if roll < 50 {
                        EnemyType::Phaser
                    } else if roll < 65 {
                        EnemyType::Carrier
                    } else if roll < 80 {
                        EnemyType::Reflector
                    } else if roll < 95 {
                        EnemyType::Vortex
                    } else {
                        EnemyType::Disruptor
                    }
                }
            },
            SpawnBaseType::Outpost => {
                if roll < 40 {
                    EnemyType::Swarm
                } else if roll < 70 {
                    EnemyType::Hunter
                } else if roll < 90 {
                    EnemyType::Phaser
                } else {
                    EnemyType::Spinner
                }
            },
        }
    }

    /// The enemy a spawner of kind `base` sends out on wave `wave`, for a
    /// random draw out of a hundred.
    pub fn select_enemy_type(base: SpawnBaseType, wave: u32) -> (t: EnemyType)
        ensures
            spawnable(base, wave as int, t),
    {
        let roll: u32 = random_range_inclusive(0, 99);
        let t: EnemyType = Self::enemy_type_for_roll(base, wave, roll);
        assert(0 <= roll < 100 && t == enemy_for_roll(base, wave as int, roll as int));
        t
    }

    /// The enemies a spawner of kind `base` sends out on wave `wave`: a group
    /// of random size within the kind's bounds, each of a randomly drawn kind.
    pub fn get_base_spawns(base: SpawnBaseType, wave: u32) -> (r: Vec<EnemyType>)
        ensures
            spawn_min(base) <= r@.len() <= spawn_max(base),
            forall|i: int| 0 <= i < r@.len() ==> spawnable(base, wave as int, #[trigger] r@[i]),
    {
        let count: u32 = match base {
            SpawnBaseType::Basic => random_range_inclusive(1, 2),
            SpawnBaseType::Heavy => random_range_inclusive(2, 3),
            SpawnBaseType::Shielded => random_range_inclusive(1, 3),
            SpawnBaseType::Fortress => random_range_inclusive(3, 5),
            SpawnBaseType::Outpost => 1,
        };
        let mut r: Vec<EnemyType> = Vec::new();
        let mut i: u32 = 0;
        while i < count
            invariant
                spawn_min(base) <= count <= spawn_max(base),
                i <= count,
                r@.len() == i,
                forall|k: int| 0 <= k < r@.len() ==> spawnable(base, wave as int, #[trigger] r@[k]),
            decreases count - i,
        {
            let t: EnemyType = Self::select_enemy_type(base, wave);
            r.push(t);
            assert(r@[i as int] == t);
            i = i + 1;
        }
        r
    }

    /// The group a carrier launches: three swarm enemies.
    pub fn spawn_from_carrier() -> (r: Vec<EnemyType>)
        ensures
            r@ == seq![EnemyType::Swarm, EnemyType::Swarm, EnemyType::Swarm],
    {
        vec![EnemyType::Swarm, EnemyType::Swarm, EnemyType::Swarm]
    }
}

/// Outposts always send a single enemy of a fast kind; elite kinds such as
/// carriers and vortices only ever come from fortresses, and only from wave
/// ten on.
pub proof fn law_elite_enemies_from_late_fortresses(base: SpawnBaseType, wave: int, roll: int)
    ensures
        base == SpawnBaseType::Outpost ==> spawn_min(base) == 1 && spawn_max(base) == 1,
        (enemy_for_roll(base, wave, roll) == EnemyType::Carrier || enemy_for_roll(base, wave, roll) == EnemyType::Vortex)
            ==> base == SpawnBaseType::Fortress && wave >= 10,
{
}

/// In the first two waves a basic base only sends cubes and pyramids.
pub proof fn law_early_basic_spawns(wave: int, roll: int)
    requires
        wave < 3,
    ensures
        enemy_for_roll(SpawnBaseType::Basic, wave, roll) == EnemyType::Cube || enemy_for_roll(
            SpawnBaseType::Basic,
            wave,
            roll,
        ) == EnemyType::Pyramid,
{
}

} // verus!
