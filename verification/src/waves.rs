//! Wave progression and the enemies and bases it brings: how long each wave
//! lasts, how many bases a new wave adds and of which kind, and which enemies
//! a base sends out.
use vstd::prelude::*;
use crate::base::BaseType;
use crate::enemy::EnemyType;
use crate::random::{random_range_inclusive, random_ratio, choose_enemy_type};
use crate::spawning::SpawnBaseType;

verus! {

/// Seconds until the wave after wave `wave`: forty less two per wave, but
/// never under twenty.
pub open spec fn wave_interval(wave: int) -> int {
    if 40 - 2 * wave > 20 { 40 - 2 * wave } else { 20 }
}

/// Bases a new wave `wave` adds: one more every three waves, at most three.
pub open spec fn bases_for_wave(wave: int) -> int {
    if (wave - 1) / 3 + 1 < 3 { (wave - 1) / 3 + 1 } else { 3 }
}

/// The kind of each base that wave `wave` adds. From wave ten on, the kind is
/// a fortress when the draw `fortress` says so, and a large base otherwise.
pub open spec fn wave_base_type_of(wave: int, fortress: bool) -> BaseType {
    if 1 <= wave <= 3 {
        BaseType::Small
    } else if 4 <= wave <= 6 {
        BaseType::Medium
    } else if 7 <= wave <= 9 {
        BaseType::Large
    } else if fortress {
        BaseType::Fortress
    } else {
        BaseType::Large
    }
}

/// Whether the kind of a wave's bases is left to a draw.
pub open spec fn wave_type_is_drawn(wave: int) -> bool {
    !(1 <= wave <= 9)
}

/// How the bases of a new wave are laid out.
#[derive(Clone, Copy, Debug, PartialEq, Eq, Structural)]
pub enum WavePattern {
    /// One base ahead of the player.
    Forward,
    /// One base on each flank.
    Flanking,
    /// A line of bases across the player's path, a fortress in its middle.
    DefensiveLine,
    /// A ring of bases around the player.
    Encirclement,
    /// A fortress with four outposts round it.
    FortressFormation,
}

/// The layout of wave `wave`'s bases, cycling through the five layouts.
pub open spec fn wave_pattern_of(wave: int) -> WavePattern {
    if wave % 5 == 1 {
        WavePattern::Forward
    } else if wave % 5 == 2 {
        WavePattern::Flanking
    } else if wave % 5 == 3 {
        WavePattern::DefensiveLine
    } else if wave % 5 == 4 {
        WavePattern::Encirclement
    } else {
        WavePattern::FortressFormation
    }
}

/// The kind of spawner base placed on wave `wave` for the draw `roll` (out of
/// a hundred): only basic ones at first, then heavy, shielded, fortress and
/// outpost kinds come in as the waves go on.
pub open spec fn spawner_for_roll(wave: int, roll: int) -> SpawnBaseType {
    if 1 <= wave <= 3 {
        SpawnBaseType::Basic
    } else if 4 <= wave <= 6 {
        if roll < 70 { SpawnBaseType::Basic } else { SpawnBaseType::Heavy }
    } else if 7 <= wave <= 10 {
        if roll < 40 {
            SpawnBaseType::Basic
        } else if roll < 80 {
            SpawnBaseType::Heavy
        } else {
            SpawnBaseType::Shielded
        }
    } else if 11 <= wave <= 15 {
        if roll < 20 {
            SpawnBaseType::Basic
        } else if roll < 50 {
            SpawnBaseType::Heavy
        } else if roll < 80 {
            SpawnBaseType::Shielded
        } else {
            SpawnBaseType::Fortress
        }
    } else {
        if roll < 10 {
            SpawnBaseType::Basic
        } else if roll < 30 {
            SpawnBaseType::Heavy
        } else if roll < 60 {
            SpawnBaseType::Shielded
        } else if roll < 90 {
            SpawnBaseType::Fortress
        } else {
            SpawnBaseType::Outpost
        }
    }
}

/// Whether some draw out of a hundred places a spawner of kind `t` on wave
/// `wave`.
pub open spec fn spawner_possible(wave: int, t: SpawnBaseType) -> bool {
    exists|roll: int| 0 <= roll < 100 && t == spawner_for_roll(wave, roll)
}

/// The number of the current wave.
pub struct WaveManager {
    pub wave: u32,
}

impl WaveManager {
    /// The first wave.
    pub fn new() -> (r: Self)
        ensures
            r.wave == 1,
    {
        WaveManager { wave: 1 }
    }

    /// Moves on to the next wave; answers how many seconds it lasts.
    pub fn advance(&mut self) -> (secs: u32)
        requires
            old(self).wave < u32::MAX,
        ensures
            final(self).wave == old(self).wave + 1,
            secs == wave_interval(final(self).wave as int),
    {
        self.wave = self.wave + 1;
        wave_interval_secs(self.wave)
    }

    /// The layout of this wave's bases.
    pub fn wave_pattern(&self) -> (p: WavePattern)
        ensures
            p == wave_pattern_of(self.wave as int),
    {
        let r: u32 = self.wave % 5;
        if r == 1 {
            WavePattern::Forward
        } else if r == 2 {
            WavePattern::Flanking
        } else if r == 3 {
            WavePattern::DefensiveLine
        } else if r == 4 {
            WavePattern::Encirclement
        } else {
            WavePattern::FortressFormation
        }
    }

    /// Bases in this wave's defensive line: three, and one more every five waves.
    pub fn defensive_line_count(&self) -> (n: usize)
        ensures
            n == 3 + self.wave / 5,
    {
        3 + (self.wave / 5) as usize
    }

    /// Bases in this wave's ring: four, and one more every ten waves.
    pub fn encirclement_count(&self) -> (n: usize)
        ensures
            n == 4 + self.wave / 10,
    {
        4 + (self.wave / 10) as usize
    }

    /// The kind of spawner base placed on this wave for the draw `roll`.
    pub fn base_type_for_roll(&self, roll: u32) -> (t: SpawnBaseType)
        ensures
            t == spawner_for_roll(self.wave as int, roll as int),
    {
        let wave: u32 = self.wave;
        if 1 <= wave && wave <= 3 {
            SpawnBaseType::Basic
        } else if 4 <= wave && wave <= 6 {
            if roll < 70 { SpawnBaseType::Basic } else { SpawnBaseType::Heavy }
        } else if 7 <= wave && wave <= 10 {
            if roll < 40 {
                SpawnBaseType::Basic
            } else if roll < 80 {
                SpawnBaseType::Heavy
            } else {
                SpawnBaseType::Shielded
            }
        } else if 11 <= wave && wave <= 15 {
            if roll < 20 {
                SpawnBaseType::Basic
            } else if roll < 50 {
                SpawnBaseType::Heavy
            } else if roll < 80 {
                SpawnBaseType::Shielded
            } else {
                SpawnBaseType::Fortress
            }
        } else {
            if roll < 10 {
                SpawnBaseType::Basic
            } else if roll < 30 {
                SpawnBaseType::Heavy
            } else if roll < 60 {
                SpawnBaseType::Shielded
            } else if roll < 90 {
                SpawnBaseType::Fortress
            } else {
                SpawnBaseType::Outpost
            }
        }
    }

    /// The kind of spawner base placed on this wave, for a random draw out of a
    /// hundred.
    pub fn select_base_type(&self) -> (t: SpawnBaseType)
        ensures
            spawner_possible(self.wave as int, t),
    {
        let roll: u32 = random_range_inclusive(0, 99);
        let t: SpawnBaseType = self.base_type_for_roll(roll);
        assert(0 <= roll < 100 && t == spawner_for_roll(self.wave as int, roll as int));
        t
    }

    /// The kind of base `i` of a defensive line of `count` bases: the middle
    /// one is a fortress, the others are drawn.
    pub fn defensive_line_base_type(&self, i: usize, count: usize) -> (t: SpawnBaseType)
        ensures
            i == count / 2 ==> t == SpawnBaseType::Fortress,
            i != count / 2 ==> spawner_possible(self.wave as int, t),
    {
        if i == count / 2 {
            SpawnBaseType::Fortress
        } else {
            self.select_base_type()
        }
    }
}

/// Seconds until the wave after wave `wave`.
pub fn wave_interval_secs(wave: u32) -> (secs: u32)
    ensures
        secs == wave_interval(wave as int),
{
    if wave < 10 {
        40 - 2 * wave
    } else {
        20
    }
}

/// Bases that wave `wave` adds.
pub fn new_base_count(wave: u32) -> (n: usize)
    requires
        wave >= 1,
    ensures
        n == bases_for_wave(wave as int),
{
    let n: u32 = (wave - 1) / 3 + 1;
    if n < 3 {
        n as usize
    } else {
        3
    }
}

/// The kind of a base that wave `wave` adds, given the draw `fortress`.
pub fn wave_base_type(wave: u32, fortress: bool) -> (t: BaseType)
    ensures
        t == wave_base_type_of(wave as int, fortress),
{
    if 1 <= wave && wave <= 3 {
        BaseType::Small
    } else if 4 <= wave && wave <= 6 {
        BaseType::Medium
    } else if 7 <= wave && wave <= 9 {
        BaseType::Large
    } else if fortress {
        BaseType::Fortress
    } else {
        BaseType::Large
    }
}

/// The kinds of the bases that wave `wave` adds, one draw per base where the
/// kind is left to chance (a fortress three times in ten).
pub fn plan_wave_bases(wave: u32) -> (kinds: Vec<BaseType>)
    requires
        wave >= 1,
    ensures
        kinds@.len() == bases_for_wave(wave as int),
        forall|i: int| 0 <= i < kinds@.len() ==> exists|f: bool| #[trigger] kinds@[i] == wave_base_type_of(wave as int, f),
        !wave_type_is_drawn(wave as int) ==> forall|i: int| 0 <= i < kinds@.len() ==> #[trigger] kinds@[i]
            == wave_base_type_of(wave as int, false),
{
    let count: usize = new_base_count(wave);
    let mut kinds: Vec<BaseType> = Vec::new();
    let mut i: usize = 0;
    while i < count
        invariant
            i <= count,
            count == bases_for_wave(wave as int),
            kinds@.len() == i,
            forall|k: int| 0 <= k < i ==> exists|f: bool| #[trigger] kinds@[k] == wave_base_type_of(wave as int, f),
            !wave_type_is_drawn(wave as int) ==> forall|k: int| 0 <= k < i ==> #[trigger] kinds@[k]
                == wave_base_type_of(wave as int, false),
        decreases count - i,
    {
        let drawn: bool = if 1 <= wave && wave <= 9 { false } else { random_ratio(3, 10) };
        let t: BaseType = wave_base_type(wave, drawn);
        kinds.push(t);
        proof {
            assert(kinds@[i as int] == wave_base_type_of(wave as int, drawn));
        }
        i = i + 1;
    }
    kinds
}

/// One enemy a base sends out: its kind, its place among the group, and the
/// patrol route it follows.
#[derive(Clone, Copy, Debug, PartialEq, Eq, Structural)]
pub struct SpawnOrder {
    pub enemy_type: EnemyType,
    pub slot: usize,
    pub route: usize,
}

/// The group a base sends out: two to four enemies (a random number), each of a
/// kind drawn from `enemy_types` and following route `slot % route_count`.
/// Answers the size of the group and the orders; a base with no kinds sends
/// out no one.
pub fn plan_base_spawns(enemy_types: &Vec<EnemyType>, route_count: usize) -> (r: (usize, Vec<SpawnOrder>))
    requires
        enemy_types@.len() > 0 ==> route_count > 0,
    ensures
        2 <= r.0 <= 4,
        enemy_types@.len() == 0 ==> r.1@.len() == 0,
        enemy_types@.len() > 0 ==> r.1@.len() == r.0,
        forall|i: int| 0 <= i < r.1@.len() ==> {
            &&& (#[trigger] r.1@[i]).slot == i
            &&& r.1@[i].route == i % (route_count as int)
            &&& enemy_types@.contains(r.1@[i].enemy_type)
        },
{
    let spawn_count: usize = random_range_inclusive(2, 4) as usize;
    let mut orders: Vec<SpawnOrder> = Vec::new();
    let mut i: usize = 0;
    while i < spawn_count
        invariant
            2 <= spawn_count <= 4,
            enemy_types@.len() > 0 ==> route_count > 0,
            i <= spawn_count,
            enemy_types@.len() == 0 ==> orders@.len() == 0,
            enemy_types@.len() > 0 ==> orders@.len() == i,
            forall|k: int| 0 <= k < orders@.len() ==> {
                &&& (#[trigger] orders@[k]).slot == k
                &&& orders@[k].route == k % (route_count as int)
                &&& enemy_types@.contains(orders@[k].enemy_type)
            },
        decreases spawn_count - i,
    {
        match choose_enemy_type(enemy_types.as_slice()) {
            Some(t) => {
                orders.push(SpawnOrder { enemy_type: t, slot: i, route: i % route_count });
            },
            None => {},
        }
        i = i + 1;
    }
    (spawn_count, orders)
}

/// Waves get shorter as they go, from thirty-eight seconds down to twenty,
/// and never shorter than that.
pub proof fn law_waves_shorten(w1: int, w2: int)
    requires
        1 <= w1 <= w2,
    ensures
        20 <= wave_interval(w2) <= wave_interval(w1) <= 38,
{
}

/// Every wave adds between one and three bases, and later waves never add
/// fewer than earlier ones.
pub proof fn law_wave_bases_grow(w1: int, w2: int)
    requires
        1 <= w1 <= w2,
    ensures
        1 <= bases_for_wave(w1) <= bases_for_wave(w2) <= 3,
{
}

/// Base kinds escalate with the waves: small, then medium, then large, then
/// large or fortress.
pub proof fn law_wave_kinds_escalate(wave: int, fortress: bool)
    ensures
        wave_base_type_of(wave, fortress) == BaseType::Small <==> 1 <= wave <= 3,
        wave_base_type_of(wave, fortress) == BaseType::Fortress ==> wave_type_is_drawn(wave) && fortress,
{
}

/// The spawner layouts come round every five waves, and spawner fortresses
/// and outposts are never drawn before wave eleven.
pub proof fn law_spawner_layouts_cycle(wave: int, roll: int)
    requires
        wave >= 1,
    ensures
        wave_pattern_of(wave + 5) == wave_pattern_of(wave),
        1 <= wave <= 10 ==> spawner_for_roll(wave, roll) != SpawnBaseType::Fortress
            && spawner_for_roll(wave, roll) != SpawnBaseType::Outpost,
{
}

} // verus!
