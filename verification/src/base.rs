//! Enemy bases: their kinds, their hit points, their ground turrets and the
//! burst fire of those turrets.
use vstd::prelude::*;
use crate::enemy::EnemyType;
use crate::random::random_ratio;
use crate::spawning::SpawnBaseType;

verus! {

/// The four kinds of enemy base.
#[derive(Clone, Copy, Debug, PartialEq, Eq, Structural)]
pub enum BaseType {
    Small,
    Medium,
    Large,
    Fortress,
}

/// Hit points a base of each kind starts with.
pub open spec fn base_max_health(t: BaseType) -> int {
    match t {
        BaseType::Small => 100,
        BaseType::Medium => 200,
        BaseType::Large => 300,
        BaseType::Fortress => 500,
    }
}

/// Number of turrets mounted on a base of each kind.
pub open spec fn base_turret_count(t: BaseType) -> nat {
    match t {
        BaseType::Small => 2,
        BaseType::Medium => 4,
        BaseType::Large => 6,
        BaseType::Fortress => 8,
    }
}

/// Number of ground turrets around a base of each kind.
pub open spec fn base_ground_turret_count(t: BaseType) -> nat {
    match t {
        BaseType::Small => 6,
        BaseType::Medium => 8,
        BaseType::Large => 12,
        BaseType::Fortress => 16,
    }
}

/// Number of patrol routes radiating from a base of each kind.
pub open spec fn base_route_count(t: BaseType) -> nat {
    match t {
        BaseType::Small => 2,
        BaseType::Medium => 3,
        BaseType::Large => 4,
        BaseType::Fortress => 6,
    }
}

/// The enemy kinds that a base of each kind sends out.
pub open spec fn base_spawn_types(t: BaseType) -> Seq<EnemyType> {
    match t {
        BaseType::Small => seq![EnemyType::Cube, EnemyType::Pyramid],
        BaseType::Medium => seq![EnemyType::Spinner, EnemyType::Swarm, EnemyType::Shield],
        BaseType::Large => seq![EnemyType::Hunter, EnemyType::Laser, EnemyType::Bomber, EnemyType::Phaser],
        BaseType::Fortress => seq![EnemyType::Guardian, EnemyType::Vortex, EnemyType::Carrier, EnemyType::Reflector],
    }
}

/// Hit points a ground turret starts with.
pub const GROUND_TURRET_HEALTH: i32 = 50;

/// Shots in one burst of a ground turret.
pub const GROUND_TURRET_BURST: i32 = 8;

impl BaseType {
    pub fn max_health(self) -> (r: i32)
        ensures r == base_max_health(self),
    {
        match self {
            BaseType::Small => 100,
            BaseType::Medium => 200,
            BaseType::Large => 300,
            BaseType::Fortress => 500,
        }
    }

    pub fn turret_count(self) -> (r: usize)
        ensures r == base_turret_count(self),
    {
        match self {
            BaseType::Small => 2,
            BaseType::Medium => 4,
            BaseType::Large => 6,
            BaseType::Fortress => 8,
        }
    }

    pub fn ground_turret_count(self) -> (r: usize)
        ensures r == base_ground_turret_count(self),
    {
        match self {
            BaseType::Small => 6,
            BaseType::Medium => 8,
            BaseType::Large => 12,
            BaseType::Fortress => 16,
        }
    }

    pub fn route_count(self) -> (r: usize)
        ensures r == base_route_count(self),
    {
        match self {
            BaseType::Small => 2,
            BaseType::Medium => 3,
            BaseType::Large => 4,
            BaseType::Fortress => 6,
        }
    }
}

/// What a ground turret does on one frame of burst fire.
#[derive(Clone, Copy, Debug, PartialEq, Eq, Structural)]
pub enum BurstAction {
    /// Nothing to do on this frame.
    Hold,
    /// Fire one shot of the burst that is under way.
    Fire,
    /// Load a new burst; the first shot leaves at once on the next frame.
    StartBurst,
}

/// The state of a ground turret that the rules read: hit points, whether it
/// still stands, and the shots left in its burst.
#[derive(Clone, Copy, Debug, PartialEq, Eq, Structural)]
pub struct GroundTurretState {
    pub health: i32,
    pub is_active: bool,
    pub burst_count: i32,
}

impl GroundTurretState {
    /// A turret that stands has hit points left.
    pub open spec fn wf(self) -> bool {
        self.is_active ==> self.health > 0
    }

    pub fn new() -> (r: Self)
        ensures
            r.health == GROUND_TURRET_HEALTH,
            r.is_active,
            r.burst_count == 0,
    {
        GroundTurretState { health: GROUND_TURRET_HEALTH, is_active: true, burst_count: 0 }
    }

    /// One frame of burst fire. `timer_expired` says whether the fire timer has
    /// run down, `aimed` whether the barrel points close enough at the player.
    /// A burst under way fires one shot per expiry of the timer; a turret with
    /// an empty burst loads a new one when the timer has expired and it is aimed.
    pub fn burst_step(&mut self, timer_expired: bool, aimed: bool) -> (action: BurstAction)
        requires
            0 <= old(self).burst_count <= GROUND_TURRET_BURST,
        ensures
            final(self).health == old(self).health,
            final(self).is_active == old(self).is_active,
            0 <= final(self).burst_count <= GROUND_TURRET_BURST,
            action == (if old(self).burst_count > 0 && timer_expired {
                BurstAction::Fire
            } else if old(self).burst_count == 0 && timer_expired && aimed {
                BurstAction::StartBurst
            } else {
                BurstAction::Hold
            }),
            action == BurstAction::Fire ==> final(self).burst_count == old(self).burst_count - 1,
            action == BurstAction::StartBurst ==> final(self).burst_count == GROUND_TURRET_BURST,
            action == BurstAction::Hold ==> final(self).burst_count == old(self).burst_count,
    {
        if self.burst_count > 0 && timer_expired {
            self.burst_count = self.burst_count - 1;
            BurstAction::Fire
        } else if self.burst_count == 0 && timer_expired && aimed {
            self.burst_count = GROUND_TURRET_BURST;
            BurstAction::StartBurst
        } else {
            BurstAction::Hold
        }
    }
}

/// The state of a base that the rules read: its kind, its hit points, whether
/// it still stands, and its ground turrets.
pub struct BaseState {
    pub base_type: BaseType,
    pub health: i32,
    pub is_active: bool,
    pub ground_turrets: Vec<GroundTurretState>,
}

/// Whether subtracting `damage` from `health` stays in the `i32` range.
pub open spec fn damage_fits(health: i32, damage: i32) -> bool {
    health - damage >= i32::MIN && health - damage <= i32::MAX
}

/// A ground turret after a hit of `damage`: a standing turret loses hit points
/// and falls at zero; a fallen turret is left as it is.
pub open spec fn turret_after_damage(t: GroundTurretState, damage: int) -> GroundTurretState {
    if t.is_active {
        GroundTurretState {
            health: (t.health - damage) as i32,
            is_active: !(t.health - damage <= 0),
            burst_count: t.burst_count,
        }
    } else {
        t
    }
}

/// Whether a hit of `damage` brings down the ground turret `t`: it stood and
/// has no hit points left.
pub open spec fn turret_destroyed_by(t: GroundTurretState, damage: int) -> bool {
    t.is_active && t.health - damage <= 0
}

/// What the rules know of a base.
pub struct BaseView {
    pub base_type: BaseType,
    pub health: int,
    pub is_active: bool,
    pub ground_turrets: Seq<GroundTurretState>,
}

impl BaseView {
    /// A base that stands has hit points left, and so has each of its standing
    /// ground turrets.
    pub open spec fn wf(self) -> bool {
        &&& self.is_active ==> self.health > 0
        &&& forall|i: int| 0 <= i < self.ground_turrets.len() ==> (#[trigger] self.ground_turrets[i]).wf()
    }

    /// The base after it took `damage`: it loses that many hit points and stops
    /// standing once they are at or below zero. A destroyed base is never restored.
    pub open spec fn damaged(self, damage: int) -> BaseView {
        BaseView {
            base_type: self.base_type,
            health: self.health - damage,
            is_active: self.is_active && !(self.health - damage <= 0),
            ground_turrets: self.ground_turrets,
        }
    }

    /// The base after a hit of `damage` on its ground turret `t`; an index past
    /// the last turret changes nothing.
    pub open spec fn turret_hit(self, t: int, damage: int) -> BaseView {
        if 0 <= t < self.ground_turrets.len() {
            BaseView {
                ground_turrets: self.ground_turrets.update(t, turret_after_damage(self.ground_turrets[t], damage)),
                ..self
            }
        } else {
            self
        }
    }

    /// Whether a hit of `damage` on ground turret `t` brings it down.
    pub open spec fn turret_falls(self, t: int, damage: int) -> bool {
        0 <= t < self.ground_turrets.len() && turret_destroyed_by(self.ground_turrets[t], damage)
    }
}

impl View for BaseState {
    type V = BaseView;

    open spec fn view(&self) -> BaseView {
        BaseView {
            base_type: self.base_type,
            health: self.health as int,
            is_active: self.is_active,
            ground_turrets: self.ground_turrets@,
        }
    }
}

impl BaseState {

    /// A fresh base of the given kind: full hit points, standing, with all of
    /// its ground turrets standing at full hit points and no burst loaded.
    pub fn new(base_type: BaseType) -> (r: Self)
        ensures
            r@.wf(),
            r.base_type == base_type,
            r.health == base_max_health(base_type),
            r.is_active,
            r.ground_turrets@.len() == base_ground_turret_count(base_type),
            forall|i: int| 0 <= i < r.ground_turrets@.len() ==> #[trigger] r.ground_turrets@[i] == (GroundTurretState {
                health: GROUND_TURRET_HEALTH,
                is_active: true,
                burst_count: 0,
            }),
    {
        let count: usize = base_type.ground_turret_count();
        let mut ground_turrets: Vec<GroundTurretState> = Vec::new();
        let mut i: usize = 0;
        while i < count
            invariant
                i <= count,
                ground_turrets@.len() == i,
                forall|k: int| 0 <= k < i ==> #[trigger] ground_turrets@[k] == (GroundTurretState {
                    health: GROUND_TURRET_HEALTH,
                    is_active: true,
                    burst_count: 0,
                }),
            decreases count - i,
        {
            ground_turrets.push(GroundTurretState::new());
            i = i + 1;
        }
        BaseState { base_type, health: base_type.max_health(), is_active: true, ground_turrets }
    }

    /// Subtracts `damage` hit points; the base stops standing once its hit points
    /// are at or below zero.
    pub fn take_damage(&mut self, damage: i32)
        requires
            damage_fits(old(self).health, damage),
        ensures
            final(self)@ == old(self)@.damaged(damage as int),
            final(self).ground_turrets == old(self).ground_turrets,
    {
        self.health = self.health - damage;
        if self.health <= 0 {
            self.is_active = false;
        }
    }

    /// Damages the ground turret at `turret_index`; answers whether this hit
    /// brought it down. An index past the last turret, or a turret already
    /// down, leaves everything as it is and answers `false`.
    pub fn damage_ground_turret(&mut self, turret_index: usize, damage: i32) -> (destroyed: bool)
        requires
            turret_index < old(self).ground_turrets@.len() && old(self).ground_turrets@[turret_index as int].is_active
                ==> damage_fits(
                old(self).ground_turrets@[turret_index as int].health,
                damage,
            ),
        ensures
            final(self)@ == old(self)@.turret_hit(turret_index as int, damage as int),
            destroyed == old(self)@.turret_falls(turret_index as int, damage as int),
    {
        if turret_index < self.ground_turrets.len() {
            let mut t: GroundTurretState = self.ground_turrets[turret_index];
            if t.is_active {
                t.health = t.health - damage;
                let fell: bool = t.health <= 0;
                if fell {
                    t.is_active = false;
                }
                self.ground_turrets.set(turret_index, t);
                return fell;
            }
            assert(self.ground_turrets@.update(turret_index as int, self.ground_turrets@[turret_index as int])
                =~= self.ground_turrets@);
        }
        false
    }

    /// Whether the base sends out enemies now: it stands and its spawn timer
    /// has run down.
    pub fn should_spawn(&self, spawn_timer_expired: bool) -> (r: bool)
        ensures
            r == (self.is_active && spawn_timer_expired),
    {
        self.is_active && spawn_timer_expired
    }

    /// The enemy kinds this base sends out.
    pub fn get_spawn_types(&self) -> (r: Vec<EnemyType>)
        ensures
            r@ == base_spawn_types(self.base_type),
    {
        match self.base_type {
            BaseType::Small => vec![EnemyType::Cube, EnemyType::Pyramid],
            BaseType::Medium => vec![EnemyType::Spinner, EnemyType::Swarm, EnemyType::Shield],
            BaseType::Large => vec![EnemyType::Hunter, EnemyType::Laser, EnemyType::Bomber, EnemyType::Phaser],
            BaseType::Fortress => vec![EnemyType::Guardian, EnemyType::Vortex, EnemyType::Carrier, EnemyType::Reflector],
        }
    }
}

/// Whether every base has been destroyed.
pub open spec fn all_destroyed(bases: Seq<BaseState>) -> bool {
    forall|i: int| 0 <= i < bases.len() ==> !(#[trigger] bases[i]).is_active
}

/// The bases of `bases` that still stand, in order.
pub open spec fn standing(bases: Seq<BaseState>) -> Seq<BaseState>
    decreases bases.len(),
{
    if bases.len() == 0 {
        Seq::empty()
    } else if bases.last().is_active {
        standing(bases.drop_last()).push(bases.last())
    } else {
        standing(bases.drop_last())
    }
}

/// Bookkeeping over all the bases.
pub struct BaseManager;

/// Spawner bases placed at the start of a game.
pub const INITIAL_SPAWNER_COUNT: usize = 6;

impl BaseManager {
    /// The kinds of the spawner bases placed at the start of a game: six, each
    /// basic seven times in ten and heavy otherwise.
    pub fn initial_base_types() -> (r: Vec<SpawnBaseType>)
        ensures
            r@.len() == INITIAL_SPAWNER_COUNT,
            forall|i: int| 0 <= i < r@.len() ==> #[trigger] r@[i] == SpawnBaseType::Basic || r@[i]
                == SpawnBaseType::Heavy,
    {
        let mut r: Vec<SpawnBaseType> = Vec::new();
        let mut i: usize = 0;
        while i < INITIAL_SPAWNER_COUNT
            invariant
                i <= INITIAL_SPAWNER_COUNT,
                r@.len() == i,
                forall|k: int| 0 <= k < r@.len() ==> #[trigger] r@[k] == SpawnBaseType::Basic || r@[k]
                    == SpawnBaseType::Heavy,
            decreases INITIAL_SPAWNER_COUNT - i,
        {
            if random_ratio(7, 10) {
                r.push(SpawnBaseType::Basic);
            } else {
                r.push(SpawnBaseType::Heavy);
            }
            i = i + 1;
        }
        r
    }

    /// Whether every base has been destroyed (vacuously so when there is none).
    pub fn all_bases_destroyed(bases: &Vec<BaseState>) -> (r: bool)
        ensures
            r == all_destroyed(bases@),
    {
        let mut i: usize = 0;
        while i < bases.len()
            invariant
                i <= bases@.len(),
                forall|k: int| 0 <= k < i ==> !(#[trigger] bases@[k]).is_active,
            decreases bases@.len() - i,
        {
            if bases[i].is_active {
                return false;
            }
            i = i + 1;
        }
        true
    }

    /// The bases that send out enemies now, in order: those that stand and whose
    /// spawn timer, per `timer_expired`, has run down.
    pub fn get_bases_ready_to_spawn(bases: &Vec<BaseState>, timer_expired: &Vec<bool>) -> (r: Vec<usize>)
        requires
            timer_expired.len() == bases.len(),
        ensures
            forall|k: int| 0 <= k < r@.len() ==> {
                &&& (#[trigger] r@[k]) < bases@.len()
                &&& bases@[r@[k] as int].is_active
                &&& timer_expired@[r@[k] as int]
            },
            forall|i: int| 0 <= i < bases@.len() && bases@[i].is_active && timer_expired@[i]
                ==> r@.contains(i as usize),
            forall|k: int, l: int| 0 <= k < l < r@.len() ==> r@[k] < r@[l],
    {
        let mut r: Vec<usize> = Vec::new();
        let mut i: usize = 0;
        while i < bases.len()
            invariant
                timer_expired.len() == bases.len(),
                i <= bases@.len(),
                forall|k: int| 0 <= k < r@.len() ==> {
                    &&& (#[trigger] r@[k]) < i
                    &&& bases@[r@[k] as int].is_active
                    &&& timer_expired@[r@[k] as int]
                },
                forall|p: int| 0 <= p < i && bases@[p].is_active && timer_expired@[p] ==> r@.contains(p as usize),
                forall|k: int, l: int| 0 <= k < l < r@.len() ==> r@[k] < r@[l],
            decreases bases@.len() - i,
        {
            if bases[i].is_active && timer_expired[i] {
                let ghost prev = r@;
                r.push(i);
                proof {
                    assert(r@[r@.len() - 1] == i);
                    assert forall|p: int| 0 <= p <= i && bases@[p].is_active && timer_expired@[p]
                        implies r@.contains(p as usize) by {
                        if p < i {
                            assert(prev.contains(p as usize));
                            let w = choose|w: int| 0 <= w < prev.len() && prev[w] == p as usize;
                            assert(r@[w] == prev[w]);
                        } else {
                            assert(r@[r@.len() - 1] == p as usize);
                        }
                    }
                }
            }
            i = i + 1;
        }
        r
    }

    /// Takes the destroyed bases out of `bases`, keeping the standing ones in
    /// their order.
    pub fn remove_destroyed_bases(bases: &mut Vec<BaseState>)
        ensures
            final(bases)@ == standing(old(bases)@),
    {
        let ghost orig = bases@;
        let ghost mut i: int = 0;
        let mut j: usize = 0;
        assert(orig.take(0) =~= Seq::<BaseState>::empty());
        assert(orig.skip(0) =~= orig);
        while j < bases.len()
            invariant
                0 <= i <= orig.len(),
                j == standing(orig.take(i)).len(),
                bases@ == standing(orig.take(i)) + orig.skip(i),
            decreases orig.len() - i,
        {
            let ghost kept = standing(orig.take(i));
            assert(orig.take(i + 1).drop_last() =~= orig.take(i));
            assert(orig.take(i + 1).last() == orig[i]);
            assert(bases@[j as int] == orig[i]);
            if bases[j].is_active {
                proof {
                    assert(standing(orig.take(i + 1)) == kept.push(orig[i]));
                    assert(bases@ =~= standing(orig.take(i + 1)) + orig.skip(i + 1));
                    i = i + 1;
                }
                j = j + 1;
            } else {
                bases.remove(j);
                proof {
                    assert(standing(orig.take(i + 1)) == kept);
                    assert(bases@ =~= standing(orig.take(i + 1)) + orig.skip(i + 1));
                    i = i + 1;
                }
            }
        }
        proof {
            assert(orig.skip(i).len() == 0);
            assert(orig.take(i) =~= orig);
            assert(bases@ =~= standing(orig));
        }
    }

    /// The positions of the destroyed bases, in order, for removal.
    pub fn destroyed_bases(bases: &Vec<BaseState>) -> (r: Vec<usize>)
        ensures
            forall|k: int| 0 <= k < r@.len() ==> (#[trigger] r@[k]) < bases@.len() && !bases@[r@[k] as int].is_active,
            forall|i: int| 0 <= i < bases@.len() && !bases@[i].is_active ==> r@.contains(i as usize),
    {
        let mut r: Vec<usize> = Vec::new();
        let mut i: usize = 0;
        while i < bases.len()
            invariant
                i <= bases@.len(),
                forall|k: int| 0 <= k < r@.len() ==> (#[trigger] r@[k]) < i && !bases@[r@[k] as int].is_active,
                forall|p: int| 0 <= p < i && !bases@[p].is_active ==> r@.contains(p as usize),
            decreases bases@.len() - i,
        {
            if !bases[i].is_active {
                let ghost prev = r@;
                r.push(i);
                proof {
                    assert forall|p: int| 0 <= p <= i && !bases@[p].is_active implies r@.contains(p as usize) by {
                        if p < i {
                            assert(prev.contains(p as usize));
                            let w = choose|w: int| 0 <= w < prev.len() && prev[w] == p as usize;
                            assert(r@[w] == prev[w]);
                        } else {
                            assert(r@[r@.len() - 1] == p as usize);
                        }
                    }
                }
            }
            i = i + 1;
        }
        r
    }
}

proof fn lemma_standing_all_active(bases: Seq<BaseState>)
    requires
        forall|k: int| 0 <= k < bases.len() ==> (#[trigger] bases[k]).is_active,
    ensures
        standing(bases) == bases,
    decreases bases.len(),
{
    if bases.len() > 0 {
        lemma_standing_all_active(bases.drop_last());
        assert(bases.drop_last().push(bases.last()) =~= bases);
    }
}

/// Removing the destroyed bases leaves exactly the standing ones, in order:
/// every base left stands, every standing base is left, nothing is left
/// exactly when every base was destroyed, and removing again changes nothing.
pub proof fn law_remove_destroyed_bases(bases: Seq<BaseState>)
    ensures
        forall|k: int| 0 <= k < standing(bases).len() ==> (#[trigger] standing(bases)[k]).is_active,
        forall|i: int| 0 <= i < bases.len() && (#[trigger] bases[i]).is_active ==> standing(bases).contains(bases[i]),
        standing(bases).len() <= bases.len(),
        standing(bases).len() == 0 <==> all_destroyed(bases),
        all_destroyed(standing(bases)) <==> standing(bases).len() == 0,
        standing(standing(bases)) == standing(bases),
    decreases bases.len(),
{
    if bases.len() > 0 {
        let rest = bases.drop_last();
        law_remove_destroyed_bases(rest);
        let sr = standing(rest);
        let s = standing(bases);
        assert forall|k: int| 0 <= k < s.len() implies (#[trigger] s[k]).is_active by {
            if k < sr.len() {
                assert(s[k] == sr[k]);
            }
        }
        assert forall|i: int| 0 <= i < bases.len() && (#[trigger] bases[i]).is_active implies s.contains(bases[i]) by {
            if i < rest.len() {
                assert(rest[i] == bases[i]);
                assert(sr.contains(rest[i]));
                let w = choose|w: int| 0 <= w < sr.len() && sr[w] == rest[i];
                assert(s[w] == sr[w]);
            } else {
                assert(s[s.len() - 1] == bases[i]);
            }
        }
        if all_destroyed(bases) {
            assert forall|k: int| 0 <= k < rest.len() implies !(#[trigger] rest[k]).is_active by {
                assert(rest[k] == bases[k]);
            }
        }
        if s.len() == 0 {
            assert forall|k: int| 0 <= k < bases.len() implies !(#[trigger] bases[k]).is_active by {
                if bases[k].is_active {
                    assert(s.contains(bases[k]));
                }
            }
        }
        lemma_standing_all_active(s);
    } else {
        assert(standing(bases) =~= Seq::<BaseState>::empty());
    }
}

/// The rank of a base kind, smallest first.
pub open spec fn base_rank(t: BaseType) -> int {
    match t {
        BaseType::Small => 0,
        BaseType::Medium => 1,
        BaseType::Large => 2,
        BaseType::Fortress => 3,
    }
}

/// Bigger bases are stronger in every way: a base of a higher rank has more
/// hit points, more turrets, more ground turrets and more patrol routes, from
/// a small base's hundred hit points, two turrets, six ground turrets and two
/// routes up to a fortress's five hundred, eight, sixteen and six; and every
/// kind sends out a different set of enemies.
pub proof fn law_bigger_bases_are_stronger(a: BaseType, b: BaseType)
    ensures
        base_rank(a) < base_rank(b) ==> base_max_health(a) < base_max_health(b) && base_turret_count(a)
            < base_turret_count(b) && base_ground_turret_count(a) < base_ground_turret_count(b) && base_route_count(a)
            < base_route_count(b),
        100 <= base_max_health(a) <= 500,
        2 <= base_turret_count(a) <= 8,
        6 <= base_ground_turret_count(a) <= 16,
        2 <= base_route_count(a) <= 6,
        base_max_health(a) % 25 == 0,
        a != b ==> forall|i: int, j: int| 0 <= i < base_spawn_types(a).len() && 0 <= j < base_spawn_types(b).len()
            ==> #[trigger] base_spawn_types(a)[i] != #[trigger] base_spawn_types(b)[j],
{
}

/// A base that has stopped standing stands no more, whatever damage it takes;
/// a base that stands and is well formed stays well formed after any damage.
pub proof fn law_destroyed_base_stays_destroyed(b: BaseView, damage: int)
    ensures
        !b.is_active ==> !b.damaged(damage).is_active,
        b.wf() ==> b.damaged(damage).wf(),
{
}

/// A fallen ground turret stays down and is never reported destroyed again; a
/// turret is reported destroyed at most once, by the hit that brings it down.
pub proof fn law_fallen_turret_stays_down(b: BaseView, t: int, damage: int)
    requires
        0 <= t < b.ground_turrets.len(),
    ensures
        !b.ground_turrets[t].is_active ==> b.turret_hit(t, damage) == b && !b.turret_falls(t, damage),
        b.turret_falls(t, damage) ==> !b.turret_hit(t, damage).ground_turrets[t].is_active,
{
    assert(b.ground_turrets.update(t, b.ground_turrets[t]) =~= b.ground_turrets);
}

} // verus!
