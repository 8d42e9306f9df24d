//! Enemy kinds and the rules of their behaviour that do not depend on
//! positions: how each kind moves, which kinds shoot, patrol routes, stuck
//! recovery, mine laying, combat manoeuvres and formations.
use vstd::prelude::*;
use crate::random::random_range_inclusive;

verus! {

/// The fourteen kinds of enemy.
#[derive(Clone, Copy, Debug, PartialEq, Eq, Structural, Hash)]
pub enum EnemyType {
    Cube,
    Pyramid,
    Spinner,
    Hunter,
    Guardian,
    Laser,
    Swarm,
    Phaser,
    Shield,
    Bomber,
    Disruptor,
    Carrier,
    Reflector,
    Vortex,
}

/// How an enemy moves when nothing overrides it.
#[derive(Clone, Copy, Debug, PartialEq, Eq, Structural)]
pub enum MovementPattern {
    Hover,
    Sinusoidal,
    Orbital,
    Diving,
    Tracking,
    Patrol,
    Flocking,
    Teleport,
    Stationary,
    Drifting,
}

/// How aware an enemy is of the player.
#[derive(Clone, Copy, Debug, PartialEq, Eq, Structural, Hash)]
pub enum AlertState {
    Unaware,
    Suspicious,
    Alert,
    Searching,
    Returning,
}

/// The movement pattern an enemy of each kind is born with.
pub open spec fn pattern_of(t: EnemyType) -> MovementPattern {
    match t {
        EnemyType::Cube => MovementPattern::Hover,
        EnemyType::Pyramid => MovementPattern::Diving,
        EnemyType::Spinner => MovementPattern::Orbital,
        EnemyType::Hunter => MovementPattern::Tracking,
        EnemyType::Guardian => MovementPattern::Patrol,
        EnemyType::Laser => MovementPattern::Hover,
        EnemyType::Swarm => MovementPattern::Flocking,
        EnemyType::Phaser => MovementPattern::Teleport,
        EnemyType::Shield => MovementPattern::Stationary,
        EnemyType::Bomber => MovementPattern::Drifting,
        EnemyType::Disruptor => MovementPattern::Hover,
        EnemyType::Carrier => MovementPattern::Drifting,
        EnemyType::Reflector => MovementPattern::Orbital,
        EnemyType::Vortex => MovementPattern::Stationary,
    }
}

/// The kinds that fire bullets at the player.
pub open spec fn shoots(t: EnemyType) -> bool {
    t == EnemyType::Pyramid || t == EnemyType::Hunter || t == EnemyType::Guardian
}

/// Mines an enemy of each kind carries at birth.
pub open spec fn mines_of(t: EnemyType) -> int {
    if t == EnemyType::Bomber { 5 } else { 0 }
}

/// Waypoints on the patrol route an enemy of each kind lays out at birth.
pub open spec fn waypoints_of(t: EnemyType) -> nat {
    match t {
        EnemyType::Guardian => 6,
        EnemyType::Hunter => 8,
        _ => 4,
    }
}

/// The pattern an enemy actually follows: awareness of the player overrides
/// its own pattern.
pub open spec fn effective_pattern_of(alert: AlertState, own: MovementPattern) -> MovementPattern {
    match alert {
        AlertState::Alert => MovementPattern::Tracking,
        AlertState::Searching => MovementPattern::Hover,
        AlertState::Suspicious => MovementPattern::Hover,
        _ => own,
    }
}

impl EnemyType {
    /// The movement pattern an enemy of this kind is born with.
    pub fn movement_pattern(self) -> (r: MovementPattern)
        ensures r == pattern_of(self),
    {
        match self {
            EnemyType::Cube => MovementPattern::Hover,
            EnemyType::Pyramid => MovementPattern::Diving,
            EnemyType::Spinner => MovementPattern::Orbital,
            EnemyType::Hunter => MovementPattern::Tracking,
            EnemyType::Guardian => MovementPattern::Patrol,
            EnemyType::Laser => MovementPattern::Hover,
            EnemyType::Swarm => MovementPattern::Flocking,
            EnemyType::Phaser => MovementPattern::Teleport,
            EnemyType::Shield => MovementPattern::Stationary,
            EnemyType::Bomber => MovementPattern::Drifting,
            EnemyType::Disruptor => MovementPattern::Hover,
            EnemyType::Carrier => MovementPattern::Drifting,
            EnemyType::Reflector => MovementPattern::Orbital,
            EnemyType::Vortex => MovementPattern::Stationary,
        }
    }

    /// Whether enemies of this kind fire bullets.
    pub fn can_attack(self) -> (r: bool)
        ensures r == shoots(self),
    {
        match self {
            EnemyType::Pyramid | EnemyType::Hunter | EnemyType::Guardian => true,
            _ => false,
        }
    }

    /// Mines carried at birth.
    pub fn initial_mines(self) -> (r: i32)
        ensures r == mines_of(self),
    {
        match self {
            EnemyType::Bomber => 5,
            _ => 0,
        }
    }

    /// Waypoints on the patrol route laid out at birth.
    pub fn patrol_waypoint_count(self) -> (r: usize)
        ensures r == waypoints_of(self),
    {
        match self {
            EnemyType::Guardian => 6,
            EnemyType::Hunter => 8,
            _ => 4,
        }
    }

    /// Whether an enemy of this kind shields the enemies around it.
    pub fn get_shield_active(self) -> (r: bool)
        ensures r == (self == EnemyType::Shield),
    {
        match self {
            EnemyType::Shield => true,
            _ => false,
        }
    }

    /// Whether an enemy of this kind turns bullets back at the player.
    pub fn is_reflecting(self) -> (r: bool)
        ensures r == (self == EnemyType::Reflector),
    {
        match self {
            EnemyType::Reflector => true,
            _ => false,
        }
    }
}

/// The pattern an enemy follows on this frame, given its awareness.
pub fn effective_pattern(alert: AlertState, own: MovementPattern) -> (r: MovementPattern)
    ensures r == effective_pattern_of(alert, own),
{
    match alert {
        AlertState::Alert => MovementPattern::Tracking,
        AlertState::Searching => MovementPattern::Hover,
        AlertState::Suspicious => MovementPattern::Hover,
        _ => own,
    }
}

/// Where an enemy stands on its patrol route.
#[derive(Clone, Copy, Debug, PartialEq, Eq, Structural)]
pub struct PatrolState {
    pub movement_pattern: MovementPattern,
    pub current_waypoint: usize,
}

/// Whether the patrol state can be walked: an enemy that patrols a route with
/// waypoints is headed for one of them.
pub open spec fn patrol_wf(p: PatrolState, waypoint_count: nat) -> bool {
    p.movement_pattern == MovementPattern::Patrol && waypoint_count > 0 ==> p.current_waypoint < waypoint_count
}

impl PatrolState {
    /// A route freshly handed to an enemy: it patrols from the first waypoint.
    pub fn set_patrol_route() -> (r: Self)
        ensures
            r.movement_pattern == MovementPattern::Patrol,
            r.current_waypoint == 0,
    {
        PatrolState { movement_pattern: MovementPattern::Patrol, current_waypoint: 0 }
    }

    /// One frame of patrolling a route of `waypoint_count` waypoints.
    /// `reached` says whether the enemy is within reach of the waypoint it is
    /// headed for; `engaged` whether it is alert and the player is within its
    /// detection range. Past the last waypoint, or once engaged, the enemy
    /// switches to tracking the player; a route without waypoints does the same.
    /// Answers whether the enemy should still steer towards its waypoint.
    pub fn patrol_step(&mut self, waypoint_count: usize, reached: bool, engaged: bool) -> (steer: bool)
        requires
            old(self).movement_pattern == MovementPattern::Patrol,
            patrol_wf(*old(self), waypoint_count as nat),
        ensures
            patrol_wf(*final(self), waypoint_count as nat),
            waypoint_count == 0 ==> final(self).movement_pattern == MovementPattern::Tracking
                && final(self).current_waypoint == old(self).current_waypoint && !steer,
            waypoint_count > 0 ==> {
                &&& steer == !reached
                &&& final(self).current_waypoint == if reached {
                    old(self).current_waypoint + 1
                } else {
                    old(self).current_waypoint as int
                }
                &&& final(self).movement_pattern == if engaged || final(self).current_waypoint >= waypoint_count {
                    MovementPattern::Tracking
                } else {
                    MovementPattern::Patrol
                }
            },
    {
        if waypoint_count > 0 {
            let mut steer: bool = true;
            if reached {
                self.current_waypoint = self.current_waypoint + 1;
                steer = false;
                if self.current_waypoint >= waypoint_count {
                    self.movement_pattern = MovementPattern::Tracking;
                }
            }
            if engaged {
                self.movement_pattern = MovementPattern::Tracking;
            }
            steer
        } else {
            self.movement_pattern = MovementPattern::Tracking;
            false
        }
    }

    /// Recovery of an enemy that has been stuck for a while: a patrolling enemy
    /// skips to the next waypoint, wrapping round to the first. Answers whether
    /// it skipped; any other enemy is left to be nudged by its caller.
    pub fn recover_from_stuck(&mut self, waypoint_count: usize) -> (skipped: bool)
        requires
            old(self).movement_pattern == MovementPattern::Patrol ==> waypoint_count > 0,
            patrol_wf(*old(self), waypoint_count as nat),
        ensures
            skipped == (old(self).movement_pattern == MovementPattern::Patrol),
            final(self).movement_pattern == old(self).movement_pattern,
            skipped ==> final(self).current_waypoint == (old(self).current_waypoint + 1) % (waypoint_count as int),
            !skipped ==> final(self).current_waypoint == old(self).current_waypoint,
            patrol_wf(*final(self), waypoint_count as nat),
    {
        if self.movement_pattern == MovementPattern::Patrol {
            self.current_waypoint = (self.current_waypoint + 1) % waypoint_count;
            true
        } else {
            false
        }
    }
}

/// Whether a bomber lays a mine on this frame: it has one left, its cooldown
/// has run out and the player is within its detection range.
pub open spec fn lays_mine(count: int, cooldown_expired: bool, player_in_range: bool) -> bool {
    count > 0 && cooldown_expired && player_in_range
}

/// A bomber's stock of mines after this frame.
pub open spec fn mines_after(count: int, cooldown_expired: bool, player_in_range: bool) -> int {
    if lays_mine(count, cooldown_expired, player_in_range) { count - 1 } else { count }
}

/// One frame of a bomber's mine laying; answers whether it laid a mine.
pub fn bomber_lay_mine(mine_count: &mut i32, cooldown_expired: bool, player_in_range: bool) -> (laid: bool)
    ensures
        laid == lays_mine(*old(mine_count) as int, cooldown_expired, player_in_range),
        *final(mine_count) == mines_after(*old(mine_count) as int, cooldown_expired, player_in_range),
{
    if *mine_count > 0 && cooldown_expired && player_in_range {
        *mine_count = *mine_count - 1;
        true
    } else {
        false
    }
}

/// Whether an enemy may try a shot on this frame: it is alert, its kind
/// shoots, and its attack cooldown has run out. (Whether it does shoot is then
/// left to chance.)
pub fn ready_to_attack(alert: AlertState, enemy_type: EnemyType, cooldown_expired: bool) -> (r: bool)
    ensures
        r == (alert == AlertState::Alert && shoots(enemy_type) && cooldown_expired),
{
    alert == AlertState::Alert && enemy_type.can_attack() && cooldown_expired
}

/// Where the player stands relative to the distance an enemy likes to fight at.
#[derive(Clone, Copy, Debug, PartialEq, Eq, Structural)]
pub enum CombatRange {
    /// Closer than the close-range threshold.
    Point,
    /// Closer than seven tenths of the preferred distance.
    TooClose,
    /// Farther than one and a half times the preferred distance.
    TooFar,
    /// In between.
    Good,
}

/// Manoeuvre: zigzag approach.
pub const MANOEUVRE_APPROACH: i32 = 0;
/// Manoeuvre: random evasion at point-blank range.
pub const MANOEUVRE_CLOSE_RANGE: i32 = 5;

/// The combat manoeuvre an enemy picks when its manoeuvre timer runs out:
/// random evasion at point-blank range, one of the four evasive manoeuvres
/// (1 to 4) when too close, the approach when too far, and any of the first four
/// (0 to 3) at a good distance. The choice among several is random.
pub fn choose_combat_maneuver(range: CombatRange) -> (m: i32)
    ensures
        range == CombatRange::Point ==> m == MANOEUVRE_CLOSE_RANGE,
        range == CombatRange::TooClose ==> 1 <= m <= 4,
        range == CombatRange::TooFar ==> m == MANOEUVRE_APPROACH,
        range == CombatRange::Good ==> 0 <= m <= 3,
{
    match range {
        CombatRange::Point => MANOEUVRE_CLOSE_RANGE,
        CombatRange::TooClose => random_range_inclusive(1, 4) as i32,
        CombatRange::TooFar => MANOEUVRE_APPROACH,
        CombatRange::Good => random_range_inclusive(0, 3) as i32,
    }
}

/// What a laser enemy observes on one frame, measured by the caller.
#[derive(Clone, Copy, Debug, PartialEq, Eq, Structural)]
pub struct LaserObservation {
    /// The player is within detection range.
    pub player_in_range: bool,
    /// The attack cooldown has run out.
    pub cooldown_expired: bool,
    /// The beam has swept for over three seconds, or has reached its target.
    pub sweep_done: bool,
    /// The frame's draw for opening fire came out.
    pub fires: bool,
}

/// What a laser enemy does with its beam on one frame.
#[derive(Clone, Copy, Debug, PartialEq, Eq, Structural)]
pub enum LaserAction {
    /// The beam stays as it is, on or off.
    Hold,
    /// The beam comes on and starts its sweep towards the player.
    Start,
    /// The beam goes off, and a long cooldown starts.
    Stop,
}

/// The laser cycle: a beam that is on sweeps until its sweep is done, then
/// goes off; a beam that is off comes on when the player is in range, the
/// cooldown has run out and the draw says so.
pub open spec fn laser_action_of(active: bool, o: LaserObservation) -> LaserAction {
    if active {
        if o.sweep_done { LaserAction::Stop } else { LaserAction::Hold }
    } else if o.player_in_range && o.cooldown_expired && o.fires {
        LaserAction::Start
    } else {
        LaserAction::Hold
    }
}

/// One frame of a laser enemy's beam; `active` says whether it is on.
pub fn laser_step(active: bool, o: LaserObservation) -> (a: LaserAction)
    ensures
        a == laser_action_of(active, o),
{
    if active {
        if o.sweep_done {
            LaserAction::Stop
        } else {
            LaserAction::Hold
        }
    } else if o.player_in_range && o.cooldown_expired && o.fires {
        LaserAction::Start
    } else {
        LaserAction::Hold
    }
}

/// The beam alternates: it only comes on while off and only goes off while
/// on, and it never comes on before the cooldown has run out or with the
/// player out of range.
pub proof fn law_laser_cycle(active: bool, o: LaserObservation)
    ensures
        laser_action_of(active, o) == LaserAction::Start ==> !active && o.cooldown_expired && o.player_in_range,
        laser_action_of(active, o) == LaserAction::Stop ==> active && o.sweep_done,
        active && !o.sweep_done ==> laser_action_of(active, o) == LaserAction::Hold,
{
}

/// The kinds that fire bullets are exactly pyramids, hunters and guardians,
/// and an alert one of them with its cooldown run out is ready to shoot;
/// these are also exactly the kinds born diving, tracking or patrolling.
pub proof fn law_shooting_kinds(t: EnemyType)
    ensures
        shoots(t) <==> (t == EnemyType::Pyramid || t == EnemyType::Hunter || t == EnemyType::Guardian),
        shoots(EnemyType::Pyramid) && shoots(EnemyType::Hunter) && shoots(EnemyType::Guardian),
        !shoots(EnemyType::Cube) && !shoots(EnemyType::Spinner) && !shoots(EnemyType::Laser) && !shoots(EnemyType::Swarm)
            && !shoots(EnemyType::Phaser) && !shoots(EnemyType::Shield) && !shoots(EnemyType::Bomber) && !shoots(
            EnemyType::Disruptor,
        ) && !shoots(EnemyType::Carrier) && !shoots(EnemyType::Reflector) && !shoots(EnemyType::Vortex),
        shoots(t) <==> (pattern_of(t) == MovementPattern::Diving || pattern_of(t) == MovementPattern::Tracking
            || pattern_of(t) == MovementPattern::Patrol),
{
}

/// Awareness overrides how an enemy moves: an alert enemy always tracks the
/// player, a suspicious or searching one hovers towards where it looks, and
/// only an unaware or returning enemy keeps the pattern it was born with.
pub proof fn law_awareness_overrides_movement(alert: AlertState, own: MovementPattern)
    ensures
        alert == AlertState::Alert ==> effective_pattern_of(alert, own) == MovementPattern::Tracking,
        alert == AlertState::Suspicious || alert == AlertState::Searching ==> effective_pattern_of(alert, own)
            == MovementPattern::Hover,
        alert == AlertState::Unaware || alert == AlertState::Returning ==> effective_pattern_of(alert, own) == own,
{
}

/// A bomber's stock of mines only ever shrinks, one mine at a time, and a
/// stock that starts at zero or above never goes below zero.
pub proof fn law_mines_never_negative(count: int, cooldown_expired: bool, player_in_range: bool)
    requires
        count >= 0,
    ensures
        0 <= mines_after(count, cooldown_expired, player_in_range) <= count,
        count - mines_after(count, cooldown_expired, player_in_range) <= 1,
{
}

/// Where the enemies of a V formation go.
#[derive(Clone, Copy, Debug, PartialEq, Eq, Structural)]
pub enum FormationSide {
    Leader,
    Left,
    Right,
}

/// One place in a formation: which enemy kind takes it, on which side, and how
/// many places back from the leader.
#[derive(Clone, Copy, Debug, PartialEq, Eq, Structural)]
pub struct FormationSlot {
    pub enemy_type: EnemyType,
    pub side: FormationSide,
    pub rank: usize,
}

/// The places of a V formation of the kinds `types`: the first leads, then the
/// next ones alternate left and right, one rank further back per pair. Only
/// `(n - 1) / 2` full pairs are formed, so of an even number of kinds the last
/// one is left out.
pub open spec fn v_slots(types: Seq<EnemyType>) -> Seq<FormationSlot> {
    Seq::new(
        (1 + 2 * ((types.len() - 1) / 2)) as nat,
        |k: int|
            if k == 0 {
                FormationSlot { enemy_type: types[0], side: FormationSide::Leader, rank: 0 }
            } else if k % 2 == 1 {
                FormationSlot { enemy_type: types[k], side: FormationSide::Left, rank: ((k + 1) / 2) as usize }
            } else {
                FormationSlot { enemy_type: types[k], side: FormationSide::Right, rank: (k / 2) as usize }
            },
    )
}

/// The shapes of formation other than the V: enemies side by side in a line,
/// evenly round a circle, or on the four points of a diamond (front, left,
/// right, back).
#[derive(Clone, Copy, Debug, PartialEq, Eq, Structural)]
pub enum FormationShape {
    Line,
    Circle,
    Diamond,
}

/// The places taken in a formation of shape `shape` by the kinds `types`:
/// `(kind, place)` where the place counts along the line, round the circle,
/// or over the diamond's points. A line and a circle take every kind; a
/// diamond only has four points, so it takes the first four.
pub open spec fn formation_places_of(types: Seq<EnemyType>, shape: FormationShape) -> Seq<(EnemyType, usize)> {
    let n = if shape == FormationShape::Diamond && types.len() > 4 { 4 } else { types.len() };
    Seq::new(n, |i: int| (types[i], i as usize))
}

/// Factory of enemy groups and formations.
pub struct EnemyFactory;

impl EnemyFactory {
    /// The places of a line, circle or diamond formation of the kinds
    /// `types`, in order: see `formation_places_of`.
    pub fn formation_places(types: &Vec<EnemyType>, shape: FormationShape) -> (r: Vec<(EnemyType, usize)>)
        ensures
            r@ == formation_places_of(types@, shape),
    {
        let n: usize = match shape {
            FormationShape::Diamond => if types.len() > 4 { 4 } else { types.len() },
            _ => types.len(),
        };
        let mut r: Vec<(EnemyType, usize)> = Vec::new();
        let mut i: usize = 0;
        while i < n
            invariant
                n == formation_places_of(types@, shape).len(),
                n <= types@.len(),
                i <= n,
                r@.len() == i,
                forall|k: int| 0 <= k < i ==> #[trigger] r@[k] == formation_places_of(types@, shape)[k],
            decreases n - i,
        {
            r.push((types[i], i));
            i = i + 1;
        }
        assert(r@ =~= formation_places_of(types@, shape));
        r
    }

    /// The places of a V formation of the kinds `types`, leader first.
    pub fn v_formation_slots(types: &Vec<EnemyType>) -> (r: Vec<FormationSlot>)
        requires
            types.len() >= 1,
        ensures
            r@ == v_slots(types@),
    {
        let mut r: Vec<FormationSlot> = Vec::new();
        r.push(FormationSlot { enemy_type: types[0], side: FormationSide::Leader, rank: 0 });
        let wing_size: usize = (types.len() - 1) / 2;
        let mut i: usize = 1;
        while i <= wing_size
            invariant
                1 <= i <= wing_size + 1,
                wing_size == (types.len() - 1) / 2,
                r@.len() == 2 * i - 1,
                forall|k: int| 0 <= k < r@.len() ==> #[trigger] r@[k] == v_slots(types@)[k],
            decreases wing_size + 1 - i,
        {
            r.push(FormationSlot { enemy_type: types[2 * i - 1], side: FormationSide::Left, rank: i });
            r.push(FormationSlot { enemy_type: types[2 * i], side: FormationSide::Right, rank: i });
            i = i + 1;
        }
        assert(r@ =~= v_slots(types@));
        r
    }
}

/// A V formation places every kind it is given when it is given an odd number
/// of them, and all but the last one otherwise.
pub proof fn law_v_formation_size(types: Seq<EnemyType>)
    requires
        types.len() >= 1,
    ensures
        types.len() % 2 == 1 ==> v_slots(types).len() == types.len(),
        types.len() % 2 == 0 ==> v_slots(types).len() == types.len() - 1,
        forall|k: int| 0 <= k < v_slots(types).len() ==> #[trigger] v_slots(types)[k].enemy_type == types[k],
{
}

} // verus!
