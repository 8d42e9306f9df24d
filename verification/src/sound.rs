//! The decisions of the sound system: which music fits the situation, which
//! laser sound an enemy makes, and when a laser sound is dropped to keep the
//! mix from overloading.
use vstd::prelude::*;
use crate::enemy::EnemyType;

verus! {

/// The mood of the background music.
#[derive(Clone, Copy, Debug, PartialEq, Eq, Structural)]
pub enum MusicState {
    Peaceful,
    Suspense,
    Combat,
}

/// The kinds of laser sound.
#[derive(Clone, Copy, Debug, PartialEq, Eq, Structural)]
pub enum LaserType {
    PlayerLaser,
    EnemyPulse,
    EnemyBeam,
    EnemyPlasma,
}

/// What the music needs to know of one enemy, measured by the caller.
#[derive(Clone, Copy, Debug, PartialEq, Eq, Structural)]
pub struct EnemyProximity {
    /// The enemy is alert.
    pub is_alert: bool,
    /// The enemy is within combat range of the player.
    pub within_combat_range: bool,
    /// The enemy is within suspense range of the player (a wider range).
    pub within_suspense_range: bool,
}

/// The music for the enemies around: combat when an alert enemy is within
/// combat range, suspense when some enemy is within suspense range, peaceful
/// otherwise.
pub open spec fn music_for(enemies: Seq<EnemyProximity>) -> MusicState {
    if exists|i: int| 0 <= i < enemies.len() && #[trigger] enemies[i].is_alert && enemies[i].within_combat_range {
        MusicState::Combat
    } else if exists|i: int| 0 <= i < enemies.len() && (#[trigger] enemies[i]).within_suspense_range {
        MusicState::Suspense
    } else {
        MusicState::Peaceful
    }
}

/// The music for the enemies around.
pub fn select_music_state(enemies: &Vec<EnemyProximity>) -> (m: MusicState)
    ensures
        m == music_for(enemies@),
{
    let mut any_near: bool = false;
    let mut i: usize = 0;
    while i < enemies.len()
        invariant
            i <= enemies@.len(),
            any_near == exists|k: int| 0 <= k < i && (#[trigger] enemies@[k]).within_suspense_range,
            forall|k: int| 0 <= k < i ==> !(#[trigger] enemies@[k].is_alert && enemies@[k].within_combat_range),
        decreases enemies@.len() - i,
    {
        let e: EnemyProximity = enemies[i];
        if e.is_alert && e.within_combat_range {
            return MusicState::Combat;
        }
        if e.within_suspense_range {
            any_near = true;
        }
        i = i + 1;
    }
    if any_near {
        MusicState::Suspense
    } else {
        MusicState::Peaceful
    }
}

/// The laser sound an enemy of kind `t` makes.
pub open spec fn laser_of(t: EnemyType) -> LaserType {
    match t {
        EnemyType::Vortex | EnemyType::Swarm => LaserType::EnemyPulse,
        EnemyType::Guardian | EnemyType::Carrier => LaserType::EnemyBeam,
        EnemyType::Reflector => LaserType::EnemyPlasma,
        _ => LaserType::EnemyPulse,
    }
}

/// The laser sound an enemy of kind `t` makes.
pub fn laser_type_for(t: EnemyType) -> (r: LaserType)
    ensures
        r == laser_of(t),
{
    match t {
        EnemyType::Vortex | EnemyType::Swarm => LaserType::EnemyPulse,
        EnemyType::Guardian | EnemyType::Carrier => LaserType::EnemyBeam,
        EnemyType::Reflector => LaserType::EnemyPlasma,
        _ => LaserType::EnemyPulse,
    }
}

/// How far away a sound is, measured by the caller.
#[derive(Clone, Copy, Debug, PartialEq, Eq, Structural)]
pub enum SoundDistance {
    /// No distance given.
    Unknown,
    /// Within close range: always audible.
    Near,
    /// Beyond close range but within audible range.
    Mid,
    /// Beyond audible range.
    Far,
}

/// Sounds allowed per frame for distant sources.
pub const MAX_SOUNDS_PER_FRAME: u32 = 5;
/// Milliseconds that must pass between two distant sounds.
pub const MIN_SOUND_INTERVAL_MS: u128 = 30;
/// Sounds allowed per frame when a distant turret fires.
pub const MAX_DISTANT_TURRET_SOUNDS: u32 = 2;

/// Whether an enemy laser sound is played: nothing beyond audible range; a
/// distant sound only when fewer than five sounds played this frame and thirty
/// milliseconds passed since the last; a distant turret only when fewer than
/// two sounds played this frame. Close sounds always play.
pub open spec fn laser_plays(distance: SoundDistance, is_turret: bool, active_sounds: u32, elapsed_ms: u128) -> bool {
    match distance {
        SoundDistance::Far => false,
        SoundDistance::Mid => !(active_sounds >= MAX_SOUNDS_PER_FRAME || elapsed_ms < MIN_SOUND_INTERVAL_MS)
            && !(is_turret && active_sounds >= MAX_DISTANT_TURRET_SOUNDS),
        _ => true,
    }
}

/// Whether an enemy laser sound is played.
pub fn laser_allowed(distance: SoundDistance, is_turret: bool, active_sounds: u32, elapsed_ms: u128) -> (r: bool)
    ensures
        r == laser_plays(distance, is_turret, active_sounds, elapsed_ms),
{
    match distance {
        SoundDistance::Far => {
            return false;
        },
        SoundDistance::Mid => {
            if active_sounds >= MAX_SOUNDS_PER_FRAME || elapsed_ms < MIN_SOUND_INTERVAL_MS {
                return false;
            }
        },
        _ => {},
    }
    let distant: bool = distance == SoundDistance::Mid;
    if is_turret && distant {
        if active_sounds >= MAX_DISTANT_TURRET_SOUNDS {
            return false;
        }
    }
    true
}

/// Switches the thruster sound on or off as the player thrusts; answers
/// whether it changed.
pub fn update_thruster(playing: &mut bool, is_thrusting: bool) -> (changed: bool)
    ensures
        changed == (*old(playing) != is_thrusting),
        *final(playing) == is_thrusting,
{
    if is_thrusting != *playing {
        *playing = is_thrusting;
        true
    } else {
        false
    }
}

/// Sounds close to the player are never dropped, sounds out of earshot always
/// are, and at most five distant sounds play per frame.
pub proof fn law_sound_limits(distance: SoundDistance, is_turret: bool, active: u32, elapsed: u128)
    ensures
        distance == SoundDistance::Near ==> laser_plays(distance, is_turret, active, elapsed),
        distance == SoundDistance::Far ==> !laser_plays(distance, is_turret, active, elapsed),
        distance == SoundDistance::Mid && active >= MAX_SOUNDS_PER_FRAME ==> !laser_plays(distance, is_turret, active, elapsed),
{
}

/// The music follows the nearest danger: it is combat music exactly when
/// some alert enemy is within combat range; failing that, suspense exactly
/// when some enemy, alert or not, is within suspense range; and peaceful
/// music exactly when neither holds.
pub proof fn law_music_follows_danger(enemies: Seq<EnemyProximity>)
    ensures
        music_for(enemies) == MusicState::Combat <==> exists|i: int| 0 <= i < enemies.len() && #[trigger] enemies[i].is_alert
            && enemies[i].within_combat_range,
        (forall|i: int| 0 <= i < enemies.len() ==> !(#[trigger] enemies[i].is_alert && enemies[i].within_combat_range))
            ==> (music_for(enemies) == MusicState::Suspense <==> exists|i: int| 0 <= i < enemies.len()
            && (#[trigger] enemies[i]).within_suspense_range),
        music_for(enemies) == MusicState::Peaceful <==> (forall|i: int| 0 <= i < enemies.len() ==> !(#[trigger] enemies[i]).within_suspense_range
            && !(enemies[i].is_alert && enemies[i].within_combat_range)),
{
}

/// Combat music plays exactly when an alert enemy is close; it outranks
/// suspense.
pub proof fn law_combat_music(enemies: Seq<EnemyProximity>, i: int)
    requires
        0 <= i < enemies.len(),
        enemies[i].is_alert,
        enemies[i].within_combat_range,
    ensures
        music_for(enemies) == MusicState::Combat,
{
}

} // verus!
