//! How aware an enemy is of the player: the alert state machine, sound alerts
//! and the spreading of an alarm among enemies.
use vstd::prelude::*;
use crate::enemy::AlertState;

verus! {

/// What an enemy observes on one frame, measured by the caller.
#[derive(Clone, Copy, Debug, PartialEq, Eq, Structural)]
pub struct AlertObservation {
    /// The player is within detection range and inside the view cone.
    pub sees_player: bool,
    /// The player is within hearing range.
    pub hears_player: bool,
    /// The enemy is close to the point it is investigating.
    pub reached_investigation_point: bool,
    /// The alert cooldown has run out (after this frame's countdown).
    pub cooldown_expired: bool,
    /// The search has gone on for too long (after this frame's count).
    pub search_expired: bool,
    /// The enemy is back near its spawn point.
    pub reached_spawn: bool,
}

/// What the caller records besides the new state.
#[derive(Clone, Copy, Debug, PartialEq, Eq, Structural)]
pub enum AlertEffect {
    /// Nothing else changes.
    Nothing,
    /// The player was spotted: remember where, and stay alert for a long cooldown.
    Spotted,
    /// The player was spotted while searching: as `Spotted`, and the search timer restarts.
    SpottedWhileSearching,
    /// The player is still in sight: remember where, and refresh a shorter cooldown.
    StillInSight,
    /// Something was heard: investigate the player's position, with a short cooldown.
    Investigate,
    /// Give up and head back, with a short cooldown.
    GiveUp,
    /// Sight was lost: start searching, the search timer from zero.
    StartSearch,
}

/// The outcome of one frame of the alert state machine.
#[derive(Clone, Copy, Debug, PartialEq, Eq, Structural)]
pub struct AlertStep {
    pub next: AlertState,
    pub effect: AlertEffect,
}

/// The alert transitions shared by every enemy, for every state but `Returning`.
pub open spec fn common_step(state: AlertState, o: AlertObservation) -> AlertStep {
    match state {
        AlertState::Unaware => if o.sees_player {
            AlertStep { next: AlertState::Alert, effect: AlertEffect::Spotted }
        } else if o.hears_player {
            AlertStep { next: AlertState::Suspicious, effect: AlertEffect::Investigate }
        } else {
            AlertStep { next: AlertState::Unaware, effect: AlertEffect::Nothing }
        },
        AlertState::Suspicious => if o.sees_player {
            AlertStep { next: AlertState::Alert, effect: AlertEffect::Spotted }
        } else if o.reached_investigation_point || o.cooldown_expired {
            AlertStep { next: AlertState::Returning, effect: AlertEffect::GiveUp }
        } else {
            AlertStep { next: AlertState::Suspicious, effect: AlertEffect::Nothing }
        },
        AlertState::Alert => if o.sees_player {
            AlertStep { next: AlertState::Alert, effect: AlertEffect::StillInSight }
        } else if o.cooldown_expired {
            AlertStep { next: AlertState::Searching, effect: AlertEffect::StartSearch }
        } else {
            AlertStep { next: AlertState::Alert, effect: AlertEffect::Nothing }
        },
        AlertState::Searching => if o.sees_player {
            AlertStep { next: AlertState::Alert, effect: AlertEffect::SpottedWhileSearching }
        } else if o.search_expired {
            AlertStep { next: AlertState::Returning, effect: AlertEffect::GiveUp }
        } else {
            AlertStep { next: AlertState::Searching, effect: AlertEffect::Nothing }
        },
        AlertState::Returning => if o.sees_player {
            AlertStep { next: AlertState::Alert, effect: AlertEffect::Spotted }
        } else {
            AlertStep { next: AlertState::Returning, effect: AlertEffect::Nothing }
        },
    }
}

/// The alert state machine of an enemy: as `common_step`, except that a
/// returning enemy settles back to unaware once it is home or its cooldown has
/// run out.
pub open spec fn enemy_alert_step(state: AlertState, o: AlertObservation) -> AlertStep {
    if state == AlertState::Returning && !o.sees_player && (o.reached_spawn || o.cooldown_expired) {
        AlertStep { next: AlertState::Unaware, effect: AlertEffect::Nothing }
    } else {
        common_step(state, o)
    }
}

/// One frame of the alert state machine of an enemy.
pub fn update_alert_state(state: AlertState, o: AlertObservation) -> (r: AlertStep)
    ensures
        r == enemy_alert_step(state, o),
{
    match state {
        AlertState::Returning => {
            if o.sees_player {
                AlertStep { next: AlertState::Alert, effect: AlertEffect::Spotted }
            } else if o.reached_spawn || o.cooldown_expired {
                AlertStep { next: AlertState::Unaware, effect: AlertEffect::Nothing }
            } else {
                AlertStep { next: AlertState::Returning, effect: AlertEffect::Nothing }
            }
        },
        _ => controller_alert_step(state, o),
    }
}

/// One frame of the alert state machine of an AI controller: a returning
/// controller only leaves that state on sight of the player.
pub fn controller_alert_step(state: AlertState, o: AlertObservation) -> (r: AlertStep)
    ensures
        r == common_step(state, o),
{
    match state {
        AlertState::Unaware => {
            if o.sees_player {
                AlertStep { next: AlertState::Alert, effect: AlertEffect::Spotted }
            } else if o.hears_player {
                AlertStep { next: AlertState::Suspicious, effect: AlertEffect::Investigate }
            } else {
                AlertStep { next: AlertState::Unaware, effect: AlertEffect::Nothing }
            }
        },
        AlertState::Suspicious => {
            if o.sees_player {
                AlertStep { next: AlertState::Alert, effect: AlertEffect::Spotted }
            } else if o.reached_investigation_point || o.cooldown_expired {
                AlertStep { next: AlertState::Returning, effect: AlertEffect::GiveUp }
            } else {
                AlertStep { next: AlertState::Suspicious, effect: AlertEffect::Nothing }
            }
        },
        AlertState::Alert => {
            if o.sees_player {
                AlertStep { next: AlertState::Alert, effect: AlertEffect::StillInSight }
            } else if o.cooldown_expired {
                AlertStep { next: AlertState::Searching, effect: AlertEffect::StartSearch }
            } else {
                AlertStep { next: AlertState::Alert, effect: AlertEffect::Nothing }
            }
        },
        AlertState::Searching => {
            if o.sees_player {
                AlertStep { next: AlertState::Alert, effect: AlertEffect::SpottedWhileSearching }
            } else if o.search_expired {
                AlertStep { next: AlertState::Returning, effect: AlertEffect::GiveUp }
            } else {
                AlertStep { next: AlertState::Searching, effect: AlertEffect::Nothing }
            }
        },
        AlertState::Returning => {
            if o.sees_player {
                AlertStep { next: AlertState::Alert, effect: AlertEffect::Spotted }
            } else {
                AlertStep { next: AlertState::Returning, effect: AlertEffect::Nothing }
            }
        },
    }
}

/// How a nearby alarm or a loud sound changes an enemy that notices it: an
/// unaware enemy turns suspicious; everyone else keeps their state.
pub open spec fn alarmed(state: AlertState, notices: bool) -> AlertState {
    if notices && state == AlertState::Unaware { AlertState::Suspicious } else { state }
}

/// An alerted enemy spreads the alarm to the enemies in its communication
/// range: each unaware one among the others turns suspicious and must
/// investigate the alerter's last sighting of the player. `in_range[i]` says
/// whether enemy `i` is in range; the alerter itself, at `alerter`, is skipped,
/// and an alerter that is not alert spreads nothing. Answers, per enemy,
/// whether it was alarmed.
pub fn alert_nearby_enemies(states: &mut Vec<AlertState>, in_range: &Vec<bool>, alerter: usize) -> (alarmed_now: Vec<bool>)
    requires
        in_range.len() == old(states).len(),
        alerter < old(states).len(),
    ensures
        final(states).len() == old(states).len(),
        alarmed_now.len() == old(states).len(),
        forall|i: int| 0 <= i < old(states).len() ==> {
            &&& #[trigger] alarmed_now@[i] == (old(states)@[alerter as int] == AlertState::Alert && i != alerter
                && in_range@[i] && old(states)@[i] == AlertState::Unaware)
            &&& final(states)@[i] == if alarmed_now@[i] { AlertState::Suspicious } else { old(states)@[i] }
        },
{
    let n: usize = states.len();
    let alerter_state: AlertState = states[alerter];
    let ghost before = states@;
    let mut alarmed_now: Vec<bool> = Vec::new();
    let mut i: usize = 0;
    while i < n
        invariant
            n == states.len(),
            n == before.len(),
            in_range.len() == n,
            alerter < n,
            alerter_state == before[alerter as int],
            i <= n,
            alarmed_now.len() == i,
            forall|k: int| 0 <= k < i ==> {
                &&& #[trigger] alarmed_now@[k] == (alerter_state == AlertState::Alert && k != alerter
                    && in_range@[k] && before[k] == AlertState::Unaware)
                &&& states@[k] == if alarmed_now@[k] { AlertState::Suspicious } else { before[k] }
            },
            forall|k: int| i <= k < n ==> states@[k] == before[k],
        decreases n - i,
    {
        let hit: bool = alerter_state == AlertState::Alert && i != alerter && in_range[i]
            && states[i] == AlertState::Unaware;
        if hit {
            states.set(i, AlertState::Suspicious);
        }
        alarmed_now.push(hit);
        i = i + 1;
    }
    alarmed_now
}

/// What a loud sound, such as the player's gunfire, does to an enemy that hears
/// it: an unaware enemy turns suspicious, a suspicious one keeps investigating,
/// and both (re)start investigating the sound; others ignore it. Answers the new
/// state and whether the enemy must investigate the sound.
pub fn hear_sound(state: AlertState, hears: bool) -> (r: (AlertState, bool))
    ensures
        r.0 == alarmed(state, hears),
        r.1 == (hears && (state == AlertState::Unaware || state == AlertState::Suspicious)),
{
    if hears {
        match state {
            AlertState::Unaware => (AlertState::Suspicious, true),
            AlertState::Suspicious => (AlertState::Suspicious, true),
            _ => (state, false),
        }
    } else {
        (state, false)
    }
}

/// Combat rules that touch many enemies at once.
pub struct CombatSystem;

impl CombatSystem {
    /// The player's gunfire is heard by the enemies for which `hears[i]` holds
    /// (within the sound's radius and their own hearing range): see
    /// `hear_sound`. Answers, per enemy, whether it must investigate the sound.
    pub fn alert_enemies_to_sound(states: &mut Vec<AlertState>, hears: &Vec<bool>) -> (investigate: Vec<bool>)
        requires
            hears.len() == old(states).len(),
        ensures
            final(states).len() == old(states).len(),
            investigate.len() == old(states).len(),
            forall|i: int| 0 <= i < old(states).len() ==> {
                &&& #[trigger] final(states)@[i] == alarmed(old(states)@[i], hears@[i])
                &&& investigate@[i] == (hears@[i] && (old(states)@[i] == AlertState::Unaware
                    || old(states)@[i] == AlertState::Suspicious))
            },
    {
        let n: usize = states.len();
        let ghost before = states@;
        let mut investigate: Vec<bool> = Vec::new();
        let mut i: usize = 0;
        while i < n
            invariant
                n == states.len(),
                n == before.len(),
                hears.len() == n,
                i <= n,
                investigate.len() == i,
                forall|k: int| 0 <= k < i ==> {
                    &&& #[trigger] states@[k] == alarmed(before[k], hears@[k])
                    &&& investigate@[k] == (hears@[k] && (before[k] == AlertState::Unaware
                        || before[k] == AlertState::Suspicious))
                },
                forall|k: int| i <= k < n ==> states@[k] == before[k],
            decreases n - i,
        {
            let (next, inv): (AlertState, bool) = hear_sound(states[i], hears[i]);
            states.set(i, next);
            investigate.push(inv);
            i = i + 1;
        }
        investigate
    }
}

/// Whatever an enemy was doing, seeing the player makes it alert, and the only
/// way into the alert state is seeing the player (an alert enemy stays alert
/// until its cooldown runs out). Holds of enemies and AI controllers alike.
pub proof fn law_alert_exactly_on_sight(state: AlertState, o: AlertObservation)
    ensures
        o.sees_player ==> enemy_alert_step(state, o).next == AlertState::Alert,
        o.sees_player ==> common_step(state, o).next == AlertState::Alert,
        enemy_alert_step(state, o).next == AlertState::Alert ==> o.sees_player || state == AlertState::Alert,
        common_step(state, o).next == AlertState::Alert ==> o.sees_player || state == AlertState::Alert,
        state == AlertState::Alert && !o.cooldown_expired ==> enemy_alert_step(state, o).next == AlertState::Alert,
{
}

/// Each state holds until its own reason to leave comes, for enemies and AI
/// controllers alike, as long as the player is not seen: an unaware one until
/// it hears something, a suspicious one until it reaches the point it
/// investigates or its cooldown runs out, an alert one until its cooldown
/// runs out, a searching one until the search has gone on too long (an expired
/// alert cooldown does not end a search), and a returning enemy until it is
/// home or its cooldown runs out.
pub proof fn law_alert_states_hold(o: AlertObservation)
    ensures
        !o.sees_player && !o.hears_player ==> enemy_alert_step(AlertState::Unaware, o) == (AlertStep {
            next: AlertState::Unaware,
            effect: AlertEffect::Nothing,
        }) && common_step(AlertState::Unaware, o) == (AlertStep { next: AlertState::Unaware, effect: AlertEffect::Nothing }),
        !o.sees_player && !o.reached_investigation_point && !o.cooldown_expired ==> enemy_alert_step(
            AlertState::Suspicious,
            o,
        ).next == AlertState::Suspicious && common_step(AlertState::Suspicious, o).next == AlertState::Suspicious,
        !o.sees_player && !o.cooldown_expired ==> enemy_alert_step(AlertState::Alert, o).next == AlertState::Alert
            && common_step(AlertState::Alert, o).next == AlertState::Alert,
        !o.sees_player && !o.search_expired ==> enemy_alert_step(AlertState::Searching, o) == (AlertStep {
            next: AlertState::Searching,
            effect: AlertEffect::Nothing,
        }) && common_step(AlertState::Searching, o) == (AlertStep { next: AlertState::Searching, effect: AlertEffect::Nothing }),
        !o.sees_player && o.search_expired ==> enemy_alert_step(AlertState::Searching, o).next == AlertState::Returning
            && common_step(AlertState::Searching, o).next == AlertState::Returning,
        !o.sees_player && !o.reached_spawn && !o.cooldown_expired ==> enemy_alert_step(AlertState::Returning, o).next
            == AlertState::Returning,
        !o.sees_player && (o.reached_spawn || o.cooldown_expired) ==> enemy_alert_step(AlertState::Returning, o).next
            == AlertState::Unaware,
{
}

/// The machine moves one level at a time: an unaware enemy never jumps
/// straight to searching or returning, and a search only starts from the alert
/// state.
pub proof fn law_alert_levels(state: AlertState, o: AlertObservation)
    ensures
        state == AlertState::Unaware ==> enemy_alert_step(state, o).next != AlertState::Searching
            && enemy_alert_step(state, o).next != AlertState::Returning,
        enemy_alert_step(state, o).next == AlertState::Searching ==> state == AlertState::Alert
            || state == AlertState::Searching,
        enemy_alert_step(state, o).next == AlertState::Unaware ==> state == AlertState::Unaware
            || state == AlertState::Returning,
{
}

/// An AI controller that is returning never settles by itself: it stays
/// returning until it sees the player.
pub proof fn law_controller_keeps_returning(o: AlertObservation)
    ensures
        common_step(AlertState::Returning, o).next == if o.sees_player {
            AlertState::Alert
        } else {
            AlertState::Returning
        },
{
}

/// An alarm or a sound only ever wakes unaware enemies, into suspicion; it
/// never calms anyone down nor makes anyone alert.
pub proof fn law_alarm_only_wakes(state: AlertState, notices: bool)
    ensures
        alarmed(state, notices) == state || (state == AlertState::Unaware && alarmed(state, notices)
            == AlertState::Suspicious),
        alarmed(state, notices) != AlertState::Alert || state == AlertState::Alert,
{
}

} // verus!
