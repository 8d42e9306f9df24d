use vector_shooter::alert::{
    alert_nearby_enemies, controller_alert_step, hear_sound, update_alert_state, AlertEffect, AlertObservation,
    CombatSystem,
};
use vector_shooter::enemy::AlertState;

fn quiet() -> AlertObservation {
    AlertObservation {
        sees_player: false,
        hears_player: false,
        reached_investigation_point: false,
        cooldown_expired: false,
        search_expired: false,
        reached_spawn: false,
    }
}

#[test]
fn unaware_spots_or_hears() {
    let s = update_alert_state(AlertState::Unaware, AlertObservation { sees_player: true, hears_player: true, ..quiet() });
    assert_eq!((s.next, s.effect), (AlertState::Alert, AlertEffect::Spotted));
    let s = update_alert_state(AlertState::Unaware, AlertObservation { hears_player: true, ..quiet() });
    assert_eq!((s.next, s.effect), (AlertState::Suspicious, AlertEffect::Investigate));
    let s = update_alert_state(AlertState::Unaware, quiet());
    assert_eq!((s.next, s.effect), (AlertState::Unaware, AlertEffect::Nothing));
}

#[test]
fn suspicious_gives_up() {
    let s = update_alert_state(AlertState::Suspicious, AlertObservation { reached_investigation_point: true, ..quiet() });
    assert_eq!((s.next, s.effect), (AlertState::Returning, AlertEffect::GiveUp));
    let s = update_alert_state(AlertState::Suspicious, AlertObservation { cooldown_expired: true, ..quiet() });
    assert_eq!(s.next, AlertState::Returning);
    let s = update_alert_state(AlertState::Suspicious, quiet());
    assert_eq!(s.next, AlertState::Suspicious);
}

#[test]
fn alert_holds_then_searches() {
    let s = update_alert_state(AlertState::Alert, AlertObservation { sees_player: true, ..quiet() });
    assert_eq!((s.next, s.effect), (AlertState::Alert, AlertEffect::StillInSight));
    let s = update_alert_state(AlertState::Alert, quiet());
    assert_eq!((s.next, s.effect), (AlertState::Alert, AlertEffect::Nothing));
    let s = update_alert_state(AlertState::Alert, AlertObservation { cooldown_expired: true, ..quiet() });
    assert_eq!((s.next, s.effect), (AlertState::Searching, AlertEffect::StartSearch));
}

#[test]
fn searching_finds_or_gives_up() {
    let s = update_alert_state(AlertState::Searching, AlertObservation { sees_player: true, ..quiet() });
    assert_eq!((s.next, s.effect), (AlertState::Alert, AlertEffect::SpottedWhileSearching));
    let s = update_alert_state(AlertState::Searching, AlertObservation { search_expired: true, ..quiet() });
    assert_eq!((s.next, s.effect), (AlertState::Returning, AlertEffect::GiveUp));
}

#[test]
fn returning_enemy_settles_controller_does_not() {
    let home = AlertObservation { reached_spawn: true, ..quiet() };
    assert_eq!(update_alert_state(AlertState::Returning, home).next, AlertState::Unaware);
    assert_eq!(controller_alert_step(AlertState::Returning, home).next, AlertState::Returning);
    let timed_out = AlertObservation { cooldown_expired: true, ..quiet() };
    assert_eq!(update_alert_state(AlertState::Returning, timed_out).next, AlertState::Unaware);
    let seen = AlertObservation { sees_player: true, ..quiet() };
    assert_eq!(controller_alert_step(AlertState::Returning, seen).next, AlertState::Alert);
}

#[test]
fn alarm_spreads_to_unaware_in_range() {
    let mut states = vec![AlertState::Alert, AlertState::Unaware, AlertState::Unaware, AlertState::Searching];
    let alarmed = alert_nearby_enemies(&mut states, &vec![true, true, false, true], 0);
    assert_eq!(alarmed, vec![false, true, false, false]);
    assert_eq!(states, vec![AlertState::Alert, AlertState::Suspicious, AlertState::Unaware, AlertState::Searching]);
    let mut calm = vec![AlertState::Suspicious, AlertState::Unaware];
    assert_eq!(alert_nearby_enemies(&mut calm, &vec![true, true], 0), vec![false, false]);
    assert_eq!(calm[1], AlertState::Unaware);
}

#[test]
fn gunfire_wakes_listeners() {
    assert_eq!(hear_sound(AlertState::Unaware, true), (AlertState::Suspicious, true));
    assert_eq!(hear_sound(AlertState::Suspicious, true), (AlertState::Suspicious, true));
    assert_eq!(hear_sound(AlertState::Alert, true), (AlertState::Alert, false));
    assert_eq!(hear_sound(AlertState::Unaware, false), (AlertState::Unaware, false));
    let mut states = vec![AlertState::Unaware, AlertState::Returning, AlertState::Unaware];
    let inv = CombatSystem::alert_enemies_to_sound(&mut states, &vec![true, true, false]);
    assert_eq!(inv, vec![true, false, false]);
    assert_eq!(states, vec![AlertState::Suspicious, AlertState::Returning, AlertState::Unaware]);
}
