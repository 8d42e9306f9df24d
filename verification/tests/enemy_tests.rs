use vector_shooter::enemy::{
    bomber_lay_mine, choose_combat_maneuver, effective_pattern, ready_to_attack, AlertState, CombatRange,
    EnemyFactory, EnemyType, FormationShape, FormationSide, LaserAction, LaserObservation, MovementPattern,
    PatrolState, laser_step,
};

#[test]
fn kinds_table() {
    assert_eq!(EnemyType::Cube.movement_pattern(), MovementPattern::Hover);
    assert_eq!(EnemyType::Pyramid.movement_pattern(), MovementPattern::Diving);
    assert_eq!(EnemyType::Guardian.movement_pattern(), MovementPattern::Patrol);
    assert_eq!(EnemyType::Phaser.movement_pattern(), MovementPattern::Teleport);
    assert_eq!(EnemyType::Vortex.movement_pattern(), MovementPattern::Stationary);
    assert_eq!(EnemyType::Carrier.movement_pattern(), MovementPattern::Drifting);
    assert!(EnemyType::Hunter.can_attack());
    assert!(!EnemyType::Laser.can_attack());
    assert_eq!(EnemyType::Bomber.initial_mines(), 5);
    assert_eq!(EnemyType::Carrier.initial_mines(), 0);
    assert_eq!(EnemyType::Hunter.patrol_waypoint_count(), 8);
    assert_eq!(EnemyType::Guardian.patrol_waypoint_count(), 6);
    assert_eq!(EnemyType::Swarm.patrol_waypoint_count(), 4);
    assert!(EnemyType::Shield.get_shield_active());
    assert!(!EnemyType::Cube.get_shield_active());
    assert!(EnemyType::Reflector.is_reflecting());
    assert!(!EnemyType::Vortex.is_reflecting());
}

#[test]
fn awareness_overrides_pattern() {
    assert_eq!(effective_pattern(AlertState::Alert, MovementPattern::Patrol), MovementPattern::Tracking);
    assert_eq!(effective_pattern(AlertState::Searching, MovementPattern::Orbital), MovementPattern::Hover);
    assert_eq!(effective_pattern(AlertState::Suspicious, MovementPattern::Diving), MovementPattern::Hover);
    assert_eq!(effective_pattern(AlertState::Unaware, MovementPattern::Diving), MovementPattern::Diving);
    assert_eq!(effective_pattern(AlertState::Returning, MovementPattern::Flocking), MovementPattern::Flocking);
}

#[test]
fn patrol_walks_then_tracks() {
    let mut p = PatrolState::set_patrol_route();
    assert!(p.patrol_step(3, false, false));
    assert_eq!(p.current_waypoint, 0);
    assert!(!p.patrol_step(3, true, false));
    assert_eq!(p.current_waypoint, 1);
    assert_eq!(p.movement_pattern, MovementPattern::Patrol);
    p.patrol_step(3, true, false);
    p.patrol_step(3, true, false);
    assert_eq!(p.current_waypoint, 3);
    assert_eq!(p.movement_pattern, MovementPattern::Tracking);
}

#[test]
fn patrol_engaged_or_empty_tracks() {
    let mut p = PatrolState::set_patrol_route();
    p.patrol_step(4, false, true);
    assert_eq!(p.movement_pattern, MovementPattern::Tracking);
    let mut q = PatrolState::set_patrol_route();
    assert!(!q.patrol_step(0, true, false));
    assert_eq!(q.movement_pattern, MovementPattern::Tracking);
    assert_eq!(q.current_waypoint, 0);
}

#[test]
fn stuck_patrol_skips_waypoint() {
    let mut p = PatrolState { movement_pattern: MovementPattern::Patrol, current_waypoint: 3 };
    assert!(p.recover_from_stuck(4));
    assert_eq!(p.current_waypoint, 0);
    let mut h = PatrolState { movement_pattern: MovementPattern::Hover, current_waypoint: 2 };
    assert!(!h.recover_from_stuck(0));
    assert_eq!(h.current_waypoint, 2);
}

#[test]
fn bomber_runs_out_of_mines() {
    let mut mines = EnemyType::Bomber.initial_mines();
    assert!(!bomber_lay_mine(&mut mines, true, false));
    assert!(!bomber_lay_mine(&mut mines, false, true));
    let mut laid = 0;
    for _ in 0..10 {
        if bomber_lay_mine(&mut mines, true, true) {
            laid += 1;
        }
    }
    assert_eq!(laid, 5);
    assert_eq!(mines, 0);
}

#[test]
fn combat_manoeuvres_by_range() {
    for _ in 0..200 {
        assert_eq!(choose_combat_maneuver(CombatRange::Point), 5);
        assert_eq!(choose_combat_maneuver(CombatRange::TooFar), 0);
        let m = choose_combat_maneuver(CombatRange::TooClose);
        assert!((1..=4).contains(&m));
        let g = choose_combat_maneuver(CombatRange::Good);
        assert!((0..=3).contains(&g));
    }
}

#[test]
fn attack_readiness() {
    assert!(ready_to_attack(AlertState::Alert, EnemyType::Pyramid, true));
    assert!(!ready_to_attack(AlertState::Alert, EnemyType::Pyramid, false));
    assert!(!ready_to_attack(AlertState::Searching, EnemyType::Hunter, true));
    assert!(!ready_to_attack(AlertState::Alert, EnemyType::Cube, true));
}

#[test]
fn v_formation_places() {
    let five = vec![EnemyType::Hunter, EnemyType::Cube, EnemyType::Pyramid, EnemyType::Swarm, EnemyType::Laser];
    let slots = EnemyFactory::v_formation_slots(&five);
    assert_eq!(slots.len(), 5);
    assert_eq!(slots[0].side, FormationSide::Leader);
    assert_eq!(slots[0].enemy_type, EnemyType::Hunter);
    assert_eq!((slots[1].side, slots[1].rank, slots[1].enemy_type), (FormationSide::Left, 1, EnemyType::Cube));
    assert_eq!((slots[2].side, slots[2].rank, slots[2].enemy_type), (FormationSide::Right, 1, EnemyType::Pyramid));
    assert_eq!((slots[4].side, slots[4].rank), (FormationSide::Right, 2));
    let four = vec![EnemyType::Hunter, EnemyType::Cube, EnemyType::Pyramid, EnemyType::Swarm];
    assert_eq!(EnemyFactory::v_formation_slots(&four).len(), 3);
    assert_eq!(EnemyFactory::v_formation_slots(&vec![EnemyType::Vortex]).len(), 1);
}

#[test]
fn formation_places_by_shape() {
    let kinds = vec![
        EnemyType::Cube,
        EnemyType::Pyramid,
        EnemyType::Hunter,
        EnemyType::Swarm,
        EnemyType::Laser,
    ];
    let line = EnemyFactory::formation_places(&kinds, FormationShape::Line);
    assert_eq!(line.len(), 5);
    assert_eq!(line[4], (EnemyType::Laser, 4));
    let circle = EnemyFactory::formation_places(&kinds, FormationShape::Circle);
    assert_eq!(circle, line);
    let diamond = EnemyFactory::formation_places(&kinds, FormationShape::Diamond);
    assert_eq!(
        diamond,
        vec![(EnemyType::Cube, 0), (EnemyType::Pyramid, 1), (EnemyType::Hunter, 2), (EnemyType::Swarm, 3)]
    );
    let pair = EnemyFactory::formation_places(&kinds[..2].to_vec(), FormationShape::Diamond);
    assert_eq!(pair.len(), 2);
}

#[test]
fn laser_beam_cycle() {
    let ready = LaserObservation { player_in_range: true, cooldown_expired: true, sweep_done: false, fires: true };
    assert_eq!(laser_step(false, ready), LaserAction::Start);
    assert_eq!(laser_step(false, LaserObservation { fires: false, ..ready }), LaserAction::Hold);
    assert_eq!(laser_step(false, LaserObservation { cooldown_expired: false, ..ready }), LaserAction::Hold);
    assert_eq!(laser_step(false, LaserObservation { player_in_range: false, ..ready }), LaserAction::Hold);
    assert_eq!(laser_step(true, ready), LaserAction::Hold);
    assert_eq!(laser_step(true, LaserObservation { sweep_done: true, ..ready }), LaserAction::Stop);
    assert_eq!(laser_step(false, LaserObservation { sweep_done: true, ..ready }), LaserAction::Start);
}
