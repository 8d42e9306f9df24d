use vector_shooter::base::{BaseManager, BaseState, BaseType, BurstAction, GroundTurretState};
use vector_shooter::enemy::EnemyType;

#[test]
fn fresh_bases_by_kind() {
    let small = BaseState::new(BaseType::Small);
    assert_eq!(small.health, 100);
    assert!(small.is_active);
    assert_eq!(small.ground_turrets.len(), 6);
    assert!(small.ground_turrets.iter().all(|t| t.health == 50 && t.is_active && t.burst_count == 0));
    let fortress = BaseState::new(BaseType::Fortress);
    assert_eq!(fortress.health, 500);
    assert_eq!(fortress.ground_turrets.len(), 16);
    assert_eq!(BaseType::Medium.turret_count(), 4);
    assert_eq!(BaseType::Large.ground_turret_count(), 12);
    assert_eq!(BaseType::Large.max_health(), 300);
    assert_eq!(BaseType::Fortress.route_count(), 6);
    assert_eq!(BaseType::Medium.route_count(), 3);
}

#[test]
fn base_falls_after_four_hits() {
    let mut b = BaseState::new(BaseType::Small);
    for _ in 0..3 {
        b.take_damage(25);
        assert!(b.is_active);
    }
    b.take_damage(25);
    assert_eq!(b.health, 0);
    assert!(!b.is_active);
    b.take_damage(-100);
    assert!(!b.is_active, "a destroyed base is never restored");
}

#[test]
fn ground_turret_falls_once() {
    let mut b = BaseState::new(BaseType::Medium);
    assert!(!b.damage_ground_turret(2, 25));
    assert_eq!(b.ground_turrets[2].health, 25);
    assert!(b.damage_ground_turret(2, 25));
    assert!(!b.ground_turrets[2].is_active);
    assert!(!b.damage_ground_turret(2, 25));
    assert_eq!(b.ground_turrets[2].health, 0);
    assert!(!b.damage_ground_turret(99, 25));
    assert!(b.ground_turrets[1].is_active);
}

#[test]
fn burst_fire_cycle() {
    let mut t = GroundTurretState::new();
    assert_eq!(t.burst_step(true, false), BurstAction::Hold);
    assert_eq!(t.burst_step(false, true), BurstAction::Hold);
    assert_eq!(t.burst_step(true, true), BurstAction::StartBurst);
    assert_eq!(t.burst_count, 8);
    for left in (0..8).rev() {
        assert_eq!(t.burst_step(true, false), BurstAction::Fire);
        assert_eq!(t.burst_count, left);
    }
    assert_eq!(t.burst_step(false, true), BurstAction::Hold);
}

#[test]
fn spawn_types_and_readiness() {
    let b = BaseState::new(BaseType::Large);
    assert_eq!(
        b.get_spawn_types(),
        vec![EnemyType::Hunter, EnemyType::Laser, EnemyType::Bomber, EnemyType::Phaser]
    );
    assert!(b.should_spawn(true));
    assert!(!b.should_spawn(false));
    let mut d = BaseState::new(BaseType::Small);
    d.take_damage(100);
    assert!(!d.should_spawn(true));
    assert_eq!(BaseState::new(BaseType::Small).get_spawn_types(), vec![EnemyType::Cube, EnemyType::Pyramid]);
}

#[test]
fn base_manager_bookkeeping() {
    let mut bases = vec![
        BaseState::new(BaseType::Small),
        BaseState::new(BaseType::Medium),
        BaseState::new(BaseType::Small),
    ];
    assert!(!BaseManager::all_bases_destroyed(&bases));
    assert_eq!(BaseManager::get_bases_ready_to_spawn(&bases, &vec![true, false, true]), vec![0, 2]);
    bases[0].take_damage(100);
    assert_eq!(BaseManager::get_bases_ready_to_spawn(&bases, &vec![true, true, true]), vec![1, 2]);
    assert_eq!(BaseManager::destroyed_bases(&bases), vec![0]);
    bases[1].take_damage(200);
    bases[2].take_damage(500);
    assert!(BaseManager::all_bases_destroyed(&bases));
    assert!(BaseManager::all_bases_destroyed(&Vec::new()));
}

#[test]
fn destroyed_bases_are_removed_once() {
    let mut bases = vec![
        BaseState::new(BaseType::Small),
        BaseState::new(BaseType::Medium),
        BaseState::new(BaseType::Large),
        BaseState::new(BaseType::Fortress),
    ];
    bases[0].take_damage(100);
    bases[2].take_damage(300);
    BaseManager::remove_destroyed_bases(&mut bases);
    let kinds: Vec<BaseType> = bases.iter().map(|b| b.base_type).collect();
    assert_eq!(kinds, vec![BaseType::Medium, BaseType::Fortress]);
    assert!(!BaseManager::all_bases_destroyed(&bases));
    BaseManager::remove_destroyed_bases(&mut bases);
    assert_eq!(bases.len(), 2);
    bases[0].take_damage(200);
    bases[1].take_damage(500);
    BaseManager::remove_destroyed_bases(&mut bases);
    assert!(bases.is_empty());
    assert!(BaseManager::all_bases_destroyed(&bases));
}
