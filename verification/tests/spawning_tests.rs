use vector_shooter::base::BaseManager;
use vector_shooter::enemy::EnemyType;
use vector_shooter::spawning::{SpawnBaseType, SpawningSystem};
use vector_shooter::waves::{WaveManager, WavePattern};

#[test]
fn spawner_enemy_tables() {
    assert_eq!(SpawningSystem::enemy_type_for_roll(SpawnBaseType::Basic, 1, 69), EnemyType::Cube);
    assert_eq!(SpawningSystem::enemy_type_for_roll(SpawnBaseType::Basic, 1, 70), EnemyType::Pyramid);
    assert_eq!(SpawningSystem::enemy_type_for_roll(SpawnBaseType::Basic, 4, 75), EnemyType::Spinner);
    assert_eq!(SpawningSystem::enemy_type_for_roll(SpawnBaseType::Basic, 8, 85), EnemyType::Swarm);
    assert_eq!(SpawningSystem::enemy_type_for_roll(SpawnBaseType::Heavy, 2, 50), EnemyType::Spinner);
    assert_eq!(SpawningSystem::enemy_type_for_roll(SpawnBaseType::Heavy, 7, 84), EnemyType::Guardian);
    assert_eq!(SpawningSystem::enemy_type_for_roll(SpawnBaseType::Heavy, 12, 99), EnemyType::Disruptor);
    assert_eq!(SpawningSystem::enemy_type_for_roll(SpawnBaseType::Shielded, 3, 60), EnemyType::Shield);
    assert_eq!(SpawningSystem::enemy_type_for_roll(SpawnBaseType::Shielded, 9, 95), EnemyType::Phaser);
    assert_eq!(SpawningSystem::enemy_type_for_roll(SpawnBaseType::Fortress, 9, 75), EnemyType::Bomber);
    assert_eq!(SpawningSystem::enemy_type_for_roll(SpawnBaseType::Fortress, 10, 60), EnemyType::Carrier);
    assert_eq!(SpawningSystem::enemy_type_for_roll(SpawnBaseType::Fortress, 10, 94), EnemyType::Vortex);
    assert_eq!(SpawningSystem::enemy_type_for_roll(SpawnBaseType::Fortress, 10, 95), EnemyType::Disruptor);
    assert_eq!(SpawningSystem::enemy_type_for_roll(SpawnBaseType::Outpost, 1, 39), EnemyType::Swarm);
    assert_eq!(SpawningSystem::enemy_type_for_roll(SpawnBaseType::Outpost, 1, 90), EnemyType::Spinner);
}

#[test]
fn spawner_groups() {
    for _ in 0..100 {
        let g = SpawningSystem::get_base_spawns(SpawnBaseType::Fortress, 3);
        assert!((3..=5).contains(&g.len()));
        assert!(g.iter().all(|t| matches!(t, EnemyType::Hunter | EnemyType::Laser | EnemyType::Bomber)));
        let b = SpawningSystem::get_base_spawns(SpawnBaseType::Basic, 1);
        assert!((1..=2).contains(&b.len()));
        assert!(b.iter().all(|t| matches!(t, EnemyType::Cube | EnemyType::Pyramid)));
        assert_eq!(SpawningSystem::get_base_spawns(SpawnBaseType::Outpost, 20).len(), 1);
    }
    assert_eq!(SpawningSystem::spawn_from_carrier(), vec![EnemyType::Swarm; 3]);
}

#[test]
fn wave_layouts_and_spawner_kinds() {
    let mut w = WaveManager::new();
    assert_eq!(w.wave_pattern(), WavePattern::Forward);
    w.advance();
    assert_eq!(w.wave_pattern(), WavePattern::Flanking);
    w.advance();
    assert_eq!(w.wave_pattern(), WavePattern::DefensiveLine);
    assert_eq!(w.defensive_line_count(), 3);
    assert_eq!(w.encirclement_count(), 4);
    assert_eq!(w.base_type_for_roll(99), SpawnBaseType::Basic);
    assert_eq!(w.defensive_line_base_type(1, 3), SpawnBaseType::Fortress);
    assert_eq!(w.defensive_line_base_type(0, 3), SpawnBaseType::Basic);
    w.advance();
    assert_eq!(w.wave_pattern(), WavePattern::Encirclement);
    w.advance();
    assert_eq!(w.wave_pattern(), WavePattern::FortressFormation);
    assert_eq!(w.defensive_line_count(), 4);
    assert_eq!(w.base_type_for_roll(69), SpawnBaseType::Basic);
    assert_eq!(w.base_type_for_roll(70), SpawnBaseType::Heavy);
    let late = WaveManager { wave: 20 };
    assert_eq!(late.encirclement_count(), 6);
    assert_eq!(late.base_type_for_roll(95), SpawnBaseType::Outpost);
    assert_eq!(late.base_type_for_roll(85), SpawnBaseType::Fortress);
    let mid = WaveManager { wave: 12 };
    assert_eq!(mid.base_type_for_roll(85), SpawnBaseType::Fortress);
    assert_eq!(mid.base_type_for_roll(79), SpawnBaseType::Shielded);
}

#[test]
fn initial_spawners() {
    for _ in 0..20 {
        let kinds = BaseManager::initial_base_types();
        assert_eq!(kinds.len(), 6);
        assert!(kinds.iter().all(|k| *k == SpawnBaseType::Basic || *k == SpawnBaseType::Heavy));
    }
}
