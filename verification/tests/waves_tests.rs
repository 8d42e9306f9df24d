use vector_shooter::base::BaseType;
use vector_shooter::enemy::EnemyType;
use vector_shooter::waves::{
    new_base_count, plan_base_spawns, plan_wave_bases, wave_base_type, wave_interval_secs, WaveManager,
};

#[test]
fn wave_intervals() {
    assert_eq!(wave_interval_secs(1), 38);
    assert_eq!(wave_interval_secs(2), 36);
    assert_eq!(wave_interval_secs(9), 22);
    assert_eq!(wave_interval_secs(10), 20);
    assert_eq!(wave_interval_secs(500), 20);
    let mut w = WaveManager::new();
    assert_eq!(w.wave, 1);
    assert_eq!(w.advance(), 36);
    assert_eq!(w.wave, 2);
}

#[test]
fn bases_per_wave() {
    assert_eq!(new_base_count(1), 1);
    assert_eq!(new_base_count(3), 1);
    assert_eq!(new_base_count(4), 2);
    assert_eq!(new_base_count(6), 2);
    assert_eq!(new_base_count(7), 3);
    assert_eq!(new_base_count(100), 3);
}

#[test]
fn base_kinds_per_wave() {
    assert_eq!(wave_base_type(2, true), BaseType::Small);
    assert_eq!(wave_base_type(5, true), BaseType::Medium);
    assert_eq!(wave_base_type(9, true), BaseType::Large);
    assert_eq!(wave_base_type(12, true), BaseType::Fortress);
    assert_eq!(wave_base_type(12, false), BaseType::Large);
    assert_eq!(plan_wave_bases(2), vec![BaseType::Small]);
    assert_eq!(plan_wave_bases(5), vec![BaseType::Medium, BaseType::Medium]);
    for _ in 0..50 {
        let kinds = plan_wave_bases(15);
        assert_eq!(kinds.len(), 3);
        assert!(kinds.iter().all(|k| *k == BaseType::Large || *k == BaseType::Fortress));
    }
}

#[test]
fn base_spawn_groups() {
    let kinds = vec![EnemyType::Cube, EnemyType::Pyramid];
    for _ in 0..100 {
        let (count, orders) = plan_base_spawns(&kinds, 3);
        assert!((2..=4).contains(&count));
        assert_eq!(orders.len(), count);
        for (i, o) in orders.iter().enumerate() {
            assert_eq!(o.slot, i);
            assert_eq!(o.route, i % 3);
            assert!(kinds.contains(&o.enemy_type));
        }
    }
    let (count, orders) = plan_base_spawns(&Vec::new(), 2);
    assert!((2..=4).contains(&count));
    assert!(orders.is_empty());
    let (count, orders) = plan_base_spawns(&Vec::new(), 0);
    assert!((2..=4).contains(&count));
    assert!(orders.is_empty());
}
