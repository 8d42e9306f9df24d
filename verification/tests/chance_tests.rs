use vector_shooter::base::BaseManager;
use vector_shooter::enemy::{choose_combat_maneuver, CombatRange, EnemyType};
use vector_shooter::spawning::{SpawnBaseType, SpawningSystem};
use vector_shooter::waves::plan_base_spawns;

#[test]
fn group_sizes_cover_their_range() {
    let mut smallest = usize::MAX;
    let mut largest = 0;
    for _ in 0..400 {
        let n = SpawningSystem::get_base_spawns(SpawnBaseType::Fortress, 3).len();
        smallest = smallest.min(n);
        largest = largest.max(n);
    }
    assert_eq!(smallest, 3);
    assert_eq!(largest, 5);
}

#[test]
fn manoeuvres_cover_their_range() {
    let mut seen = [false; 5];
    for _ in 0..400 {
        let m = choose_combat_maneuver(CombatRange::TooClose);
        seen[m as usize] = true;
    }
    assert_eq!(seen, [false, true, true, true, true]);
}

#[test]
fn initial_spawners_mix_both_kinds() {
    let mut basic = 0;
    let mut heavy = 0;
    for _ in 0..50 {
        for k in BaseManager::initial_base_types() {
            match k {
                SpawnBaseType::Basic => basic += 1,
                SpawnBaseType::Heavy => heavy += 1,
                _ => panic!("only basic and heavy spawners start the game"),
            }
        }
    }
    assert!(basic > heavy);
    assert!(heavy > 0);
}

#[test]
fn spawn_orders_draw_every_kind() {
    let kinds = vec![EnemyType::Cube, EnemyType::Pyramid];
    let mut cubes = 0;
    let mut pyramids = 0;
    for _ in 0..100 {
        let (_, orders) = plan_base_spawns(&kinds, 2);
        for o in orders {
            match o.enemy_type {
                EnemyType::Cube => cubes += 1,
                EnemyType::Pyramid => pyramids += 1,
                other => panic!("{:?} was not among the kinds", other),
            }
        }
    }
    assert!(cubes > 0);
    assert!(pyramids > 0);
}
