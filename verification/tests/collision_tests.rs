use vector_shooter::base::{BaseState, BaseType};
use vector_shooter::collision::{BaseContacts, CollisionSystem, EnemyContacts, TurretHit};
use vector_shooter::enemy::EnemyType;

fn player(bases: Vec<usize>, turrets: Vec<(usize, usize)>) -> BaseContacts {
    BaseContacts { is_player: true, bases, turrets }
}

#[test]
fn four_bullets_bring_down_a_small_base() {
    let mut bases = vec![BaseState::new(BaseType::Small)];
    let contacts: Vec<BaseContacts> = (0..5).map(|_| player(vec![0], vec![(0, 1)])).collect();
    let mut score = 0u32;
    let (removed, hits) = CollisionSystem::check_bullet_base_collisions(&contacts, &mut bases, &mut score);
    assert!(!bases[0].is_active);
    assert_eq!(score, 500);
    assert_eq!(removed, vec![0, 1, 2, 3]);
    assert!(hits.is_empty(), "turrets of a destroyed base are not struck");
}

#[test]
fn bullet_hits_first_standing_base_then_turret() {
    let mut bases = vec![BaseState::new(BaseType::Small), BaseState::new(BaseType::Medium)];
    bases[0].take_damage(100);
    let contacts = vec![
        player(vec![0, 1], vec![]),
        BaseContacts { is_player: false, bases: vec![1], turrets: vec![(1, 0)] },
        player(vec![0], vec![(0, 2), (1, 3)]),
        player(vec![], vec![]),
    ];
    let mut score = 7u32;
    let (removed, hits) = CollisionSystem::check_bullet_base_collisions(&contacts, &mut bases, &mut score);
    assert_eq!(bases[1].health, 175);
    assert_eq!(bases[0].health, 0);
    assert!(!bases[0].is_active);
    assert_eq!(score, 7);
    assert_eq!(removed, vec![0, 2]);
    assert_eq!(hits, vec![TurretHit { bullet: 2, base: 1, turret: 3 }]);
}

#[test]
fn turret_hits_score_on_the_second_strike() {
    let mut bases = vec![BaseState::new(BaseType::Small)];
    let hits = vec![
        TurretHit { bullet: 0, base: 0, turret: 4 },
        TurretHit { bullet: 1, base: 0, turret: 4 },
        TurretHit { bullet: 2, base: 0, turret: 4 },
        TurretHit { bullet: 3, base: 0, turret: 40 },
    ];
    let mut score = 0u32;
    let fell = CollisionSystem::process_turret_hits(&hits, &mut bases, &mut score);
    assert_eq!(fell, vec![false, true, false, false]);
    assert_eq!(score, 100);
    assert!(!bases[0].ground_turrets[4].is_active);
}

#[test]
fn enemy_scores() {
    let all = [
        (EnemyType::Cube, 10),
        (EnemyType::Pyramid, 20),
        (EnemyType::Spinner, 30),
        (EnemyType::Hunter, 40),
        (EnemyType::Guardian, 50),
        (EnemyType::Laser, 60),
        (EnemyType::Swarm, 5),
        (EnemyType::Phaser, 80),
        (EnemyType::Shield, 100),
        (EnemyType::Bomber, 70),
        (EnemyType::Disruptor, 60),
        (EnemyType::Carrier, 150),
        (EnemyType::Reflector, 90),
        (EnemyType::Vortex, 120),
    ];
    for (t, points) in all {
        assert_eq!(CollisionSystem::get_enemy_score(t), points);
    }
}

#[test]
fn sweeping_bullet_takes_down_every_enemy_in_range() {
    let types = vec![EnemyType::Cube, EnemyType::Carrier, EnemyType::Swarm];
    let contacts = vec![
        EnemyContacts { is_player: true, enemies: vec![0, 1] },
        EnemyContacts { is_player: false, enemies: vec![2] },
        EnemyContacts { is_player: true, enemies: vec![1] },
    ];
    let mut score = 1u32;
    let (bullets, enemies) = CollisionSystem::check_bullet_enemy_sweep(&contacts, &types, &mut score);
    assert_eq!(score, 1 + 10 + 150 + 150);
    assert_eq!(bullets, vec![0, 0, 2]);
    assert_eq!(enemies, vec![0, 1, 1]);
}

#[test]
fn shielded_enemies_survive() {
    let mut to_remove = vec![3, 0, 2, 0];
    CollisionSystem::retain_unshielded(&mut to_remove, &vec![true, false, false, false]);
    assert_eq!(to_remove, vec![3, 2]);
}

#[test]
fn collided_entities_leave_their_lists() {
    let mut bullets = vec!['a', 'b', 'c', 'd'];
    let mut enemies = vec![10, 11, 12];
    let mut mines = vec![1.5f32, 2.5];
    CollisionSystem::remove_collided(
        &mut bullets,
        &mut enemies,
        &mut mines,
        &vec![3, 1, 3],
        vec![0, 2, 0],
        &vec![1],
        &vec![false, false, true],
    );
    assert_eq!(bullets, vec!['a', 'c']);
    assert_eq!(enemies, vec![11, 12]);
    assert_eq!(mines, vec![1.5]);
}

#[test]
fn a_frame_scores_within_its_bound() {
    let mut bases = vec![BaseState::new(BaseType::Small), BaseState::new(BaseType::Small)];
    bases[0].take_damage(75);
    bases[1].take_damage(75);
    let contacts = vec![player(vec![0], vec![]), player(vec![1], vec![])];
    let mut score = 40u32;
    CollisionSystem::check_bullet_base_collisions(&contacts, &mut bases, &mut score);
    assert_eq!(score, 40 + 500 * 2);

    let kinds = vec![EnemyType::Carrier, EnemyType::Carrier, EnemyType::Swarm];
    let enemy_contacts = vec![EnemyContacts { is_player: true, enemies: vec![0, 1, 2] }];
    let mut score = 0u32;
    CollisionSystem::check_bullet_enemy_sweep(&enemy_contacts, &kinds, &mut score);
    assert_eq!(score, 305);
    assert!(score <= 150 * 3);
}

#[test]
fn bullet_takes_down_the_first_enemy_in_range() {
    let types = vec![EnemyType::Cube, EnemyType::Cube];
    let contacts = vec![EnemyContacts { is_player: true, enemies: vec![0, 1] }];
    let mut score = 0u32;
    let (bullets, enemies) = CollisionSystem::check_bullet_enemy_collisions(&contacts, &types, &mut score);
    assert_eq!(bullets, vec![0]);
    assert_eq!(enemies, vec![0]);
    assert_eq!(score, 10);
}

#[test]
fn one_enemy_per_bullet_in_order() {
    let types = vec![EnemyType::Cube, EnemyType::Carrier, EnemyType::Swarm];
    let contacts = vec![
        EnemyContacts { is_player: true, enemies: vec![1, 2] },
        EnemyContacts { is_player: false, enemies: vec![2] },
        EnemyContacts { is_player: true, enemies: vec![] },
        EnemyContacts { is_player: true, enemies: vec![2, 0] },
    ];
    let mut score = 3u32;
    let (bullets, enemies) = CollisionSystem::check_bullet_enemy_collisions(&contacts, &types, &mut score);
    assert_eq!(bullets, vec![0, 3]);
    assert_eq!(enemies, vec![1, 2]);
    assert_eq!(score, 3 + 150 + 5);
}
