use vector_shooter::enemy::EnemyType;
use vector_shooter::sound::{
    laser_allowed, laser_type_for, select_music_state, update_thruster, EnemyProximity, LaserType, MusicState,
    SoundDistance,
};

fn enemy(is_alert: bool, combat: bool, suspense: bool) -> EnemyProximity {
    EnemyProximity { is_alert, within_combat_range: combat, within_suspense_range: suspense }
}

#[test]
fn music_follows_the_threat() {
    assert_eq!(select_music_state(&vec![]), MusicState::Peaceful);
    assert_eq!(select_music_state(&vec![enemy(false, false, false)]), MusicState::Peaceful);
    assert_eq!(select_music_state(&vec![enemy(false, true, true)]), MusicState::Suspense);
    assert_eq!(select_music_state(&vec![enemy(true, false, true), enemy(false, false, false)]), MusicState::Suspense);
    assert_eq!(select_music_state(&vec![enemy(false, false, true), enemy(true, true, true)]), MusicState::Combat);
}

#[test]
fn laser_sounds_by_kind() {
    assert_eq!(laser_type_for(EnemyType::Vortex), LaserType::EnemyPulse);
    assert_eq!(laser_type_for(EnemyType::Swarm), LaserType::EnemyPulse);
    assert_eq!(laser_type_for(EnemyType::Guardian), LaserType::EnemyBeam);
    assert_eq!(laser_type_for(EnemyType::Carrier), LaserType::EnemyBeam);
    assert_eq!(laser_type_for(EnemyType::Reflector), LaserType::EnemyPlasma);
    assert_eq!(laser_type_for(EnemyType::Hunter), LaserType::EnemyPulse);
}

#[test]
fn laser_sound_limiting() {
    assert!(laser_allowed(SoundDistance::Near, true, 100, 0));
    assert!(laser_allowed(SoundDistance::Unknown, true, 100, 0));
    assert!(!laser_allowed(SoundDistance::Far, false, 0, 1000));
    assert!(laser_allowed(SoundDistance::Mid, false, 4, 30));
    assert!(!laser_allowed(SoundDistance::Mid, false, 5, 100));
    assert!(!laser_allowed(SoundDistance::Mid, false, 0, 29));
    assert!(!laser_allowed(SoundDistance::Mid, true, 2, 100));
    assert!(laser_allowed(SoundDistance::Mid, true, 1, 100));
}

#[test]
fn thruster_switch() {
    let mut playing = false;
    assert!(update_thruster(&mut playing, true));
    assert!(playing);
    assert!(!update_thruster(&mut playing, true));
    assert!(update_thruster(&mut playing, false));
    assert!(!playing);
}
