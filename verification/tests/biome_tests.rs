use vector_shooter::biome::{Biome, BiomeMap};

#[test]
fn biome_order_round_trips() {
    for i in 0..12 {
        assert_eq!(Biome::from_index(i).index(), i);
    }
    assert_eq!(Biome::from_index(0), Biome::Plains);
    assert_eq!(Biome::from_index(11), Biome::Swamp);
}

#[test]
fn biome_noise_and_extra_points() {
    assert_eq!(BiomeMap::noise_permille(42, 2, 3, 7, 13), (42 + 14 + 39) % 1000);
    assert_eq!(BiomeMap::noise_permille(999, 1, 0, 7, 13), 6);
    assert!(BiomeMap::has_extra_point(701));
    assert!(!BiomeMap::has_extra_point(700));
    assert_eq!(BiomeMap::extra_biome(Biome::Plains), Biome::Crystalline);
    assert_eq!(BiomeMap::extra_biome(Biome::Caverns), Biome::Canyon);
}
