use gen_world::small_bodies::{
    adjusted, body_seed, small_body_density, ElementDistribution, SmallBodyProfile, SmallBodyType, PARTS_PER_BILLION,
};
use gen_world::stellar::StellarType;

/// Micrometres in one AU, the unit of small-body positions.
const AU: f64 = 1.496e17;

fn quantize(metres: f64) -> i64 {
    (metres * 1e6) as i64
}

fn total(e: &ElementDistribution) -> u64 {
    e.iron + e.nickel + e.gold + e.platinum + e.rare_earth + e.water_ice + e.methane_ice + e.silicates + e.carbon
}

#[test]
fn small_bodies_test_deterministic_generation() {
    let body1 = SmallBodyProfile::at_position(42, quantize(1.0), quantize(2.0), quantize(3.0), StellarType::YellowDwarf);
    let body2 = SmallBodyProfile::at_position(42, quantize(1.0), quantize(2.0), quantize(3.0), StellarType::YellowDwarf);
    let body3 = SmallBodyProfile::at_position(42, quantize(1.1), quantize(2.0), quantize(3.0), StellarType::YellowDwarf);

    assert_eq!(body1.body_type, body2.body_type);
    assert_eq!(body1, body2);

    assert_ne!(body1.body_type, body3.body_type);
}

#[test]
fn test_element_distribution() {
    let body = SmallBodyProfile::at_position(42, quantize(2.0), 0, 0, StellarType::NeutronStar);

    let sum = total(&body.elements) as f64 / PARTS_PER_BILLION as f64;
    assert!((sum - 1.0).abs() < 0.01);

    // parts per billion: 1e-7 is a hundred parts
    assert!(body.elements.gold > 100);
    assert!(body.elements.platinum > 100);
}

#[test]
fn test_distance_based_types() {
    let inner_body = SmallBodyProfile::at_position(42, quantize(1.496e11), 0, 0, StellarType::YellowDwarf);
    assert!(matches!(inner_body.body_type, SmallBodyType::RockyAsteroid | SmallBodyType::MetallicAsteroid));

    let outer_body =
        SmallBodyProfile::at_position(42, quantize(30.0 * 1.496e11), 0, 0, StellarType::YellowDwarf);
    assert!(matches!(outer_body.body_type, SmallBodyType::KuiperBeltObject | SmallBodyType::LongPeriodComet));
}

#[test]
fn small_body_generation_test_density_distribution() {
    let main_belt_density = small_body_density(2_700_000);
    let sparse_density = small_body_density(10_000_000);
    assert!(main_belt_density > sparse_density);

    let kuiper_density = small_body_density(45_000_000);
    assert!(kuiper_density > sparse_density);
    assert!(kuiper_density < main_belt_density);
}

#[test]
fn small_body_tests_test_density_distribution() {
    let main_belt_density = small_body_density(2_700_000);
    let sparse_density = small_body_density(10_000_000);
    assert!(main_belt_density > sparse_density);

    let kuiper_density = small_body_density(45_000_000);
    assert!(kuiper_density > sparse_density);
    assert!(kuiper_density < main_belt_density);
}

#[test]
fn density_table_values() {
    assert_eq!(small_body_density(1_800_000), 500);
    assert_eq!(small_body_density(2_200_000), 500);
    assert_eq!(small_body_density(2_200_001), 1000);
    assert_eq!(small_body_density(3_200_000), 1000);
    assert_eq!(small_body_density(45_000_000), 10);
    assert_eq!(small_body_density(60_000_000), 50);
    assert_eq!(small_body_density(100_000_001), 1);
    assert_eq!(small_body_density(0), 1);
}

#[test]
fn body_seed_mixes_the_position() {
    assert_eq!(body_seed(42, 1_000_000, 2_000_000, 3_000_000), 144957827844522);
    assert_eq!(body_seed(42, -1_000_000, 2_000_000, 3_000_000), 18446599115881707050);
    assert_eq!(body_seed(7, 0, 0, 0), 7);
    assert_eq!(body_seed(u64::MAX, 1, 0, 0), 73856092);
}

#[test]
fn normalization_is_exact() {
    let even = ElementDistribution {
        iron: 1,
        nickel: 1,
        gold: 1,
        platinum: 1,
        rare_earth: 1,
        water_ice: 1,
        methane_ice: 1,
        silicates: 1,
        carbon: 1,
    };
    let r = even.normalized();
    assert_eq!(r.iron, 111_111_111);
    assert_eq!(r.silicates, 111_111_111);
    assert_eq!(r.carbon, 111_111_112);
    assert_eq!(total(&r), PARTS_PER_BILLION);

    let skewed = ElementDistribution {
        iron: 3,
        nickel: 0,
        gold: 0,
        platinum: 0,
        rare_earth: 0,
        water_ice: 0,
        methane_ice: 0,
        silicates: 0,
        carbon: 1,
    };
    let r = skewed.normalized();
    assert_eq!(r.iron, 750_000_000);
    assert_eq!(r.nickel, 0);
    assert_eq!(r.carbon, 250_000_000);
}

#[test]
fn generated_bodies_are_normalized_and_in_range() {
    let hosts = [StellarType::YellowDwarf, StellarType::NeutronStar, StellarType::RedGiant, StellarType::BlackHole];
    for k in 0..400i64 {
        let x = k * 37 * 149_600_000_000_000 / 10;
        let y = -k * 11 * 149_600_000_000_000;
        let host = hosts[(k % 4) as usize];
        let body = SmallBodyProfile::at_position(9, x, y, 5, host);
        assert_eq!(total(&body.elements), PARTS_PER_BILLION);
        assert_eq!(body.seed, body_seed(9, x, y, 5));
        let (low, high) = body.body_type.density_range();
        assert!(low <= body.density_kg_m3 && body.density_kg_m3 < high);
        assert!(100 <= body.rotation_milli_hours && body.rotation_milli_hours < 100_000);
    }
}

#[test]
fn bands_follow_the_distance() {
    for k in 0..200i64 {
        let near = SmallBodyProfile::at_position(k as u64, quantize(1.9 * 1.496e11), 0, 0, StellarType::RedDwarf);
        assert!(matches!(near.body_type, SmallBodyType::RockyAsteroid | SmallBodyType::MetallicAsteroid));
        let belt = SmallBodyProfile::at_position(k as u64, 0, quantize(4.0 * 1.496e11), 0, StellarType::RedDwarf);
        assert!(matches!(
            belt.body_type,
            SmallBodyType::RockyAsteroid | SmallBodyType::MetallicAsteroid | SmallBodyType::IcyAsteroid
        ));
        let outer = SmallBodyProfile::at_position(k as u64, 0, 0, quantize(-20.0 * 1.496e11), StellarType::RedDwarf);
        assert!(matches!(
            outer.body_type,
            SmallBodyType::IcyAsteroid | SmallBodyType::Centaur | SmallBodyType::ShortPeriodComet
        ));
    }
    assert!(AU > 0.0);
}

#[test]
fn ices_are_depleted_near_giants() {
    let x = quantize(3.0 * 1.496e11);
    for seed in 0..200u64 {
        let body = SmallBodyProfile::at_position(seed, x, 0, 0, StellarType::SuperGiant);
        if body.body_type == SmallBodyType::IcyAsteroid {
            // undepleted water ice is at least 0.3 of a total of at most 1.8
            assert!(body.elements.water_ice < 600_000_000);
        }
    }
}

#[test]
fn mass_decades_and_densities() {
    assert_eq!(SmallBodyType::KuiperBeltObject.mass_decades(), (18, 22));
    assert_eq!(SmallBodyType::ShortPeriodComet.mass_decades(), (12, 15));
    assert_eq!(SmallBodyType::MetallicAsteroid.density_range(), (4500, 8000));
    let (low, high) = SmallBodyType::RockyAsteroid.element_ranges();
    assert_eq!((low.silicates, high.silicates), (600_000_000, 800_000_000));
    assert_eq!((low.water_ice, high.water_ice), (0, 0));
}

#[test]
fn host_stars_adjust_the_abundances() {
    let e = ElementDistribution {
        iron: 101,
        nickel: 10,
        gold: 3,
        platinum: 4,
        rare_earth: 5,
        water_ice: 61,
        methane_ice: 7,
        silicates: 8,
        carbon: 9,
    };
    let n = adjusted(e, StellarType::NeutronStar, false);
    assert_eq!((n.iron, n.nickel, n.gold, n.platinum, n.rare_earth), (151, 15, 6, 8, 10));
    assert_eq!((n.water_ice, n.methane_ice, n.silicates, n.carbon), (61, 7, 8, 9));
    let g = adjusted(e, StellarType::RedGiant, true);
    assert_eq!((g.water_ice, g.methane_ice, g.iron), (30, 3, 101));
    assert_eq!(adjusted(e, StellarType::HyperGiant, false), e);
    assert_eq!(adjusted(e, StellarType::YellowDwarf, true), e);
}

#[test]
fn body_traits_from_words_are_exact() {
    let body = SmallBodyProfile::from_words(1, 1_000_000, 0, 0, StellarType::YellowDwarf, &vec![0u64; 13]);
    assert_eq!(body.body_type, SmallBodyType::RockyAsteroid);
    let e = body.elements;
    assert_eq!(
        (e.iron, e.nickel, e.gold, e.platinum, e.rare_earth, e.water_ice, e.methane_ice, e.silicates, e.carbon),
        (131_577_181, 13_157_718, 131, 131, 13_157, 0, 0, 789_463_088, 65_788_594)
    );
    assert_eq!(total(&e), PARTS_PER_BILLION);
    assert_eq!(body.density_kg_m3, 2500);
    assert_eq!(body.rotation_milli_hours, 100);
    assert_eq!(body.mass_roll, 0);

    let mut words = vec![0u64; 13];
    words[0] = u64::MAX;
    let metallic = SmallBodyProfile::from_words(1, 1_000_000, 0, 0, StellarType::YellowDwarf, &words);
    assert_eq!(metallic.body_type, SmallBodyType::MetallicAsteroid);
}

#[test]
fn bodies_depend_on_position_alone() {
    let a = SmallBodyProfile::at_position(77, 5_000_000, -3, 12, StellarType::RedDwarf);
    let _other = SmallBodyProfile::at_position(77, 9, 9, 9, StellarType::RedDwarf);
    let b = SmallBodyProfile::at_position(77, 5_000_000, -3, 12, StellarType::RedDwarf);
    assert_eq!(a, b);
}
