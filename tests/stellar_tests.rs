use gen_world::random::ROLL_SPAN;
use gen_world::stellar::{RadiusLaw, StarProfile, StellarType};
use gen_world::system::{arrange_by_distance, OrbitSlot, SystemPlan};
use gen_world::Generate;

const ALL_TYPES: [StellarType; 17] = [
    StellarType::BrownDwarf,
    StellarType::RedDwarf,
    StellarType::OrangeDwarf,
    StellarType::YellowDwarf,
    StellarType::WhiteDwarf,
    StellarType::BlueDwarf,
    StellarType::BlueGiant,
    StellarType::BlueSupergiant,
    StellarType::RedGiant,
    StellarType::SuperGiant,
    StellarType::HyperGiant,
    StellarType::WhiteDwarfRemnant,
    StellarType::NeutronStar,
    StellarType::BlackHole,
    StellarType::QuarkStar,
    StellarType::PulsarStar,
    StellarType::MagnetarStar,
];

#[test]
fn test_star_type_distribution() {
    const SAMPLE_SIZE: usize = 10000;
    let mut counts = [0usize; 17];
    for _ in 0..SAMPLE_SIZE {
        let star = StarProfile::generate();
        let k = ALL_TYPES.iter().position(|t| *t == star.stellar_type).unwrap();
        counts[k] += 1;
    }
    let expected_frequencies = [
        (StellarType::RedDwarf, 0.50),
        (StellarType::OrangeDwarf, 0.15),
        (StellarType::YellowDwarf, 0.10),
        (StellarType::WhiteDwarf, 0.05),
        (StellarType::BrownDwarf, 0.05),
    ];
    for (star_type, expected_freq) in expected_frequencies.iter() {
        let k = ALL_TYPES.iter().position(|t| t == star_type).unwrap();
        let actual_freq = counts[k] as f64 / SAMPLE_SIZE as f64;
        let tolerance = 0.05;
        assert!(
            (actual_freq - expected_freq).abs() < tolerance,
            "Star type {:?} frequency {:.2} differs from expected {:.2} by more than {:.2}",
            star_type,
            actual_freq,
            expected_freq,
            tolerance
        );
    }
}

/// The first roll at which a uniform unit-interval float of 53 bits reaches `p`.
fn threshold(p: f64) -> u64 {
    (p * ROLL_SPAN as f64).ceil() as u64
}

#[test]
fn roll_bands_have_their_edges() {
    assert_eq!(StellarType::from_roll(0), StellarType::BrownDwarf);
    assert_eq!(StellarType::from_roll(threshold(0.05) - 1), StellarType::BrownDwarf);
    assert_eq!(StellarType::from_roll(threshold(0.05)), StellarType::RedDwarf);
    assert_eq!(StellarType::from_roll(threshold(0.55) - 1), StellarType::RedDwarf);
    assert_eq!(StellarType::from_roll(threshold(0.55)), StellarType::OrangeDwarf);
    assert_eq!(StellarType::from_roll(threshold(0.80) - 1), StellarType::YellowDwarf);
    assert_eq!(StellarType::from_roll(threshold(0.98) - 1), StellarType::NeutronStar);
    assert_eq!(StellarType::from_roll(threshold(0.98)), StellarType::BlackHole);
    assert_eq!(StellarType::from_roll(threshold(0.9975) - 1), StellarType::PulsarStar);
    assert_eq!(StellarType::from_roll(threshold(0.9975)), StellarType::MagnetarStar);
    assert_eq!(StellarType::from_roll(ROLL_SPAN - 1), StellarType::MagnetarStar);
}

#[test]
fn rolls_match_unit_interval_floats() {
    let bounds = [0.05, 0.55, 0.70, 0.80, 0.85, 0.89, 0.91, 0.92, 0.94, 0.95, 0.96, 0.97, 0.98, 0.99, 0.995, 0.9975];
    for roll in (0..ROLL_SPAN).step_by(1_000_000_007) {
        let x = roll as f64 / ROLL_SPAN as f64;
        let k = bounds.iter().position(|b| x < *b).unwrap_or(16);
        assert_eq!(StellarType::from_roll(roll), ALL_TYPES[k]);
    }
}

#[test]
fn compact_stars_cannot_have_planets() {
    for t in ALL_TYPES.iter() {
        let compact = matches!(
            t,
            StellarType::BlackHole
                | StellarType::NeutronStar
                | StellarType::PulsarStar
                | StellarType::MagnetarStar
                | StellarType::QuarkStar
        );
        assert_eq!(t.can_have_planets(), !compact);
        if compact {
            assert_eq!(t.planet_count_range(), (0, 0));
        }
    }
    assert_eq!(StellarType::YellowDwarf.planet_count_range(), (0, 12));
    assert_eq!(StellarType::WhiteDwarfRemnant.planet_count_range(), (0, 2));
}

#[test]
fn type_tables_hold_their_values() {
    assert_eq!(StellarType::YellowDwarf.mass_range(), (80, 120));
    assert_eq!(StellarType::BlackHole.mass_range(), (300, 2000));
    assert_eq!(StellarType::BlackHole.temperature_range(), (0, 0));
    assert_eq!(StellarType::RedDwarf.temperature_range(), (2800, 3500));
    let law = StellarType::BlueGiant.luminosity_law();
    assert_eq!((law.exponent_tenths, law.mantissa, law.exponent_of_ten), (38, 1, 1));
    let law = StellarType::WhiteDwarfRemnant.luminosity_law();
    assert_eq!((law.exponent_tenths, law.mantissa, law.exponent_of_ten), (-30, 1, -4));
    assert_eq!(StellarType::BlackHole.radius_law(), RadiusLaw::EventHorizon);
    assert_eq!(StellarType::SuperGiant.radius_law(), RadiusLaw::Inflated);
    assert_eq!(StellarType::PulsarStar.radius_law(), RadiusLaw::Compressed);
    assert_eq!(StellarType::YellowDwarf.radius_law(), RadiusLaw::Standard);
    assert_eq!(StellarType::RedDwarf.base_orbit(), 50);
    assert_eq!(StellarType::BlueGiant.orbit_spacing(), 20);
    assert_eq!(StellarType::YellowDwarf.orbit_spacing(), 17);
}

#[test]
fn compositions_are_whole() {
    for t in ALL_TYPES.iter() {
        let c = t.composition();
        assert_eq!(c.hydrogen + c.helium + c.metallicity + c.other, 10000);
    }
    let sun = StellarType::YellowDwarf.composition();
    assert_eq!((sun.hydrogen, sun.helium, sun.metallicity, sun.other), (7347, 2483, 169, 1));
    assert_eq!(StellarType::NeutronStar.composition().metallicity, 10000);
    assert_eq!(StellarType::BlackHole.composition().other, 10000);
}

#[test]
fn magnetic_fields_grow_towards_magnetars() {
    let ordinary = StellarType::YellowDwarf.magnetic_field_range();
    let neutron = StellarType::NeutronStar.magnetic_field_range();
    let pulsar = StellarType::PulsarStar.magnetic_field_range();
    let magnetar = StellarType::MagnetarStar.magnetic_field_range();
    assert!(ordinary.1 < neutron.0);
    assert!(neutron.0 < pulsar.0 && neutron.1 < pulsar.1);
    assert!(pulsar.1 < magnetar.0);
}

#[test]
fn star_generation_is_deterministic() {
    for seed in [0u64, 1, 42, 43, 999, u64::MAX] {
        let a = StarProfile::generate_with_seed(seed);
        let b = StarProfile::generate_with_seed(seed);
        assert_eq!(a, b);
        assert_eq!(a.seed, seed);
    }
}

#[test]
fn star_traits_lie_in_their_ranges() {
    for seed in 0..2000u64 {
        let star = StarProfile::generate_with_seed(seed);
        let t = star.stellar_type;
        let (low, high) = t.mass_range();
        assert!(low * 10000 <= star.mass_micro_solar && star.mass_micro_solar < high * 10000);
        let (low, high) = t.temperature_range();
        assert!(low == high && star.temperature_kelvin == low
            || low <= star.temperature_kelvin && star.temperature_kelvin < high);
        let (low, high) = t.rotation_range();
        assert!(low <= star.rotation_milli_days && star.rotation_milli_days < high);
        assert!(100 <= star.age_mega_years && star.age_mega_years < 13800);
        assert_eq!(star.composition, t.composition());
    }
}

#[test]
fn test_system_generation() {
    let system = SystemPlan::generate();
    assert!(system.star.mass_micro_solar > 0);
    if system.star.stellar_type.can_have_planets() {
        let (min, max) = system.star.stellar_type.planet_count_range();
        assert!(system.orbits.len() >= min && system.orbits.len() <= max);
    } else {
        assert!(system.orbits.is_empty());
    }
}

#[test]
fn system_plans_are_deterministic_and_ordered() {
    let mut seen_planets = false;
    for seed in 0..3000u64 {
        let plan = SystemPlan::generate_with_seed(seed);
        let again = SystemPlan::generate_with_seed(seed);
        assert_eq!(plan.star, again.star);
        assert_eq!(plan.orbits, again.orbits);
        if !plan.star.stellar_type.can_have_planets() {
            assert!(plan.orbits.is_empty());
        }
        for pair in plan.orbits.windows(2) {
            assert!(pair[0].distance_micro_au <= pair[1].distance_micro_au);
        }
        let mut indices: Vec<usize> = plan.orbits.iter().map(|o| o.index).collect();
        indices.sort();
        assert_eq!(indices, (0..plan.orbits.len()).collect::<Vec<_>>());
        for orbit in plan.orbits.iter() {
            assert_eq!(orbit.seed, seed.wrapping_add(orbit.index as u64));
            assert!(orbit.angle_micro_rad < 6_283_185);
            assert!(-100_000 <= orbit.height_micro_au && orbit.height_micro_au < 100_000);
        }
        seen_planets |= plan.orbits.len() > 1;
    }
    assert!(seen_planets);
}

#[test]
fn first_orbit_follows_the_base_distance() {
    for seed in 0..500u64 {
        let plan = SystemPlan::generate_with_seed(seed);
        let base = plan.star.stellar_type.base_orbit() * 1000;
        for orbit in plan.orbits.iter().filter(|o| o.index == 0) {
            assert!(base * 800 / 1000 <= orbit.distance_micro_au);
            assert!(orbit.distance_micro_au < base * 1200 / 1000);
        }
    }
}

#[test]
fn orbit_slot_from_its_draws() {
    let slot = OrbitSlot::new(100, StellarType::YellowDwarf, 0, 300_000, 1000, 5, 0);
    assert_eq!(
        slot,
        OrbitSlot { index: 0, seed: 100, distance_micro_au: 300_000, angle_micro_rad: 5, height_micro_au: -100_000 }
    );
    let slot = OrbitSlot::new(u64::MAX, StellarType::YellowDwarf, 1, 510_000, 800, 0, 199_999);
    assert_eq!(slot.seed, 0);
    assert_eq!(slot.distance_micro_au, 408_000);
    assert_eq!(slot.height_micro_au, 99_999);
}

#[test]
fn slots_are_arranged_by_distance() {
    let slot = |index: usize, distance_micro_au: u64| OrbitSlot {
        index,
        seed: index as u64,
        distance_micro_au,
        angle_micro_rad: 0,
        height_micro_au: 0,
    };
    let arranged = arrange_by_distance(&vec![slot(0, 40), slot(1, 30), slot(2, 40), slot(3, 10)]);
    let order: Vec<usize> = arranged.iter().map(|s| s.index).collect();
    assert_eq!(order, vec![3, 1, 0, 2]);
    assert!(arrange_by_distance(&vec![]).is_empty());
}

#[test]
fn star_traits_from_words_are_exact() {
    let star = StarProfile::from_words(5, &vec![0, 0, u64::MAX, 1 << 63, 0, u64::MAX]);
    assert_eq!(star.seed, 5);
    assert_eq!(star.stellar_type, StellarType::BrownDwarf);
    assert_eq!(star.mass_micro_solar, 10_000);
    assert_eq!(star.temperature_kelvin, 2799);
    assert_eq!(star.magnetic_field_micro_tesla, 50_000_100);
    assert_eq!(star.rotation_milli_days, 500);
    assert_eq!(star.age_mega_years, 13799);
    assert_eq!(star.composition, StellarType::BrownDwarf.composition());

    let black_hole_roll: u64 = 8_827_055_269_646_172;
    let hole = StarProfile::from_words(6, &vec![black_hole_roll << 11, u64::MAX, u64::MAX, 0, 0, 0]);
    assert_eq!(hole.stellar_type, StellarType::BlackHole);
    assert_eq!(hole.temperature_kelvin, 0);
    assert_eq!(hole.mass_micro_solar, 19_999_999);
}

#[test]
fn orbits_from_words_are_exact() {
    let mut words = vec![0u64; 37];
    words[0] = u64::MAX;
    let orbits = gen_world::system::plan_orbits(10, StellarType::YellowDwarf, &words, 0);
    let distances: Vec<u64> = orbits.iter().map(|o| o.distance_micro_au).collect();
    assert_eq!(
        distances,
        vec![240000, 408000, 693600, 1179120, 2004504, 3407656, 5793016, 9848127, 16741816, 28461087, 48383848, 82252541]
    );
    for (i, orbit) in orbits.iter().enumerate() {
        assert_eq!(orbit.index, i);
        assert_eq!(orbit.seed, 10 + i as u64);
        assert_eq!(orbit.angle_micro_rad, 0);
        assert_eq!(orbit.height_micro_au, -100_000);
    }
    assert!(gen_world::system::plan_orbits(10, StellarType::NeutronStar, &words, 0).is_empty());
}
