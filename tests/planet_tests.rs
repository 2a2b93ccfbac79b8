use gen_world::composition::Composition;
use gen_world::ordering::sorted_order;
use gen_world::random::ROLL_SPAN;
use gen_world::planet::{mass_bounds, mass_class, HabitabilitySurvey, PlanetType};

fn earth_like() -> HabitabilitySurvey {
    HabitabilitySurvey {
        planet_type: PlanetType::Terrestrial,
        mass_micro_earth: 1_000_000,
        temperature_milli_kelvin: 288_000,
        gravity_micro: 9_810_000,
        pressure_micro_atm: Some(1_000_000),
        rotation_milli_days: 1000,
        distance_micro_au: 1_000_000,
        star_mass_micro_solar: 1_000_000,
    }
}

#[test]
fn classification_follows_mass_and_distance() {
    assert_eq!(PlanetType::classify(1_000_000, 1_000_000), PlanetType::Terrestrial);
    assert_eq!(PlanetType::classify(1_999_999, 3_999_999), PlanetType::Terrestrial);
    assert_eq!(PlanetType::classify(2_000_000, 1_000_000), PlanetType::GasGiant);
    assert_eq!(PlanetType::classify(1_000_000, 4_000_000), PlanetType::IceGiant);
    assert_eq!(PlanetType::classify(30_000_000, 2_000_001), PlanetType::IceGiant);
    assert_eq!(PlanetType::classify(30_000_000, 2_000_000), PlanetType::GasGiant);
    assert_eq!(PlanetType::classify(50_000_000, 9_000_000), PlanetType::GasGiant);
}

#[test]
fn atmospheres_follow_type_and_mass() {
    let a = PlanetType::Terrestrial.atmosphere(1_000_000, 1_000_000).unwrap();
    assert_eq!(a.greenhouse_tenths, 12);
    assert_eq!(a.composition, Composition::new(0, 0, 100, 9900));
    assert_eq!(PlanetType::Terrestrial.atmosphere(1_000_000, 3_000_000).unwrap().greenhouse_tenths, 10);
    assert!(PlanetType::Terrestrial.atmosphere(100_000, 1_000_000).is_none());
    assert!(PlanetType::Terrestrial.atmosphere(5_000_000, 1_000_000).is_none());
    let g = PlanetType::GasGiant.atmosphere(300_000_000, 5_000_000).unwrap();
    assert_eq!(g.greenhouse_tenths, 15);
    assert_eq!(g.composition, PlanetType::GasGiant.composition());
}

#[test]
fn planet_compositions_are_whole() {
    for t in [PlanetType::Terrestrial, PlanetType::GasGiant, PlanetType::IceGiant] {
        let c = t.composition();
        assert_eq!(c.hydrogen + c.helium + c.metallicity + c.other, 10000);
    }
    assert_eq!(PlanetType::IceGiant.composition().other, 5000);
}

#[test]
fn mass_classes_follow_the_distance_bands() {
    let roll = |p: f64| (p * ROLL_SPAN as f64) as u64;
    assert_eq!(mass_class(300_000, roll(0.59)), PlanetType::Terrestrial);
    assert_eq!(mass_class(300_000, roll(0.61)), PlanetType::IceGiant);
    assert_eq!(mass_class(300_000, roll(0.79)), PlanetType::IceGiant);
    assert_eq!(mass_class(300_000, roll(0.81)), PlanetType::GasGiant);
    assert_eq!(mass_class(3_000_000, roll(0.19)), PlanetType::Terrestrial);
    assert_eq!(mass_class(3_000_000, roll(0.59)), PlanetType::IceGiant);
    assert_eq!(mass_class(3_000_000, roll(0.61)), PlanetType::GasGiant);
    assert_eq!(mass_class(7_000_000, roll(0.49)), PlanetType::IceGiant);
    assert_eq!(mass_class(7_000_000, roll(0.51)), PlanetType::GasGiant);
    assert_eq!(mass_class(12_000_000, roll(0.09)), PlanetType::Terrestrial);
    assert_eq!(mass_class(12_000_000, roll(0.39)), PlanetType::IceGiant);
    assert_eq!(mass_class(12_000_000, roll(0.41)), PlanetType::GasGiant);
    assert_eq!(mass_bounds(PlanetType::Terrestrial, 1_000_000), (1, 20));
    assert_eq!(mass_bounds(PlanetType::IceGiant, 1_000_000), (100, 500));
    assert_eq!(mass_bounds(PlanetType::GasGiant, 5_000_000), (500, 10000));
    assert_eq!(mass_bounds(PlanetType::GasGiant, 5_000_001), (1000, 10000));
}

#[test]
fn earth_like_planet_is_habitable() {
    assert!(earth_like().is_habitable());
}

#[test]
fn each_condition_can_spoil_habitability() {
    let cases = [
        HabitabilitySurvey { planet_type: PlanetType::IceGiant, ..earth_like() },
        HabitabilitySurvey { pressure_micro_atm: None, ..earth_like() },
        HabitabilitySurvey { pressure_micro_atm: Some(10_000_001), ..earth_like() },
        HabitabilitySurvey { mass_micro_earth: 5_000_000, ..earth_like() },
        HabitabilitySurvey { temperature_milli_kelvin: 250_000, ..earth_like() },
        HabitabilitySurvey { gravity_micro: 30_000_000, ..earth_like() },
        HabitabilitySurvey { rotation_milli_days: 100_001, ..earth_like() },
        HabitabilitySurvey { distance_micro_au: 949_000, ..earth_like() },
        HabitabilitySurvey { distance_micro_au: 1_371_000, ..earth_like() },
    ];
    for survey in cases.iter() {
        assert!(!survey.is_habitable(), "{:?}", survey);
    }
    assert!(HabitabilitySurvey { distance_micro_au: 950_000, ..earth_like() }.is_habitable());
    assert!(HabitabilitySurvey { distance_micro_au: 1_369_000, ..earth_like() }.is_habitable());
    assert!(HabitabilitySurvey { pressure_micro_atm: Some(100_000), ..earth_like() }.is_habitable());
}

#[test]
fn habitable_band_scales_with_star_mass() {
    let heavy = HabitabilitySurvey { star_mass_micro_solar: 4_000_000, distance_micro_au: 2_000_000, ..earth_like() };
    assert!(heavy.is_habitable());
    let too_close = HabitabilitySurvey { distance_micro_au: 1_000_000, ..heavy };
    assert!(!too_close.is_habitable());
}

#[test]
fn sorted_order_is_stable() {
    assert_eq!(sorted_order(&vec![5, 3, 5, 1]), vec![3, 1, 0, 2]);
    assert_eq!(sorted_order(&vec![]), Vec::<usize>::new());
    assert_eq!(sorted_order(&vec![7, 7, 7]), vec![0, 1, 2]);
    assert_eq!(sorted_order(&vec![9, 8, 7, 6]), vec![3, 2, 1, 0]);
}
