//! Planet classification, atmospheres, the distance-banded mass classes and
//! the habitability test, in exact integer units.

use vstd::prelude::*;

use crate::composition::Composition;
use crate::random::ROLL_SPAN;

verus! {

/// Millionths in one unit: masses are in millionths of an Earth mass and
/// distances in millionths of an AU.
pub const MICRO: u64 = 1_000_000;

#[derive(Clone, Copy, Debug, PartialEq, Eq, Hash, Structural)]
pub enum PlanetType {
    Terrestrial,
    GasGiant,
    IceGiant,
}

/// The type of a planet of `mass` (millionths of an Earth mass) at
/// `distance` (millionths of an AU): terrestrial if lighter than two Earth
/// masses and closer than 4 AU; an ice giant if lighter than fifty Earth
/// masses and farther than 2 AU; a gas giant otherwise.
pub open spec fn type_of(mass: nat, distance: nat) -> PlanetType {
    if mass < 2 * MICRO && distance < 4 * MICRO {
        PlanetType::Terrestrial
    } else if mass < 50 * MICRO && distance > 2 * MICRO {
        PlanetType::IceGiant
    } else {
        PlanetType::GasGiant
    }
}

/// An atmosphere: its greenhouse multiplier, in tenths, and its composition.
#[derive(Clone, Copy, Debug, PartialEq, Eq, Structural)]
pub struct AtmosphereProfile {
    pub greenhouse_tenths: u32,
    pub composition: Composition,
}

impl PlanetType {
    /// Classifies a planet by its mass, in millionths of an Earth mass, and
    /// its distance from the star, in millionths of an AU.
    pub fn classify(mass_micro_earth: u64, distance_micro_au: u64) -> (r: PlanetType)
        ensures
            r == type_of(mass_micro_earth as nat, distance_micro_au as nat),
    {
        if mass_micro_earth < 2 * MICRO && distance_micro_au < 4 * MICRO {
            PlanetType::Terrestrial
        } else if mass_micro_earth < 50 * MICRO && distance_micro_au > 2 * MICRO {
            PlanetType::IceGiant
        } else {
            PlanetType::GasGiant
        }
    }

    /// The bulk composition table of the type.
    pub open spec fn spec_composition(self) -> Composition {
        match self {
            PlanetType::Terrestrial => Composition { hydrogen: 0, helium: 0, metallicity: 9000, other: 1000 },
            PlanetType::GasGiant => Composition { hydrogen: 7500, helium: 2400, metallicity: 100, other: 0 },
            PlanetType::IceGiant => Composition { hydrogen: 2000, helium: 1500, metallicity: 1500, other: 5000 },
        }
    }

    /// The bulk composition of a planet of this type.
    pub fn composition(&self) -> (r: Composition)
        ensures
            r == self.spec_composition(),
            r.is_whole(),
    {
        match self {
            PlanetType::Terrestrial => Composition::new(0, 0, 9000, 1000),
            PlanetType::GasGiant => Composition::new(7500, 2400, 100, 0),
            PlanetType::IceGiant => Composition::new(2000, 1500, 1500, 5000),
        }
    }

    /// The atmosphere of a planet of this type, mass and distance: a
    /// terrestrial planet has one only if its mass lies strictly between 0.1
    /// and 5 Earth masses, with a greenhouse factor of 1.2 closer than 2 AU
    /// and 1.0 farther out; a giant always has one, with a factor of 1.5 and
    /// the planet's own composition.
    pub open spec fn spec_atmosphere(self, mass: nat, distance: nat) -> Option<AtmosphereProfile> {
        match self {
            PlanetType::Terrestrial => if MICRO / 10 < mass < 5 * MICRO {
                Some(
                    AtmosphereProfile {
                        greenhouse_tenths: if distance < 2 * MICRO { 12 } else { 10 },
                        composition: Composition { hydrogen: 0, helium: 0, metallicity: 100, other: 9900 },
                    },
                )
            } else {
                None
            },
            _ => Some(AtmosphereProfile { greenhouse_tenths: 15, composition: self.spec_composition() }),
        }
    }

    /// The atmosphere of a planet of this type with the given mass, in
    /// millionths of an Earth mass, at the given distance, in millionths of
    /// an AU.
    pub fn atmosphere(&self, mass_micro_earth: u64, distance_micro_au: u64) -> (r: Option<AtmosphereProfile>)
        ensures
            r == self.spec_atmosphere(mass_micro_earth as nat, distance_micro_au as nat),
            r matches Some(a) ==> a.composition.is_whole(),
    {
        match self {
            PlanetType::Terrestrial => {
                if MICRO / 10 < mass_micro_earth && mass_micro_earth < 5 * MICRO {
                    let greenhouse_tenths: u32 = if distance_micro_au < 2 * MICRO { 12 } else { 10 };
                    Some(AtmosphereProfile { greenhouse_tenths, composition: Composition::new(0, 0, 100, 9900) })
                } else {
                    None
                }
            },
            _ => Some(AtmosphereProfile { greenhouse_tenths: 15, composition: self.composition() }),
        }
    }
}

/// The rolls of `0..ROLL_SPAN` below which a planet at `distance`
/// (millionths of an AU) takes the terrestrial mass distribution: a chance
/// of 0.6 within 0.5 AU, 0.5 within 2 AU, 0.2 within 5 AU and 0.1 beyond.
pub open spec fn terrestrial_threshold(distance: nat) -> u64 {
    if distance < MICRO / 2 {
        5_404_319_552_844_595
    } else if distance < 2 * MICRO {
        4_503_599_627_370_496
    } else if distance < 5 * MICRO {
        1_801_439_850_948_199
    } else {
        900_719_925_474_100
    }
}

/// The rolls below which a planet at `distance` takes the terrestrial or
/// the ice giant mass distribution: the terrestrial chance plus an ice giant
/// chance of 0.2 within 0.5 AU, 0.3 within 2 AU, 0.4 within 10 AU and 0.3
/// beyond, the sum taken as a double-precision float would take it.
pub open spec fn giant_threshold(distance: nat) -> u64 {
    if distance < 2 * MICRO {
        7_205_759_403_792_794
    } else if distance < 5 * MICRO {
        5_404_319_552_844_596
    } else if distance < 10 * MICRO {
        4_503_599_627_370_496
    } else {
        3_602_879_701_896_397
    }
}

/// The mass distribution a roll of `0..ROLL_SPAN` picks at `distance`: the
/// terrestrial one below the terrestrial threshold, the ice giant one below
/// the giant threshold, the gas giant one for the rest.
pub open spec fn mass_class_of(distance: nat, roll: nat) -> PlanetType {
    if roll < terrestrial_threshold(distance) {
        PlanetType::Terrestrial
    } else if roll < giant_threshold(distance) {
        PlanetType::IceGiant
    } else {
        PlanetType::GasGiant
    }
}

/// Picks the mass distribution for a roll of `0..ROLL_SPAN` at a distance in
/// millionths of an AU.
pub fn mass_class(distance_micro_au: u64, roll: u64) -> (r: PlanetType)
    requires
        roll < ROLL_SPAN,
    ensures
        r == mass_class_of(distance_micro_au as nat, roll as nat),
{
    let terrestrial: u64 = if distance_micro_au < MICRO / 2 {
        5_404_319_552_844_595
    } else if distance_micro_au < 2 * MICRO {
        4_503_599_627_370_496
    } else if distance_micro_au < 5 * MICRO {
        1_801_439_850_948_199
    } else {
        900_719_925_474_100
    };
    let giant: u64 = if distance_micro_au < 2 * MICRO {
        7_205_759_403_792_794
    } else if distance_micro_au < 5 * MICRO {
        5_404_319_552_844_596
    } else if distance_micro_au < 10 * MICRO {
        4_503_599_627_370_496
    } else {
        3_602_879_701_896_397
    };
    if roll < terrestrial {
        PlanetType::Terrestrial
    } else if roll < giant {
        PlanetType::IceGiant
    } else {
        PlanetType::GasGiant
    }
}

/// The bounds a mass drawn from the distribution `class` is clamped to, in
/// tenths of an Earth mass.
pub open spec fn spec_mass_bounds(class: PlanetType, distance: nat) -> (u64, u64) {
    match class {
        PlanetType::Terrestrial => (1, 20),
        PlanetType::IceGiant => (100, 500),
        PlanetType::GasGiant => if distance > 5 * MICRO { (1000, 10000) } else { (500, 10000) },
    }
}

/// The bounds `(min, max)` a mass drawn from the distribution `class` at a
/// distance in millionths of an AU is clamped to, in tenths of an Earth
/// mass: gas giants beyond 5 AU are at least a hundred Earth masses.
pub fn mass_bounds(class: PlanetType, distance_micro_au: u64) -> (r: (u64, u64))
    ensures
        r == spec_mass_bounds(class, distance_micro_au as nat),
{
    match class {
        PlanetType::Terrestrial => (1, 20),
        PlanetType::IceGiant => (100, 500),
        PlanetType::GasGiant => if distance_micro_au > 5 * MICRO {
            (1000, 10000)
        } else {
            (500, 10000)
        },
    }
}

/// What the habitability test reads of a planet and its star, in integer
/// units.
#[derive(Clone, Copy, Debug, PartialEq, Eq, Structural)]
pub struct HabitabilitySurvey {
    pub planet_type: PlanetType,
    /// Mass in millionths of an Earth mass.
    pub mass_micro_earth: u64,
    /// Surface temperature in thousandths of a kelvin.
    pub temperature_milli_kelvin: u64,
    /// Surface gravity in millionths of a metre per second squared.
    pub gravity_micro: u64,
    /// Atmospheric pressure in millionths of an atmosphere, if the planet
    /// has an atmosphere.
    pub pressure_micro_atm: Option<u64>,
    /// Rotation period in thousandths of a day.
    pub rotation_milli_days: u64,
    /// Distance from the star in millionths of an AU.
    pub distance_micro_au: u64,
    /// Mass of the star in millionths of a solar mass.
    pub star_mass_micro_solar: u64,
}

/// The planet lies in the band from `0.95 * sqrt(M)` to `1.37 * sqrt(M)` AU
/// around a star of `M` solar masses; with the distance in millionths of an
/// AU and the mass in millionths of a solar mass, squared:
/// `0.9025 * M <= d^2 <= 1.8769 * M` becomes the comparison below.
pub open spec fn in_habitable_band(distance: nat, star_mass: nat) -> bool {
    902_500 * star_mass <= distance * distance <= 1_876_900 * star_mass
}

impl HabitabilitySurvey {
    /// Habitable only if all hold: terrestrial; with an atmosphere whose
    /// pressure lies in `[0.1, 10]` atm; mass in `(0.1, 5)` Earth masses;
    /// surface temperature in `(250, 400)` K; gravity in `(2, 30)` m/s^2;
    /// rotation period in `[0.1, 100]` days; and inside the star's band.
    pub open spec fn spec_habitable(self) -> bool {
        &&& self.planet_type == PlanetType::Terrestrial
        &&& self.pressure_micro_atm matches Some(p) && MICRO / 10 <= p <= 10 * MICRO
        &&& MICRO / 10 < self.mass_micro_earth < 5 * MICRO
        &&& 250_000 < self.temperature_milli_kelvin < 400_000
        &&& 2 * MICRO < self.gravity_micro < 30 * MICRO
        &&& 100 <= self.rotation_milli_days <= 100_000
        &&& in_habitable_band(self.distance_micro_au as nat, self.star_mass_micro_solar as nat)
    }

    /// Whether the surveyed planet could support life.
    pub fn is_habitable(&self) -> (r: bool)
        ensures
            r == self.spec_habitable(),
    {
        if self.planet_type != PlanetType::Terrestrial {
            return false;
        }
        let good_pressure = match self.pressure_micro_atm {
            Some(p) => MICRO / 10 <= p && p <= 10 * MICRO,
            None => false,
        };
        let good_mass = MICRO / 10 < self.mass_micro_earth && self.mass_micro_earth < 5 * MICRO;
        let good_temperature = 250_000 < self.temperature_milli_kelvin && self.temperature_milli_kelvin < 400_000;
        let good_gravity = 2 * MICRO < self.gravity_micro && self.gravity_micro < 30 * MICRO;
        let good_rotation = 100 <= self.rotation_milli_days && self.rotation_milli_days <= 100_000;
        let d = self.distance_micro_au as u128;
        let m = self.star_mass_micro_solar as u128;
        assert(d * d <= 0xffff_ffff_ffff_ffffu128 * 0xffff_ffff_ffff_ffffu128) by (nonlinear_arith)
            requires
                d <= 0xffff_ffff_ffff_ffffu128,
        ;
        let square = d * d;
        let in_band = 902_500 * m <= square && square <= 1_876_900 * m;
        good_pressure && good_mass && good_temperature && good_gravity && good_rotation && in_band
    }
}

/// Only terrestrial planets can be habitable.
pub proof fn lemma_giants_never_habitable(survey: HabitabilitySurvey)
    requires
        survey.planet_type != PlanetType::Terrestrial,
    ensures
        !survey.spec_habitable(),
{
}

/// The terrestrial share never grows with distance, the ice giant share is
/// never negative, and it is largest (0.4) between 2 and 10 AU.
pub proof fn lemma_mass_class_shares(near: nat, far: nat)
    requires
        near <= far,
    ensures
        terrestrial_threshold(far) <= terrestrial_threshold(near),
        terrestrial_threshold(near) <= giant_threshold(near) <= ROLL_SPAN,
        2 * MICRO <= near < 10 * MICRO ==> giant_threshold(near) - terrestrial_threshold(near)
            >= giant_threshold(far) - terrestrial_threshold(far),
{
}

} // verus!
