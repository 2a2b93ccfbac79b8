//! Stellar classification: the seventeen stellar types, the weighted table a
//! type is drawn from, and the per-type parameter tables.

use vstd::prelude::*;
use vstd::set_lib::{lemma_int_range, set_int_range};

use crate::composition::{Composition, PARTS};
use crate::random::{entropy_seed, roll_of, scaled, seeded_words, spec_roll_of, spec_scaled, stream_prefix, within, ROLL_SPAN};
use crate::Generate;

verus! {


#[derive(Clone, Copy, Debug, PartialEq, Eq, Hash, Structural)]
pub enum StellarType {
    /// Failed star, below 0.08 solar masses.
    BrownDwarf,
    /// M-type main sequence star.
    RedDwarf,
    /// K-type main sequence star.
    OrangeDwarf,
    /// G-type main sequence star, like the Sun.
    YellowDwarf,
    /// F-type main sequence star.
    WhiteDwarf,
    /// A-type main sequence star.
    BlueDwarf,
    /// B-type star.
    BlueGiant,
    /// O-type star.
    BlueSupergiant,
    /// Late life stage of a low or medium mass star.
    RedGiant,
    /// Late life stage of a massive star.
    SuperGiant,
    /// Extremely massive evolved star.
    HyperGiant,
    /// Dead low or medium mass star.
    WhiteDwarfRemnant,
    /// Dead massive star.
    NeutronStar,
    /// Dead very massive star.
    BlackHole,
    /// Hypothetical ultra-dense star.
    QuarkStar,
    /// Rotating neutron star.
    PulsarStar,
    /// Highly magnetized neutron star.
    MagnetarStar,
}

impl StellarType {
    /// The type's share of the roll table, in parts per ten thousand.
    pub open spec fn nominal_share(self) -> nat {
        match self {
            StellarType::BrownDwarf => 500,
            StellarType::RedDwarf => 5000,
            StellarType::OrangeDwarf => 1500,
            StellarType::YellowDwarf => 1000,
            StellarType::WhiteDwarf => 500,
            StellarType::BlueDwarf => 400,
            StellarType::BlueGiant => 200,
            StellarType::BlueSupergiant => 100,
            StellarType::RedGiant => 200,
            StellarType::SuperGiant => 100,
            StellarType::HyperGiant => 100,
            StellarType::WhiteDwarfRemnant => 100,
            StellarType::NeutronStar => 100,
            StellarType::BlackHole => 100,
            StellarType::QuarkStar => 50,
            StellarType::PulsarStar => 25,
            StellarType::MagnetarStar => 25,
        }
    }

    /// How many of the `ROLL_SPAN` possible rolls give this type.
    pub open spec fn roll_weight(self) -> nat {
        match self {
            StellarType::BrownDwarf => 450_359_962_737_050,
            StellarType::RedDwarf => 4_503_599_627_370_496,
            StellarType::OrangeDwarf => 1_351_079_888_211_148,
            StellarType::YellowDwarf => 900_719_925_474_100,
            StellarType::WhiteDwarf => 450_359_962_737_049,
            StellarType::BlueDwarf => 360_287_970_189_640,
            StellarType::BlueGiant => 180_143_985_094_820,
            StellarType::BlueSupergiant => 90_071_992_547_410,
            StellarType::RedGiant => 180_143_985_094_819,
            StellarType::SuperGiant => 90_071_992_547_410,
            StellarType::HyperGiant => 90_071_992_547_410,
            StellarType::WhiteDwarfRemnant => 90_071_992_547_410,
            StellarType::NeutronStar => 90_071_992_547_410,
            StellarType::BlackHole => 90_071_992_547_410,
            StellarType::QuarkStar => 45_035_996_273_705,
            StellarType::PulsarStar => 22_517_998_136_853,
            StellarType::MagnetarStar => 22_517_998_136_852,
        }
    }

    /// The first roll of this type's band: the weights of the types before it.
    pub open spec fn band_start(self) -> nat {
        match self {
            StellarType::BrownDwarf => 0,
            StellarType::RedDwarf => 450_359_962_737_050,
            StellarType::OrangeDwarf => 4_953_959_590_107_546,
            StellarType::YellowDwarf => 6_305_039_478_318_694,
            StellarType::WhiteDwarf => 7_205_759_403_792_794,
            StellarType::BlueDwarf => 7_656_119_366_529_843,
            StellarType::BlueGiant => 8_016_407_336_719_483,
            StellarType::BlueSupergiant => 8_196_551_321_814_303,
            StellarType::RedGiant => 8_286_623_314_361_713,
            StellarType::SuperGiant => 8_466_767_299_456_532,
            StellarType::HyperGiant => 8_556_839_292_003_942,
            StellarType::WhiteDwarfRemnant => 8_646_911_284_551_352,
            StellarType::NeutronStar => 8_736_983_277_098_762,
            StellarType::BlackHole => 8_827_055_269_646_172,
            StellarType::QuarkStar => 8_917_127_262_193_582,
            StellarType::PulsarStar => 8_962_163_258_467_287,
            StellarType::MagnetarStar => 8_984_681_256_604_140,
        }
    }

    /// The rolls that give this type: a half-open band of `roll_weight` rolls.
    pub open spec fn band(self) -> Set<int> {
        Set::new(|roll: int| self.band_start() <= roll < self.band_start() + self.roll_weight())
    }

    /// The type that a roll of `0..ROLL_SPAN` gives: the type whose band holds it.
    pub open spec fn of_roll(roll: int) -> StellarType {
        choose|t: StellarType| t.band().contains(roll)
    }

    /// Picks the stellar type for a roll of `0..ROLL_SPAN`: brown dwarfs take
    /// the first 5% of the rolls, red dwarfs the next 50%, and so on down to
    /// 0.25% each for pulsars and magnetars.
    pub fn from_roll(roll: u64) -> (r: StellarType)
        requires
            roll < ROLL_SPAN,
        ensures
            r.band().contains(roll as int),
            r == Self::of_roll(roll as int),
    {
        let r = if roll < 450_359_962_737_050 {
            StellarType::BrownDwarf
        } else if roll < 4_953_959_590_107_546 {
            StellarType::RedDwarf
        } else if roll < 6_305_039_478_318_694 {
            StellarType::OrangeDwarf
        } else if roll < 7_205_759_403_792_794 {
            StellarType::YellowDwarf
        } else if roll < 7_656_119_366_529_843 {
            StellarType::WhiteDwarf
        } else if roll < 8_016_407_336_719_483 {
            StellarType::BlueDwarf
        } else if roll < 8_196_551_321_814_303 {
            StellarType::BlueGiant
        } else if roll < 8_286_623_314_361_713 {
            StellarType::BlueSupergiant
        } else if roll < 8_466_767_299_456_532 {
            StellarType::RedGiant
        } else if roll < 8_556_839_292_003_942 {
            StellarType::SuperGiant
        } else if roll < 8_646_911_284_551_352 {
            StellarType::HyperGiant
        } else if roll < 8_736_983_277_098_762 {
            StellarType::WhiteDwarfRemnant
        } else if roll < 8_827_055_269_646_172 {
            StellarType::NeutronStar
        } else if roll < 8_917_127_262_193_582 {
            StellarType::BlackHole
        } else if roll < 8_962_163_258_467_287 {
            StellarType::QuarkStar
        } else if roll < 8_984_681_256_604_140 {
            StellarType::PulsarStar
        } else {
            StellarType::MagnetarStar
        };
        proof {
            assert(r.band().contains(roll as int));
            lemma_bands_disjoint(r, Self::of_roll(roll as int), roll as int);
        }
        r
    }
}

impl StellarType {
    /// The declared mass range, in hundredths of a solar mass.
    pub open spec fn spec_mass_range(self) -> (u64, u64) {
        match self {
            StellarType::BrownDwarf => (1, 8),
            StellarType::RedDwarf => (8, 45),
            StellarType::OrangeDwarf => (45, 80),
            StellarType::YellowDwarf => (80, 120),
            StellarType::WhiteDwarf => (120, 140),
            StellarType::BlueDwarf => (140, 210),
            StellarType::BlueGiant => (210, 600),
            StellarType::BlueSupergiant => (600, 1500),
            StellarType::RedGiant => (30, 300),
            StellarType::SuperGiant => (300, 1200),
            StellarType::HyperGiant => (1200, 3000),
            StellarType::WhiteDwarfRemnant => (17, 140),
            StellarType::NeutronStar => (140, 300),
            StellarType::BlackHole => (300, 2000),
            StellarType::QuarkStar => (140, 300),
            StellarType::PulsarStar => (140, 300),
            StellarType::MagnetarStar => (140, 300),
        }
    }

    /// The declared mass range `(min, max)`, in hundredths of a solar mass.
    pub fn mass_range(&self) -> (r: (u64, u64))
        ensures
            r == self.spec_mass_range(),
    {
        match self {
            StellarType::BrownDwarf => (1, 8),
            StellarType::RedDwarf => (8, 45),
            StellarType::OrangeDwarf => (45, 80),
            StellarType::YellowDwarf => (80, 120),
            StellarType::WhiteDwarf => (120, 140),
            StellarType::BlueDwarf => (140, 210),
            StellarType::BlueGiant => (210, 600),
            StellarType::BlueSupergiant => (600, 1500),
            StellarType::RedGiant => (30, 300),
            StellarType::SuperGiant => (300, 1200),
            StellarType::HyperGiant => (1200, 3000),
            StellarType::WhiteDwarfRemnant => (17, 140),
            StellarType::NeutronStar => (140, 300),
            StellarType::BlackHole => (300, 2000),
            StellarType::QuarkStar => (140, 300),
            StellarType::PulsarStar => (140, 300),
            StellarType::MagnetarStar => (140, 300),
        }
    }

    /// The declared surface temperature range, in kelvin.
    pub open spec fn spec_temperature_range(self) -> (u64, u64) {
        match self {
            StellarType::BrownDwarf => (300, 2800),
            StellarType::RedDwarf => (2800, 3500),
            StellarType::OrangeDwarf => (3500, 5000),
            StellarType::YellowDwarf => (5000, 6000),
            StellarType::WhiteDwarf => (6000, 7500),
            StellarType::BlueDwarf => (7500, 10000),
            StellarType::BlueGiant => (10000, 30000),
            StellarType::BlueSupergiant => (30000, 50000),
            StellarType::RedGiant => (3000, 4500),
            StellarType::SuperGiant => (3500, 8000),
            StellarType::HyperGiant => (4000, 50000),
            StellarType::WhiteDwarfRemnant => (4000, 150000),
            StellarType::NeutronStar => (100000, 1000000),
            StellarType::BlackHole => (0, 0),
            StellarType::QuarkStar => (100000, 1000000),
            StellarType::PulsarStar => (100000, 1000000),
            StellarType::MagnetarStar => (100000, 1000000),
        }
    }

    /// The declared surface temperature range `(min, max)`, in kelvin.
    pub fn temperature_range(&self) -> (r: (u64, u64))
        ensures
            r == self.spec_temperature_range(),
    {
        match self {
            StellarType::BrownDwarf => (300, 2800),
            StellarType::RedDwarf => (2800, 3500),
            StellarType::OrangeDwarf => (3500, 5000),
            StellarType::YellowDwarf => (5000, 6000),
            StellarType::WhiteDwarf => (6000, 7500),
            StellarType::BlueDwarf => (7500, 10000),
            StellarType::BlueGiant => (10000, 30000),
            StellarType::BlueSupergiant => (30000, 50000),
            StellarType::RedGiant => (3000, 4500),
            StellarType::SuperGiant => (3500, 8000),
            StellarType::HyperGiant => (4000, 50000),
            StellarType::WhiteDwarfRemnant => (4000, 150000),
            StellarType::NeutronStar => (100000, 1000000),
            StellarType::BlackHole => (0, 0),
            StellarType::QuarkStar => (100000, 1000000),
            StellarType::PulsarStar => (100000, 1000000),
            StellarType::MagnetarStar => (100000, 1000000),
        }
    }

    /// The power law of mass that gives the luminosity.
    pub open spec fn spec_luminosity_law(self) -> PowerLaw {
        match self {
            StellarType::BrownDwarf => (PowerLaw { exponent_tenths: 20i32, mantissa: 1u32, exponent_of_ten: -3i32 }),
            StellarType::RedDwarf => (PowerLaw { exponent_tenths: 30i32, mantissa: 1u32, exponent_of_ten: -2i32 }),
            StellarType::OrangeDwarf => (PowerLaw { exponent_tenths: 35i32, mantissa: 1u32, exponent_of_ten: -1i32 }),
            StellarType::YellowDwarf => (PowerLaw { exponent_tenths: 35i32, mantissa: 1u32, exponent_of_ten: 0i32 }),
            StellarType::WhiteDwarf => (PowerLaw { exponent_tenths: 35i32, mantissa: 2u32, exponent_of_ten: 0i32 }),
            StellarType::BlueDwarf => (PowerLaw { exponent_tenths: 35i32, mantissa: 5u32, exponent_of_ten: 0i32 }),
            StellarType::BlueGiant => (PowerLaw { exponent_tenths: 38i32, mantissa: 1u32, exponent_of_ten: 1i32 }),
            StellarType::BlueSupergiant => (PowerLaw { exponent_tenths: 40i32, mantissa: 1u32, exponent_of_ten: 2i32 }),
            StellarType::RedGiant => (PowerLaw { exponent_tenths: 30i32, mantissa: 1u32, exponent_of_ten: 3i32 }),
            StellarType::SuperGiant => (PowerLaw { exponent_tenths: 35i32, mantissa: 1u32, exponent_of_ten: 4i32 }),
            StellarType::HyperGiant => (PowerLaw { exponent_tenths: 40i32, mantissa: 1u32, exponent_of_ten: 5i32 }),
            StellarType::WhiteDwarfRemnant => (PowerLaw { exponent_tenths: -30i32, mantissa: 1u32, exponent_of_ten: -4i32 }),
            StellarType::NeutronStar => (PowerLaw { exponent_tenths: -20i32, mantissa: 1u32, exponent_of_ten: -5i32 }),
            StellarType::BlackHole => (PowerLaw { exponent_tenths: 0i32, mantissa: 0u32, exponent_of_ten: 0i32 }),
            StellarType::QuarkStar => (PowerLaw { exponent_tenths: -20i32, mantissa: 1u32, exponent_of_ten: -5i32 }),
            StellarType::PulsarStar => (PowerLaw { exponent_tenths: -20i32, mantissa: 1u32, exponent_of_ten: -5i32 }),
            StellarType::MagnetarStar => (PowerLaw { exponent_tenths: -20i32, mantissa: 1u32, exponent_of_ten: -5i32 }),
        }
    }

    /// The power law of mass (in solar masses) that gives the luminosity (relative to the Sun).
    pub fn luminosity_law(&self) -> (r: PowerLaw)
        ensures
            r == self.spec_luminosity_law(),
    {
        match self {
            StellarType::BrownDwarf => (PowerLaw { exponent_tenths: 20i32, mantissa: 1u32, exponent_of_ten: -3i32 }),
            StellarType::RedDwarf => (PowerLaw { exponent_tenths: 30i32, mantissa: 1u32, exponent_of_ten: -2i32 }),
            StellarType::OrangeDwarf => (PowerLaw { exponent_tenths: 35i32, mantissa: 1u32, exponent_of_ten: -1i32 }),
            StellarType::YellowDwarf => (PowerLaw { exponent_tenths: 35i32, mantissa: 1u32, exponent_of_ten: 0i32 }),
            StellarType::WhiteDwarf => (PowerLaw { exponent_tenths: 35i32, mantissa: 2u32, exponent_of_ten: 0i32 }),
            StellarType::BlueDwarf => (PowerLaw { exponent_tenths: 35i32, mantissa: 5u32, exponent_of_ten: 0i32 }),
            StellarType::BlueGiant => (PowerLaw { exponent_tenths: 38i32, mantissa: 1u32, exponent_of_ten: 1i32 }),
            StellarType::BlueSupergiant => (PowerLaw { exponent_tenths: 40i32, mantissa: 1u32, exponent_of_ten: 2i32 }),
            StellarType::RedGiant => (PowerLaw { exponent_tenths: 30i32, mantissa: 1u32, exponent_of_ten: 3i32 }),
            StellarType::SuperGiant => (PowerLaw { exponent_tenths: 35i32, mantissa: 1u32, exponent_of_ten: 4i32 }),
            StellarType::HyperGiant => (PowerLaw { exponent_tenths: 40i32, mantissa: 1u32, exponent_of_ten: 5i32 }),
            StellarType::WhiteDwarfRemnant => (PowerLaw { exponent_tenths: -30i32, mantissa: 1u32, exponent_of_ten: -4i32 }),
            StellarType::NeutronStar => (PowerLaw { exponent_tenths: -20i32, mantissa: 1u32, exponent_of_ten: -5i32 }),
            StellarType::BlackHole => (PowerLaw { exponent_tenths: 0i32, mantissa: 0u32, exponent_of_ten: 0i32 }),
            StellarType::QuarkStar => (PowerLaw { exponent_tenths: -20i32, mantissa: 1u32, exponent_of_ten: -5i32 }),
            StellarType::PulsarStar => (PowerLaw { exponent_tenths: -20i32, mantissa: 1u32, exponent_of_ten: -5i32 }),
            StellarType::MagnetarStar => (PowerLaw { exponent_tenths: -20i32, mantissa: 1u32, exponent_of_ten: -5i32 }),
        }
    }

    /// How the radius follows from the mass.
    pub open spec fn spec_radius_law(self) -> RadiusLaw {
        match self {
            StellarType::BlackHole => RadiusLaw::EventHorizon,
            StellarType::RedGiant | StellarType::SuperGiant | StellarType::HyperGiant => RadiusLaw::Inflated,
            StellarType::WhiteDwarfRemnant | StellarType::NeutronStar | StellarType::QuarkStar
            | StellarType::PulsarStar | StellarType::MagnetarStar => RadiusLaw::Compressed,
            _ => RadiusLaw::Standard,
        }
    }

    /// How the radius follows from the mass: the Schwarzschild radius for a
    /// black hole, an inflated power law for giants, a compressed one for
    /// compact remnants and exotic stars, the standard one otherwise.
    pub fn radius_law(&self) -> (r: RadiusLaw)
        ensures
            r == self.spec_radius_law(),
    {
        match self {
            StellarType::BlackHole => RadiusLaw::EventHorizon,
            StellarType::RedGiant | StellarType::SuperGiant | StellarType::HyperGiant => RadiusLaw::Inflated,
            StellarType::WhiteDwarfRemnant | StellarType::NeutronStar | StellarType::QuarkStar
            | StellarType::PulsarStar | StellarType::MagnetarStar => RadiusLaw::Compressed,
            _ => RadiusLaw::Standard,
        }
    }

    /// The composition table: degenerate matter for neutron, quark, pulsar
    /// and magnetar stars, none of the four for a black hole, solar
    /// abundances otherwise.
    pub open spec fn spec_composition(self) -> Composition {
        match self {
            StellarType::NeutronStar | StellarType::QuarkStar | StellarType::PulsarStar
            | StellarType::MagnetarStar => Composition { hydrogen: 0, helium: 0, metallicity: 10000, other: 0 },
            StellarType::BlackHole => Composition { hydrogen: 0, helium: 0, metallicity: 0, other: 10000 },
            _ => Composition { hydrogen: 7347, helium: 2483, metallicity: 169, other: 1 },
        }
    }

    /// The bulk composition of a star of this type.
    pub fn composition(&self) -> (r: Composition)
        ensures
            r == self.spec_composition(),
            r.is_whole(),
    {
        match self {
            StellarType::NeutronStar | StellarType::QuarkStar | StellarType::PulsarStar
            | StellarType::MagnetarStar => Composition::new(0, 0, PARTS, 0),
            StellarType::BlackHole => Composition::new(0, 0, 0, PARTS),
            _ => Composition::new(7347, 2483, 169, 1),
        }
    }

    /// The range of the magnetic field, in microtesla.
    pub open spec fn spec_magnetic_field_range(self) -> (u64, u64) {
        match self {
            StellarType::MagnetarStar => (100_000_000_000_000_000, 1_100_000_000_000_000_000),
            StellarType::PulsarStar => (100_000_000_000_000, 1_100_000_000_000_000),
            StellarType::NeutronStar => (10_000_000_000_000, 110_000_000_000_000),
            _ => (100, 100_000_100),
        }
    }

    /// The half-open range `(min, max)` of the magnetic field, in microtesla.
    pub fn magnetic_field_range(&self) -> (r: (u64, u64))
        ensures
            r == self.spec_magnetic_field_range(),
    {
        match self {
            StellarType::MagnetarStar => (100_000_000_000_000_000, 1_100_000_000_000_000_000),
            StellarType::PulsarStar => (100_000_000_000_000, 1_100_000_000_000_000),
            StellarType::NeutronStar => (10_000_000_000_000, 110_000_000_000_000),
            _ => (100, 100_000_100),
        }
    }

    /// The range of the rotation period, in thousandths of a day.
    pub open spec fn spec_rotation_range(self) -> (u64, u64) {
        match self {
            StellarType::PulsarStar => (1, 10_000),
            StellarType::NeutronStar | StellarType::MagnetarStar => (100, 100_000),
            _ => (500, 50_000),
        }
    }

    /// The half-open range `(min, max)` of the rotation period, in
    /// thousandths of a day.
    pub fn rotation_range(&self) -> (r: (u64, u64))
        ensures
            r == self.spec_rotation_range(),
    {
        match self {
            StellarType::PulsarStar => (1, 10_000),
            StellarType::NeutronStar | StellarType::MagnetarStar => (100, 100_000),
            _ => (500, 50_000),
        }
    }

    /// Whether a star of this type can have planets: not the compact
    /// remnants and exotic stars.
    pub open spec fn spec_can_have_planets(self) -> bool {
        !(self is BlackHole || self is NeutronStar || self is PulsarStar || self is MagnetarStar
            || self is QuarkStar)
    }

    /// Whether a star of this type can have planets.
    pub fn can_have_planets(&self) -> (r: bool)
        ensures
            r == self.spec_can_have_planets(),
    {
        !matches!(self, StellarType::BlackHole | StellarType::NeutronStar | StellarType::PulsarStar
            | StellarType::MagnetarStar | StellarType::QuarkStar)
    }

    /// The range of the number of planets.
    pub open spec fn spec_planet_count_range(self) -> (usize, usize) {
        match self {
            StellarType::BrownDwarf => (0, 3),
            StellarType::RedDwarf => (0, 5),
            StellarType::OrangeDwarf | StellarType::YellowDwarf => (0, 12),
            StellarType::WhiteDwarf | StellarType::BlueDwarf => (0, 8),
            StellarType::BlueGiant | StellarType::BlueSupergiant => (0, 5),
            StellarType::RedGiant | StellarType::SuperGiant | StellarType::HyperGiant => (0, 3),
            StellarType::WhiteDwarfRemnant => (0, 2),
            _ => (0, 0),
        }
    }

    /// The inclusive range `(min, max)` of the number of planets.
    pub fn planet_count_range(&self) -> (r: (usize, usize))
        ensures
            r == self.spec_planet_count_range(),
    {
        match self {
            StellarType::BrownDwarf => (0, 3),
            StellarType::RedDwarf => (0, 5),
            StellarType::OrangeDwarf | StellarType::YellowDwarf => (0, 12),
            StellarType::WhiteDwarf | StellarType::BlueDwarf => (0, 8),
            StellarType::BlueGiant | StellarType::BlueSupergiant => (0, 5),
            StellarType::RedGiant | StellarType::SuperGiant | StellarType::HyperGiant => (0, 3),
            StellarType::WhiteDwarfRemnant => (0, 2),
            _ => (0, 0),
        }
    }

    /// The distance of the innermost orbit, in thousandths of an AU.
    pub open spec fn spec_base_orbit(self) -> u64 {
        match self {
            StellarType::BrownDwarf | StellarType::RedDwarf => 50,
            StellarType::WhiteDwarfRemnant => 100,
            _ => 300,
        }
    }

    /// The distance of the innermost orbit before jitter, in thousandths of
    /// an AU.
    pub fn base_orbit(&self) -> (r: u64)
        ensures
            r == self.spec_base_orbit(),
    {
        match self {
            StellarType::BrownDwarf | StellarType::RedDwarf => 50,
            StellarType::WhiteDwarfRemnant => 100,
            _ => 300,
        }
    }

    /// The ratio between successive orbits, in tenths.
    pub open spec fn spec_orbit_spacing(self) -> u64 {
        match self {
            StellarType::BrownDwarf | StellarType::RedDwarf => 14,
            StellarType::WhiteDwarfRemnant => 15,
            StellarType::BlueGiant | StellarType::BlueSupergiant => 20,
            _ => 17,
        }
    }

    /// The ratio between successive orbits before jitter, in tenths.
    pub fn orbit_spacing(&self) -> (r: u64)
        ensures
            r == self.spec_orbit_spacing(),
    {
        match self {
            StellarType::BrownDwarf | StellarType::RedDwarf => 14,
            StellarType::WhiteDwarfRemnant => 15,
            StellarType::BlueGiant | StellarType::BlueSupergiant => 20,
            _ => 17,
        }
    }

    /// The number of planets a word gives: uniform over the type's range.
    pub open spec fn spec_planet_count_from(self, word: u64) -> usize {
        spec_scaled(word, (self.spec_planet_count_range().0 as u64, (self.spec_planet_count_range().1 + 1) as u64))
            as usize
    }

    /// The number of planets a word gives.
    pub fn planet_count_from(&self, word: u64) -> (r: usize)
        ensures
            r == self.spec_planet_count_from(word),
            self.spec_planet_count_range().0 <= r <= self.spec_planet_count_range().1,
    {
        let (low, high) = self.planet_count_range();
        scaled(word, (low as u64, high as u64 + 1)) as usize
    }
}

/// A power law `mantissa * 10^exponent_of_ten * x^(exponent_tenths / 10)`.
#[derive(Clone, Copy, Debug, PartialEq, Eq, Structural)]
pub struct PowerLaw {
    pub exponent_tenths: i32,
    pub mantissa: u32,
    pub exponent_of_ten: i32,
}

/// The rule that gives a star's radius from its mass.
#[derive(Clone, Copy, Debug, PartialEq, Eq, Structural)]
pub enum RadiusLaw {
    /// The Schwarzschild radius of the mass.
    EventHorizon,
    /// A power law inflated a hundredfold, for giant stars.
    Inflated,
    /// A power law compressed a hundredfold, for compact stars.
    Compressed,
    /// The main sequence power law.
    Standard,
}

/// Millionths of a solar mass in one hundredth of a solar mass.
pub const MICRO_PER_CENTI: u64 = 10000;

/// The youngest and oldest (exclusive) age of a star, in millions of years.
pub const AGE_RANGE_MYR: (u64, u64) = (100, 13800);

/// The drawn, integer-valued traits of a star: its type and every quantity
/// drawn from that type's ranges. The continuous quantities that follow from
/// them (luminosity, radius, density, gravity) are derived from these.
#[derive(Clone, Copy, Debug, PartialEq, Eq, Structural)]
pub struct StarProfile {
    /// The seed the star was generated from.
    pub seed: u64,
    pub stellar_type: StellarType,
    /// Mass in millionths of a solar mass.
    pub mass_micro_solar: u64,
    /// Surface temperature in kelvin.
    pub temperature_kelvin: u64,
    pub composition: Composition,
    /// Magnetic field in microtesla.
    pub magnetic_field_micro_tesla: u64,
    /// Rotation period in thousandths of a day.
    pub rotation_milli_days: u64,
    /// Age in millions of years.
    pub age_mega_years: u64,
}

impl StarProfile {
    /// Every trait lies in the declared range of the star's type.
    pub open spec fn wf(self) -> bool {
        let t = self.stellar_type;
        &&& t.spec_mass_range().0 * MICRO_PER_CENTI <= self.mass_micro_solar
        &&& self.mass_micro_solar < t.spec_mass_range().1 * MICRO_PER_CENTI
        &&& within(self.temperature_kelvin, t.spec_temperature_range())
        &&& self.composition == t.spec_composition()
        &&& within(self.magnetic_field_micro_tesla, t.spec_magnetic_field_range())
        &&& within(self.rotation_milli_days, t.spec_rotation_range())
        &&& AGE_RANGE_MYR.0 <= self.age_mega_years < AGE_RANGE_MYR.1
    }

    /// The star of `seed` whose traits the words give: the type from the
    /// first word's roll, then mass, temperature, magnetic field, rotation
    /// and age, each scaled from one word into its range.
    pub open spec fn spec_from_words(seed: u64, words: Seq<u64>) -> StarProfile {
        let t = StellarType::of_roll(spec_roll_of(words[0]) as int);
        let mass = t.spec_mass_range();
        StarProfile {
            seed,
            stellar_type: t,
            mass_micro_solar: spec_scaled(
                words[1],
                ((mass.0 * MICRO_PER_CENTI) as u64, (mass.1 * MICRO_PER_CENTI) as u64),
            ),
            temperature_kelvin: spec_scaled(words[2], t.spec_temperature_range()),
            composition: t.spec_composition(),
            magnetic_field_micro_tesla: spec_scaled(words[3], t.spec_magnetic_field_range()),
            rotation_milli_days: spec_scaled(words[4], t.spec_rotation_range()),
            age_mega_years: spec_scaled(words[5], AGE_RANGE_MYR),
        }
    }

    /// The star generated from `seed`.
    pub open spec fn of_seed(seed: u64) -> StarProfile {
        Self::spec_from_words(seed, stream_prefix(seed, STAR_WORDS as nat))
    }

    /// The star of `seed` whose traits the words give.
    pub fn from_words(seed: u64, words: &Vec<u64>) -> (r: StarProfile)
        requires
            words@.len() >= STAR_WORDS,
        ensures
            r == Self::spec_from_words(seed, words@),
            r.wf(),
    {
        let stellar_type = StellarType::from_roll(roll_of(words[0]));
        let (mass_low, mass_high) = stellar_type.mass_range();
        StarProfile {
            seed,
            stellar_type,
            mass_micro_solar: scaled(words[1], (mass_low * MICRO_PER_CENTI, mass_high * MICRO_PER_CENTI)),
            temperature_kelvin: scaled(words[2], stellar_type.temperature_range()),
            composition: stellar_type.composition(),
            magnetic_field_micro_tesla: scaled(words[3], stellar_type.magnetic_field_range()),
            rotation_milli_days: scaled(words[4], stellar_type.rotation_range()),
            age_mega_years: scaled(words[5], AGE_RANGE_MYR),
        }
    }
}

/// The number of words of the stream a star's traits take.
pub const STAR_WORDS: usize = 6;

impl Generate for StarProfile {
    fn generate() -> (r: StarProfile)
        ensures
            r.wf(),
    {
        Self::generate_with_seed(entropy_seed())
    }

    /// The star of `seed`, from the first words of the stream seeded with
    /// `seed`: the same seed always gives the same star.
    fn generate_with_seed(seed: u64) -> (r: StarProfile)
        ensures
            r == StarProfile::of_seed(seed),
            r.wf(),
    {
        let words = seeded_words(seed, STAR_WORDS);
        Self::from_words(seed, &words)
    }
}

/// Two types whose bands share a roll are the same type.
pub proof fn lemma_bands_disjoint(a: StellarType, b: StellarType, roll: int)
    requires
        a.band().contains(roll),
        b.band().contains(roll),
    ensures
        a == b,
{
}

/// Every roll of `0..ROLL_SPAN` lies in the band of the type it gives.
pub proof fn lemma_roll_has_band(roll: int)
    requires
        0 <= roll < ROLL_SPAN,
    ensures
        StellarType::of_roll(roll).band().contains(roll),
{
    let t = if roll < 450_359_962_737_050 {
        StellarType::BrownDwarf
    } else if roll < 4_953_959_590_107_546 {
        StellarType::RedDwarf
    } else if roll < 6_305_039_478_318_694 {
        StellarType::OrangeDwarf
    } else if roll < 7_205_759_403_792_794 {
        StellarType::YellowDwarf
    } else if roll < 7_656_119_366_529_843 {
        StellarType::WhiteDwarf
    } else if roll < 8_016_407_336_719_483 {
        StellarType::BlueDwarf
    } else if roll < 8_196_551_321_814_303 {
        StellarType::BlueGiant
    } else if roll < 8_286_623_314_361_713 {
        StellarType::BlueSupergiant
    } else if roll < 8_466_767_299_456_532 {
        StellarType::RedGiant
    } else if roll < 8_556_839_292_003_942 {
        StellarType::SuperGiant
    } else if roll < 8_646_911_284_551_352 {
        StellarType::HyperGiant
    } else if roll < 8_736_983_277_098_762 {
        StellarType::WhiteDwarfRemnant
    } else if roll < 8_827_055_269_646_172 {
        StellarType::NeutronStar
    } else if roll < 8_917_127_262_193_582 {
        StellarType::BlackHole
    } else if roll < 8_962_163_258_467_287 {
        StellarType::QuarkStar
    } else if roll < 8_984_681_256_604_140 {
        StellarType::PulsarStar
    } else {
        StellarType::MagnetarStar
    };
    assert(t.band().contains(roll));
}

/// The rolls of `0..ROLL_SPAN` that give the type `t`.
pub open spec fn rolls_giving(t: StellarType) -> Set<int> {
    Set::new(|roll: int| 0 <= roll < ROLL_SPAN && StellarType::of_roll(roll) == t)
}

/// Under a uniform roll each stellar type comes with probability
/// `roll_weight / ROLL_SPAN`: exactly `roll_weight` of the `ROLL_SPAN`
/// possible rolls give it, and that share is the type's nominal share of the
/// table (half for a red dwarf, for instance) to within one roll.
pub proof fn lemma_roll_frequency(t: StellarType)
    ensures
        rolls_giving(t).finite(),
        rolls_giving(t).len() == t.roll_weight(),
        t.roll_weight() * 10000 <= t.nominal_share() * ROLL_SPAN + 10000,
        t.nominal_share() * ROLL_SPAN <= t.roll_weight() * 10000 + 10000,
{
    let lo = t.band_start() as int;
    let hi = lo + t.roll_weight();
    assert forall|roll: int| rolls_giving(t).contains(roll) implies set_int_range(lo, hi).contains(roll) by {
        lemma_roll_has_band(roll);
    }
    assert forall|roll: int| set_int_range(lo, hi).contains(roll) implies rolls_giving(t).contains(roll) by {
        assert(t.band().contains(roll));
        lemma_bands_disjoint(t, StellarType::of_roll(roll), roll);
    }
    assert(rolls_giving(t) =~= set_int_range(lo, hi));
    lemma_int_range(lo, hi);
}

/// Magnetic fields grow from main sequence stars to neutron stars, pulsars
/// and magnetars: both ends of each range lie above those of the one before.
pub proof fn lemma_field_strength_order(ordinary: StellarType)
    requires
        !(ordinary is NeutronStar || ordinary is PulsarStar || ordinary is MagnetarStar),
    ensures
        ordinary.spec_magnetic_field_range().0 < StellarType::NeutronStar.spec_magnetic_field_range().0,
        ordinary.spec_magnetic_field_range().1 < StellarType::NeutronStar.spec_magnetic_field_range().1,
        StellarType::NeutronStar.spec_magnetic_field_range().0 < StellarType::PulsarStar.spec_magnetic_field_range().0,
        StellarType::NeutronStar.spec_magnetic_field_range().1 < StellarType::PulsarStar.spec_magnetic_field_range().1,
        StellarType::PulsarStar.spec_magnetic_field_range().0 < StellarType::MagnetarStar.spec_magnetic_field_range().0,
        StellarType::PulsarStar.spec_magnetic_field_range().1 < StellarType::MagnetarStar.spec_magnetic_field_range().1,
{
}

} // verus!
