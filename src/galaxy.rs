//! Galactic structure: the stellar population at a point of the galaxy and
//! the parameters of each population's density profile.

use vstd::prelude::*;

use crate::random::{roll_of, seeded_word, seeded_words, spec_roll_of, ROLL_SPAN};

verus! {

#[derive(Clone, Copy, Debug, PartialEq, Eq, Hash, Structural)]
pub enum PopulationType {
    /// Young stars, high metallicity.
    ThinDisk,
    /// Intermediate age stars.
    ThickDisk,
    /// Old stars, varied metallicity.
    Bulge,
    /// Very old stars, low metallicity.
    Halo,
}

/// The absolute value of `v`.
pub open spec fn magnitude(v: int) -> int {
    if v < 0 {
        -v
    } else {
        v
    }
}

/// The population at `(x, y, z)`, in thousandths of a parsec from the
/// galactic centre (`z` above the plane): the bulge within 3000 pc of the
/// axis and 1000 pc of the plane; the halo farther than 1000 pc from the
/// plane; the thick disk farther than 400 pc; the thin disk otherwise.
pub open spec fn population_at(x: int, y: int, z: int) -> PopulationType {
    if x * x + y * y < 3_000_000 * 3_000_000 && magnitude(z) < 1_000_000 {
        PopulationType::Bulge
    } else if magnitude(z) > 1_000_000 {
        PopulationType::Halo
    } else if magnitude(z) > 400_000 {
        PopulationType::ThickDisk
    } else {
        PopulationType::ThinDisk
    }
}

/// The absolute value of `v`, which always fits in a `u64`.
fn magnitude_of(v: i64) -> (r: u64)
    ensures
        r == magnitude(v as int),
{
    if v < 0 {
        (-(v as i128)) as u64
    } else {
        v as u64
    }
}

/// An exponential disk, a de Vaucouleurs bulge or a spherical power law.
#[derive(Clone, Copy, Debug, PartialEq, Eq, Structural)]
pub enum DensityProfile {
    /// `peak * exp(-r / scale_length - |z| / scale_height)`.
    ExponentialDisk { peak_micro_stars: u64, scale_length_pc: u64, scale_height_pc: u64 },
    /// `peak * exp(-7.67 * (s / effective_radius)^(1/4))`, with `s` the
    /// distance from the centre on a bulge flattened twofold in height.
    DeVaucouleurs { peak_micro_stars: u64, effective_radius_pc: u64 },
    /// `peak * (s / reference_radius)^(-slope_tenths / 10)`, with `s` the
    /// distance from the centre.
    SphericalPowerLaw { peak_micro_stars: u64, reference_radius_pc: u64, slope_tenths: u64 },
}

impl PopulationType {
    /// Classifies the point `(x, y, z)`, in thousandths of a parsec from the
    /// galactic centre.
    pub fn at_position(x: i64, y: i64, z: i64) -> (r: PopulationType)
        ensures
            r == population_at(x as int, y as int, z as int),
    {
        let ax = magnitude_of(x) as u128;
        let ay = magnitude_of(y) as u128;
        let az = magnitude_of(z);
        assert(ax * ax <= 0x8000_0000_0000_0000u128 * 0x8000_0000_0000_0000u128) by (nonlinear_arith)
            requires
                ax <= 0x8000_0000_0000_0000u128,
        ;
        assert(ay * ay <= 0x8000_0000_0000_0000u128 * 0x8000_0000_0000_0000u128) by (nonlinear_arith)
            requires
                ay <= 0x8000_0000_0000_0000u128,
        ;
        assert(ax * ax == (x as int) * (x as int)) by (nonlinear_arith)
            requires
                ax == magnitude(x as int),
        ;
        assert(ay * ay == (y as int) * (y as int)) by (nonlinear_arith)
            requires
                ay == magnitude(y as int),
        ;
        let near_axis = ax * ax + ay * ay < 3_000_000 * 3_000_000;
        if near_axis && az < 1_000_000 {
            PopulationType::Bulge
        } else if az > 1_000_000 {
            PopulationType::Halo
        } else if az > 400_000 {
            PopulationType::ThickDisk
        } else {
            PopulationType::ThinDisk
        }
    }

    /// The metallicity offset of the population, in thousandths of a dex.
    pub open spec fn spec_base_metallicity(self) -> i64 {
        match self {
            PopulationType::ThinDisk => 0i64,
            PopulationType::ThickDisk => -500i64,
            PopulationType::Bulge => 300i64,
            PopulationType::Halo => -1500i64,
        }
    }

    /// The metallicity `[Fe/H]` of the population at the solar radius, in
    /// thousandths of a dex; it falls by 0.07 dex per kiloparsec outwards.
    pub fn base_metallicity(&self) -> (r: i64)
        ensures
            r == self.spec_base_metallicity(),
    {
        match self {
            PopulationType::ThinDisk => 0,
            PopulationType::ThickDisk => -500,
            PopulationType::Bulge => 300,
            PopulationType::Halo => -1500,
        }
    }

    /// The density profile of the population, with its peak in millionths
    /// of a star per cubic parsec.
    pub open spec fn spec_density_profile(self) -> DensityProfile {
        match self {
            PopulationType::ThinDisk => DensityProfile::ExponentialDisk {
                peak_micro_stars: 100_000,
                scale_length_pc: 2600,
                scale_height_pc: 300,
            },
            PopulationType::ThickDisk => DensityProfile::ExponentialDisk {
                peak_micro_stars: 20_000,
                scale_length_pc: 3600,
                scale_height_pc: 900,
            },
            PopulationType::Bulge => DensityProfile::DeVaucouleurs {
                peak_micro_stars: 500_000,
                effective_radius_pc: 2500,
            },
            PopulationType::Halo => DensityProfile::SphericalPowerLaw {
                peak_micro_stars: 100,
                reference_radius_pc: 8000,
                slope_tenths: 35,
            },
        }
    }

    /// The density profile of the population.
    pub fn density_profile(&self) -> (r: DensityProfile)
        ensures
            r == self.spec_density_profile(),
    {
        match self {
            PopulationType::ThinDisk => DensityProfile::ExponentialDisk {
                peak_micro_stars: 100_000,
                scale_length_pc: 2600,
                scale_height_pc: 300,
            },
            PopulationType::ThickDisk => DensityProfile::ExponentialDisk {
                peak_micro_stars: 20_000,
                scale_length_pc: 3600,
                scale_height_pc: 900,
            },
            PopulationType::Bulge => DensityProfile::DeVaucouleurs {
                peak_micro_stars: 500_000,
                effective_radius_pc: 2500,
            },
            PopulationType::Halo => DensityProfile::SphericalPowerLaw {
                peak_micro_stars: 100,
                reference_radius_pc: 8000,
                slope_tenths: 35,
            },
        }
    }

    /// Whether the population carries spiral structure: the thin disk only.
    pub fn has_spiral_arms(&self) -> (r: bool)
        ensures
            r == (*self == PopulationType::ThinDisk),
    {
        matches!(self, PopulationType::ThinDisk)
    }
}

/// The density, in millionths of a star per cubic parsec, at which every
/// draw admits a system: the peak density of the thin disk.
pub const REFERENCE_DENSITY_MICRO_STARS: u64 = 100_000;

/// A roll of `0..ROLL_SPAN` admits a system where the local density is
/// `density` millionths of a star per cubic parsec: the roll, as a fraction
/// of `ROLL_SPAN`, is at most the density as a fraction of the reference.
pub open spec fn roll_admits(roll: nat, density: nat) -> bool {
    roll * REFERENCE_DENSITY_MICRO_STARS <= density * ROLL_SPAN
}

/// Whether a roll of `0..ROLL_SPAN` admits a system where the local density
/// is `star_density_micro` millionths of a star per cubic parsec.
pub fn admits_roll(roll: u64, star_density_micro: u64) -> (r: bool)
    requires
        roll < ROLL_SPAN,
    ensures
        r == roll_admits(roll as nat, star_density_micro as nat),
{
    assert(roll as u128 * REFERENCE_DENSITY_MICRO_STARS as u128 <= ROLL_SPAN * 100_000) by (nonlinear_arith)
        requires
            roll < ROLL_SPAN,
            REFERENCE_DENSITY_MICRO_STARS == 100_000,
    ;
    assert(star_density_micro as u128 * ROLL_SPAN as u128 <= 0xffff_ffff_ffff_ffffu128 * ROLL_SPAN) by (nonlinear_arith)
        requires
            star_density_micro <= 0xffff_ffff_ffff_ffffu64,
    ;
    roll as u128 * REFERENCE_DENSITY_MICRO_STARS as u128 <= star_density_micro as u128 * ROLL_SPAN as u128
}

/// Whether the system of `seed` exists where the local density is
/// `star_density_micro` millionths of a star per cubic parsec: it does with
/// probability `density / reference`, decided by the roll of the first word
/// of the stream seeded with `seed`. At or above the reference it always
/// does.
pub fn admits_system(seed: u64, star_density_micro: u64) -> (r: bool)
    ensures
        r == roll_admits(spec_roll_of(seeded_word(seed, 0)) as nat, star_density_micro as nat),
        star_density_micro >= REFERENCE_DENSITY_MICRO_STARS ==> r,
{
    let words = seeded_words(seed, 1);
    let roll = roll_of(words[0]);
    let r = admits_roll(roll, star_density_micro);
    proof {
        if star_density_micro >= REFERENCE_DENSITY_MICRO_STARS {
            assert(roll * REFERENCE_DENSITY_MICRO_STARS <= star_density_micro * ROLL_SPAN) by (nonlinear_arith)
                requires
                    roll < ROLL_SPAN,
                    star_density_micro >= REFERENCE_DENSITY_MICRO_STARS,
            ;
        }
    }
    r
}

/// The shape of the galaxy: fixed configuration, not generated state.
#[derive(Clone, Copy, Debug, PartialEq, Eq, Structural)]
pub struct Galaxy {
    /// Radius in parsecs.
    pub radius_pc: u64,
    /// Height of the disk in parsecs.
    pub disk_height_pc: u64,
    /// Radius of the bulge in parsecs.
    pub bulge_radius_pc: u64,
    pub spiral_arms: u64,
    /// Pitch angle of the spiral arms, in tenths of a degree.
    pub pitch_angle_decidegrees: u64,
}

impl Galaxy {
    /// A galaxy like the Milky Way: 50 kpc in radius, a 1 kpc disk, a 3 kpc
    /// bulge and four logarithmic arms pitched at 12.5 degrees.
    pub fn new() -> (r: Galaxy)
        ensures
            r == (Galaxy {
                radius_pc: 50_000,
                disk_height_pc: 1000,
                bulge_radius_pc: 3000,
                spiral_arms: 4,
                pitch_angle_decidegrees: 125,
            }),
    {
        Galaxy {
            radius_pc: 50_000,
            disk_height_pc: 1000,
            bulge_radius_pc: 3000,
            spiral_arms: 4,
            pitch_angle_decidegrees: 125,
        }
    }
}

} // verus!
