//! Small bodies: asteroids, comets and Kuiper belt objects. A body's traits
//! depend only on its system's seed and its exact position, never on the
//! order in which bodies are generated.

use vstd::prelude::*;

use crate::random::{lemma_roll_below_span, roll_of, scaled, seeded_words, spec_roll_of, spec_scaled, stream_prefix, within, ROLL_SPAN};
use crate::stellar::StellarType;

verus! {

/// Element abundances are given in parts per `PARTS_PER_BILLION`.
pub const PARTS_PER_BILLION: u64 = 1_000_000_000;

/// Micrometres in one AU: positions are given in micrometres.
pub const AU_MICROMETRES: u128 = 149_600_000_000_000_000;

#[derive(Clone, Copy, Debug, PartialEq, Eq, Hash, Structural)]
pub enum SmallBodyType {
    /// Silicate-rich main belt asteroid.
    RockyAsteroid,
    /// Iron-nickel rich asteroid.
    MetallicAsteroid,
    /// Volatile-rich outer system asteroid.
    IcyAsteroid,
    /// Jupiter-family comet.
    ShortPeriodComet,
    /// Oort cloud comet.
    LongPeriodComet,
    /// Outer system body with a chaotic orbit.
    Centaur,
    /// Trans-Neptunian object.
    KuiperBeltObject,
}

/// The seed of the body at the quantized position `(x, y, z)` of a system
/// of seed `system_seed`: each coordinate is multiplied by its own large odd
/// prime, the three products are combined by exclusive or, and the result is
/// added to the system's seed, all wrapping.
pub open spec fn spec_body_seed(system_seed: u64, x: i64, y: i64, z: i64) -> u64 {
    system_seed.wrapping_add(
        (x.wrapping_mul(73856093) ^ y.wrapping_mul(19349663) ^ z.wrapping_mul(83492791)) as u64,
    )
}

/// The seed of the body at the quantized position `(x, y, z)`.
pub fn body_seed(system_seed: u64, x: i64, y: i64, z: i64) -> (r: u64)
    ensures
        r == spec_body_seed(system_seed, x, y, z),
{
    let mixed = x.wrapping_mul(73856093) ^ y.wrapping_mul(19349663) ^ z.wrapping_mul(83492791);
    system_seed.wrapping_add(mixed as u64)
}

/// The square of the distance from the origin of `(x, y, z)`.
pub open spec fn squared_norm(x: int, y: int, z: int) -> int {
    x * x + y * y + z * z
}

/// The point `(x, y, z)`, in micrometres, lies closer to the star than `au`
/// AU.
pub open spec fn closer_than(x: i64, y: i64, z: i64, au: nat) -> bool {
    squared_norm(x as int, y as int, z as int) < (au * AU_MICROMETRES) * (au * AU_MICROMETRES)
}

/// The type of a small body at position `(x, y, z)` (micrometres) for a roll
/// of `0..ROLL_SPAN`, each share below taken as `ceil(share * ROLL_SPAN)`
/// rolls: within 2 AU rocky (70%) or metallic asteroids; within 5 AU
/// rocky (50%), metallic (30%) or icy asteroids; within 30 AU icy asteroids
/// (40%), centaurs (30%) or short-period comets; farther out Kuiper belt
/// objects (70%) or long-period comets.
pub open spec fn type_of_roll(x: i64, y: i64, z: i64, roll: nat) -> SmallBodyType {
    if closer_than(x, y, z, 2) {
        if roll < 6_305_039_478_318_694 { SmallBodyType::RockyAsteroid } else { SmallBodyType::MetallicAsteroid }
    } else if closer_than(x, y, z, 5) {
        if roll < 4_503_599_627_370_496 {
            SmallBodyType::RockyAsteroid
        } else if roll < 7_205_759_403_792_794 {
            SmallBodyType::MetallicAsteroid
        } else {
            SmallBodyType::IcyAsteroid
        }
    } else if closer_than(x, y, z, 30) {
        if roll < 3_602_879_701_896_397 {
            SmallBodyType::IcyAsteroid
        } else if roll < 6_305_039_478_318_694 {
            SmallBodyType::Centaur
        } else {
            SmallBodyType::ShortPeriodComet
        }
    } else {
        if roll < 6_305_039_478_318_694 { SmallBodyType::KuiperBeltObject } else { SmallBodyType::LongPeriodComet }
    }
}

/// Whether `(x, y, z)`, in micrometres, lies closer to the star than `au`
/// AU.
fn is_closer_than(x: i64, y: i64, z: i64, au: u128) -> (r: bool)
    requires
        au <= 30,
    ensures
        r == closer_than(x, y, z, au as nat),
{
    let ax = if x < 0 { -(x as i128) } else { x as i128 } as u128;
    let ay = if y < 0 { -(y as i128) } else { y as i128 } as u128;
    let az = if z < 0 { -(z as i128) } else { z as i128 } as u128;
    assert(ax * ax <= 0x8000_0000_0000_0000u128 * 0x8000_0000_0000_0000u128) by (nonlinear_arith)
        requires
            ax <= 0x8000_0000_0000_0000u128,
    ;
    assert(ay * ay <= 0x8000_0000_0000_0000u128 * 0x8000_0000_0000_0000u128) by (nonlinear_arith)
        requires
            ay <= 0x8000_0000_0000_0000u128,
    ;
    assert(az * az <= 0x8000_0000_0000_0000u128 * 0x8000_0000_0000_0000u128) by (nonlinear_arith)
        requires
            az <= 0x8000_0000_0000_0000u128,
    ;
    assert(ax * ax == (x as int) * (x as int)) by (nonlinear_arith)
        requires
            ax == x || ax == -x,
    ;
    assert(ay * ay == (y as int) * (y as int)) by (nonlinear_arith)
        requires
            ay == y || ay == -y,
    ;
    assert(az * az == (z as int) * (z as int)) by (nonlinear_arith)
        requires
            az == z || az == -z,
    ;
    let limit = au * AU_MICROMETRES;
    let sum_xy = ax * ax + ay * ay;
    assert(limit * limit <= 4_488_000_000_000_000_000u128 * 4_488_000_000_000_000_000u128) by (nonlinear_arith)
        requires
            limit <= 4_488_000_000_000_000_000u128,
    ;
    let bound = limit * limit;
    if sum_xy >= bound {
        false
    } else {
        sum_xy + az * az < bound
    }
}

impl SmallBodyType {
    /// Picks the type of a small body at position `(x, y, z)`, in
    /// micrometres, for a roll of `0..ROLL_SPAN`.
    pub fn from_roll(x: i64, y: i64, z: i64, roll: u64) -> (r: SmallBodyType)
        requires
            roll < ROLL_SPAN,
        ensures
            r == type_of_roll(x, y, z, roll as nat),
    {
        if is_closer_than(x, y, z, 2) {
            if roll < 6_305_039_478_318_694 {
                SmallBodyType::RockyAsteroid
            } else {
                SmallBodyType::MetallicAsteroid
            }
        } else if is_closer_than(x, y, z, 5) {
            if roll < 4_503_599_627_370_496 {
                SmallBodyType::RockyAsteroid
            } else if roll < 7_205_759_403_792_794 {
                SmallBodyType::MetallicAsteroid
            } else {
                SmallBodyType::IcyAsteroid
            }
        } else if is_closer_than(x, y, z, 30) {
            if roll < 3_602_879_701_896_397 {
                SmallBodyType::IcyAsteroid
            } else if roll < 6_305_039_478_318_694 {
                SmallBodyType::Centaur
            } else {
                SmallBodyType::ShortPeriodComet
            }
        } else {
            if roll < 6_305_039_478_318_694 {
                SmallBodyType::KuiperBeltObject
            } else {
                SmallBodyType::LongPeriodComet
            }
        }
    }
}

/// Abundances of nine elements and compounds, in parts per
/// `PARTS_PER_BILLION`.
#[derive(Clone, Copy, Debug, PartialEq, Eq, Structural)]
pub struct ElementDistribution {
    pub iron: u64,
    pub nickel: u64,
    pub gold: u64,
    pub platinum: u64,
    pub rare_earth: u64,
    pub water_ice: u64,
    pub methane_ice: u64,
    pub silicates: u64,
    pub carbon: u64,
}

/// `part` is `whole`'s share of `total`, in parts per billion, rounded down:
/// `part / PARTS_PER_BILLION <= whole / total < (part + 1) / PARTS_PER_BILLION`.
pub open spec fn share_of(part: u64, whole: u64, total: int) -> bool {
    &&& part * total <= whole * PARTS_PER_BILLION
    &&& whole * PARTS_PER_BILLION < (part + 1) * total
}

/// `whole`'s share of `total`, in parts per billion, rounded down.
pub open spec fn spec_share(whole: u64, total: int) -> u64 {
    (whole * PARTS_PER_BILLION / total) as u64
}

/// `whole`'s share of `total`, in parts per billion, rounded down.
fn share(whole: u64, total: u128) -> (r: u64)
    requires
        0 < total,
        whole <= total,
        total <= 9 * 0xffff_ffff_ffff_ffffu128,
    ensures
        r == spec_share(whole, total as int),
        share_of(r, whole, total as int),
        r <= PARTS_PER_BILLION,
{
    assert(whole * PARTS_PER_BILLION <= 0xffff_ffff_ffff_ffffu128 * PARTS_PER_BILLION) by (nonlinear_arith)
        requires
            whole <= 0xffff_ffff_ffff_ffffu64,
    ;
    let scaled = whole as u128 * PARTS_PER_BILLION as u128;
    let q = scaled / total;
    assert(q * total <= scaled && scaled < (q + 1) * total) by (nonlinear_arith)
        requires
            q == scaled / total,
            0 < total,
    ;
    assert(q <= PARTS_PER_BILLION) by (nonlinear_arith)
        requires
            q * total <= scaled,
            scaled == whole * PARTS_PER_BILLION,
            whole <= total,
            0 < total,
    ;
    q as u64
}

impl ElementDistribution {
    /// The sum of the nine abundances.
    pub open spec fn spec_total(self) -> int {
        self.iron + self.nickel + self.gold + self.platinum + self.rare_earth + self.water_ice + self.methane_ice + self.silicates + self.carbon
    }

    /// Every abundance lies in the range the two bounds give it.
    pub open spec fn lies_between(self, low: ElementDistribution, high: ElementDistribution) -> bool {
        &&& within(self.iron, (low.iron, high.iron))
        &&& within(self.nickel, (low.nickel, high.nickel))
        &&& within(self.gold, (low.gold, high.gold))
        &&& within(self.platinum, (low.platinum, high.platinum))
        &&& within(self.rare_earth, (low.rare_earth, high.rare_earth))
        &&& within(self.water_ice, (low.water_ice, high.water_ice))
        &&& within(self.methane_ice, (low.methane_ice, high.methane_ice))
        &&& within(self.silicates, (low.silicates, high.silicates))
        &&& within(self.carbon, (low.carbon, high.carbon))
    }

    /// Every abundance is at most `bound`.
    pub open spec fn bounded_by(self, bound: u64) -> bool {
        &&& self.iron <= bound
        &&& self.nickel <= bound
        &&& self.gold <= bound
        &&& self.platinum <= bound
        &&& self.rare_earth <= bound
        &&& self.water_ice <= bound
        &&& self.methane_ice <= bound
        &&& self.silicates <= bound
        &&& self.carbon <= bound
    }

    /// The abundances rescaled to one billion parts: each but carbon its
    /// share rounded down, carbon the rest.
    pub open spec fn spec_normalized(self) -> ElementDistribution {
        let t = self.spec_total();
        ElementDistribution {
            iron: spec_share(self.iron, t),
            nickel: spec_share(self.nickel, t),
            gold: spec_share(self.gold, t),
            platinum: spec_share(self.platinum, t),
            rare_earth: spec_share(self.rare_earth, t),
            water_ice: spec_share(self.water_ice, t),
            methane_ice: spec_share(self.methane_ice, t),
            silicates: spec_share(self.silicates, t),
            carbon: (PARTS_PER_BILLION - (spec_share(self.iron, t) + spec_share(self.nickel, t) + spec_share(self.gold, t) + spec_share(self.platinum, t) + spec_share(self.rare_earth, t) + spec_share(self.water_ice, t) + spec_share(self.methane_ice, t) + spec_share(self.silicates, t))) as u64,
        }
    }

    /// The same proportions, rescaled to sum to exactly one billion parts:
    /// every abundance but carbon is its share rounded down, and carbon
    /// takes what rounding left, so it is never below its own share.
    pub fn normalized(&self) -> (r: ElementDistribution)
        requires
            self.spec_total() > 0,
        ensures
            r == self.spec_normalized(),
            r.spec_total() == PARTS_PER_BILLION,
            share_of(r.iron, self.iron, self.spec_total()),
            share_of(r.nickel, self.nickel, self.spec_total()),
            share_of(r.gold, self.gold, self.spec_total()),
            share_of(r.platinum, self.platinum, self.spec_total()),
            share_of(r.rare_earth, self.rare_earth, self.spec_total()),
            share_of(r.water_ice, self.water_ice, self.spec_total()),
            share_of(r.methane_ice, self.methane_ice, self.spec_total()),
            share_of(r.silicates, self.silicates, self.spec_total()),
            r.carbon * self.spec_total() >= self.carbon * PARTS_PER_BILLION,
    {
        let total: u128 = self.iron as u128 + self.nickel as u128 + self.gold as u128 + self.platinum as u128
            + self.rare_earth as u128 + self.water_ice as u128 + self.methane_ice as u128
            + self.silicates as u128 + self.carbon as u128;
        let iron = share(self.iron, total);
        let nickel = share(self.nickel, total);
        let gold = share(self.gold, total);
        let platinum = share(self.platinum, total);
        let rare_earth = share(self.rare_earth, total);
        let water_ice = share(self.water_ice, total);
        let methane_ice = share(self.methane_ice, total);
        let silicates = share(self.silicates, total);
        let ghost t = total as int;
        let ghost s = PARTS_PER_BILLION as int;
        let others = iron + nickel + gold + platinum + rare_earth + water_ice + methane_ice + silicates;
        let ghost rest = self.iron + self.nickel + self.gold + self.platinum + self.rare_earth + self.water_ice
            + self.methane_ice + self.silicates;
        assert(others * t <= rest * s) by (nonlinear_arith)
            requires
                others == iron + nickel + gold + platinum + rare_earth + water_ice + methane_ice + silicates,
                rest == self.iron + self.nickel + self.gold + self.platinum + self.rare_earth + self.water_ice
                    + self.methane_ice + self.silicates,
                iron * t <= self.iron * s,
                nickel * t <= self.nickel * s,
                gold * t <= self.gold * s,
                platinum * t <= self.platinum * s,
                rare_earth * t <= self.rare_earth * s,
                water_ice * t <= self.water_ice * s,
                methane_ice * t <= self.methane_ice * s,
                silicates * t <= self.silicates * s,
        ;
        assert(others <= PARTS_PER_BILLION) by (nonlinear_arith)
            requires
                others * t <= rest * s,
                rest <= t,
                t > 0,
                s == PARTS_PER_BILLION,
        ;
        let carbon = PARTS_PER_BILLION - others;
        assert(carbon * t >= self.carbon * s) by (nonlinear_arith)
            requires
                carbon == s - others,
                others * t <= rest * s,
                t == rest + self.carbon,
        ;
        ElementDistribution {
            iron,
            nickel,
            gold,
            platinum,
            rare_earth,
            water_ice,
            methane_ice,
            silicates,
            carbon,
        }
    }
}

impl SmallBodyType {
    /// The ranges the abundances of a body of this type are drawn from.
    pub open spec fn spec_element_ranges(self) -> (ElementDistribution, ElementDistribution) {
        match self {
            SmallBodyType::MetallicAsteroid => (
                ElementDistribution { iron: 500_000_000, nickel: 100_000_000, gold: 1000, platinum: 1000, rare_earth: 100_000, water_ice: 0, methane_ice: 0, silicates: 50_000_000, carbon: 10_000_000 },
                ElementDistribution { iron: 800_000_000, nickel: 200_000_000, gold: 10_000, platinum: 10_000, rare_earth: 1_000_000, water_ice: 0, methane_ice: 0, silicates: 200_000_000, carbon: 50_000_000 },
            ),
            SmallBodyType::RockyAsteroid => (
                ElementDistribution { iron: 100_000_000, nickel: 10_000_000, gold: 100, platinum: 100, rare_earth: 10_000, water_ice: 0, methane_ice: 0, silicates: 600_000_000, carbon: 50_000_000 },
                ElementDistribution { iron: 300_000_000, nickel: 50_000_000, gold: 1000, platinum: 1000, rare_earth: 100_000, water_ice: 0, methane_ice: 0, silicates: 800_000_000, carbon: 100_000_000 },
            ),
            SmallBodyType::IcyAsteroid | SmallBodyType::ShortPeriodComet | SmallBodyType::LongPeriodComet => (
                ElementDistribution { iron: 10_000_000, nickel: 1_000_000, gold: 10, platinum: 10, rare_earth: 1000, water_ice: 300_000_000, methane_ice: 100_000_000, silicates: 100_000_000, carbon: 50_000_000 },
                ElementDistribution { iron: 50_000_000, nickel: 10_000_000, gold: 100, platinum: 100, rare_earth: 10_000, water_ice: 600_000_000, methane_ice: 300_000_000, silicates: 300_000_000, carbon: 150_000_000 },
            ),
            SmallBodyType::Centaur | SmallBodyType::KuiperBeltObject => (
                ElementDistribution { iron: 50_000_000, nickel: 10_000_000, gold: 100, platinum: 100, rare_earth: 10_000, water_ice: 200_000_000, methane_ice: 100_000_000, silicates: 200_000_000, carbon: 100_000_000 },
                ElementDistribution { iron: 150_000_000, nickel: 30_000_000, gold: 1000, platinum: 1000, rare_earth: 100_000, water_ice: 400_000_000, methane_ice: 200_000_000, silicates: 400_000_000, carbon: 200_000_000 },
            ),
        }
    }

    /// The ranges `(low, high)` the abundances of a body of this type are
    /// drawn from, each half-open, in parts per billion.
    pub fn element_ranges(&self) -> (r: (ElementDistribution, ElementDistribution))
        ensures
            r == self.spec_element_ranges(),
    {
        match self {
            SmallBodyType::MetallicAsteroid => (
                ElementDistribution { iron: 500_000_000, nickel: 100_000_000, gold: 1000, platinum: 1000, rare_earth: 100_000, water_ice: 0, methane_ice: 0, silicates: 50_000_000, carbon: 10_000_000 },
                ElementDistribution { iron: 800_000_000, nickel: 200_000_000, gold: 10_000, platinum: 10_000, rare_earth: 1_000_000, water_ice: 0, methane_ice: 0, silicates: 200_000_000, carbon: 50_000_000 },
            ),
            SmallBodyType::RockyAsteroid => (
                ElementDistribution { iron: 100_000_000, nickel: 10_000_000, gold: 100, platinum: 100, rare_earth: 10_000, water_ice: 0, methane_ice: 0, silicates: 600_000_000, carbon: 50_000_000 },
                ElementDistribution { iron: 300_000_000, nickel: 50_000_000, gold: 1000, platinum: 1000, rare_earth: 100_000, water_ice: 0, methane_ice: 0, silicates: 800_000_000, carbon: 100_000_000 },
            ),
            SmallBodyType::IcyAsteroid | SmallBodyType::ShortPeriodComet | SmallBodyType::LongPeriodComet => (
                ElementDistribution { iron: 10_000_000, nickel: 1_000_000, gold: 10, platinum: 10, rare_earth: 1000, water_ice: 300_000_000, methane_ice: 100_000_000, silicates: 100_000_000, carbon: 50_000_000 },
                ElementDistribution { iron: 50_000_000, nickel: 10_000_000, gold: 100, platinum: 100, rare_earth: 10_000, water_ice: 600_000_000, methane_ice: 300_000_000, silicates: 300_000_000, carbon: 150_000_000 },
            ),
            SmallBodyType::Centaur | SmallBodyType::KuiperBeltObject => (
                ElementDistribution { iron: 50_000_000, nickel: 10_000_000, gold: 100, platinum: 100, rare_earth: 10_000, water_ice: 200_000_000, methane_ice: 100_000_000, silicates: 200_000_000, carbon: 100_000_000 },
                ElementDistribution { iron: 150_000_000, nickel: 30_000_000, gold: 1000, platinum: 1000, rare_earth: 100_000, water_ice: 400_000_000, methane_ice: 200_000_000, silicates: 400_000_000, carbon: 200_000_000 },
            ),
        }
    }

    /// The abundances that nine words give, each scaled into this type's
    /// range.
    pub open spec fn spec_elements_from(self, words: Seq<u64>) -> ElementDistribution {
        let (low, high) = self.spec_element_ranges();
        ElementDistribution {
            iron: spec_scaled(words[0], (low.iron, high.iron)),
            nickel: spec_scaled(words[1], (low.nickel, high.nickel)),
            gold: spec_scaled(words[2], (low.gold, high.gold)),
            platinum: spec_scaled(words[3], (low.platinum, high.platinum)),
            rare_earth: spec_scaled(words[4], (low.rare_earth, high.rare_earth)),
            water_ice: spec_scaled(words[5], (low.water_ice, high.water_ice)),
            methane_ice: spec_scaled(words[6], (low.methane_ice, high.methane_ice)),
            silicates: spec_scaled(words[7], (low.silicates, high.silicates)),
            carbon: spec_scaled(words[8], (low.carbon, high.carbon)),
        }
    }

    /// The abundances that the nine words `words[first..first + 9]` give.
    pub fn elements_from(&self, words: &Vec<u64>, first: usize) -> (r: ElementDistribution)
        requires
            first + 9 <= words@.len(),
        ensures
            r == self.spec_elements_from(words@.skip(first as int)),
            r.lies_between(self.spec_element_ranges().0, self.spec_element_ranges().1),
    {
        let (low, high) = self.element_ranges();
        let available = words.len();
        assert(first + 9 <= available);
        ElementDistribution {
            iron: scaled(words[first + 0], (low.iron, high.iron)),
            nickel: scaled(words[first + 1], (low.nickel, high.nickel)),
            gold: scaled(words[first + 2], (low.gold, high.gold)),
            platinum: scaled(words[first + 3], (low.platinum, high.platinum)),
            rare_earth: scaled(words[first + 4], (low.rare_earth, high.rare_earth)),
            water_ice: scaled(words[first + 5], (low.water_ice, high.water_ice)),
            methane_ice: scaled(words[first + 6], (low.methane_ice, high.methane_ice)),
            silicates: scaled(words[first + 7], (low.silicates, high.silicates)),
            carbon: scaled(words[first + 8], (low.carbon, high.carbon)),
        }
    }
}

/// `r` is `e` rescaled to one billion parts, as `normalized` rescales it.
pub open spec fn normalizes(r: ElementDistribution, e: ElementDistribution) -> bool {
    let t = e.spec_total();
    &&& r.spec_total() == PARTS_PER_BILLION
    &&& share_of(r.iron, e.iron, t)
    &&& share_of(r.nickel, e.nickel, t)
    &&& share_of(r.gold, e.gold, t)
    &&& share_of(r.platinum, e.platinum, t)
    &&& share_of(r.rare_earth, e.rare_earth, t)
    &&& share_of(r.water_ice, e.water_ice, t)
    &&& share_of(r.methane_ice, e.methane_ice, t)
    &&& share_of(r.silicates, e.silicates, t)
    &&& r.carbon * t >= e.carbon * PARTS_PER_BILLION
}

/// The abundances after the host star's history: around a neutron star or a
/// black hole iron and nickel are enriched by half and the precious metals
/// and rare earths doubled; around a giant, within 5 AU, the ices are
/// halved; otherwise they are unchanged. Each product is rounded down.
pub open spec fn spec_adjusted(e: ElementDistribution, host: StellarType, near_star: bool) -> ElementDistribution {
    match host {
        StellarType::NeutronStar | StellarType::BlackHole => ElementDistribution {
            iron: (e.iron * 3 / 2) as u64,
            nickel: (e.nickel * 3 / 2) as u64,
            gold: (e.gold * 2) as u64,
            platinum: (e.platinum * 2) as u64,
            rare_earth: (e.rare_earth * 2) as u64,
            ..e
        },
        StellarType::RedGiant | StellarType::SuperGiant | StellarType::HyperGiant => if near_star {
            ElementDistribution { water_ice: e.water_ice / 2, methane_ice: e.methane_ice / 2, ..e }
        } else {
            e
        },
        _ => e,
    }
}

/// Applies the host star's adjustment to drawn abundances.
pub fn adjusted(e: ElementDistribution, host: StellarType, near_star: bool) -> (r: ElementDistribution)
    requires
        e.bounded_by(PARTS_PER_BILLION),
    ensures
        r == spec_adjusted(e, host, near_star),
        r.bounded_by(2_000_000_000),
{
    match host {
        StellarType::NeutronStar | StellarType::BlackHole => ElementDistribution {
            iron: e.iron * 3 / 2,
            nickel: e.nickel * 3 / 2,
            gold: e.gold * 2,
            platinum: e.platinum * 2,
            rare_earth: e.rare_earth * 2,
            ..e
        },
        StellarType::RedGiant | StellarType::SuperGiant | StellarType::HyperGiant => if near_star {
            ElementDistribution { water_ice: e.water_ice / 2, methane_ice: e.methane_ice / 2, ..e }
        } else {
            e
        },
        _ => e,
    }
}

/// Rotation periods of small bodies are drawn from this range, in
/// thousandths of an hour.
pub const ROTATION_RANGE_MILLI_HOURS: (u64, u64) = (100, 100_000);

impl SmallBodyType {
    /// The range of the mass, as powers of ten of kilograms.
    pub open spec fn spec_mass_decades(self) -> (u32, u32) {
        match self {
            SmallBodyType::RockyAsteroid | SmallBodyType::MetallicAsteroid => (13, 19),
            SmallBodyType::IcyAsteroid | SmallBodyType::Centaur => (15, 20),
            SmallBodyType::ShortPeriodComet | SmallBodyType::LongPeriodComet => (12, 15),
            SmallBodyType::KuiperBeltObject => (18, 22),
        }
    }

    /// The range `(low, high)` the mass is drawn from: from `10^low` to
    /// `10^high` kilograms.
    pub fn mass_decades(&self) -> (r: (u32, u32))
        ensures
            r == self.spec_mass_decades(),
    {
        match self {
            SmallBodyType::RockyAsteroid | SmallBodyType::MetallicAsteroid => (13, 19),
            SmallBodyType::IcyAsteroid | SmallBodyType::Centaur => (15, 20),
            SmallBodyType::ShortPeriodComet | SmallBodyType::LongPeriodComet => (12, 15),
            SmallBodyType::KuiperBeltObject => (18, 22),
        }
    }

    /// The range of the bulk density, in kilograms per cubic metre.
    pub open spec fn spec_density_range(self) -> (u64, u64) {
        match self {
            SmallBodyType::MetallicAsteroid => (4500, 8000),
            SmallBodyType::RockyAsteroid => (2500, 4000),
            SmallBodyType::IcyAsteroid | SmallBodyType::Centaur => (1000, 2000),
            SmallBodyType::ShortPeriodComet | SmallBodyType::LongPeriodComet => (500, 1000),
            SmallBodyType::KuiperBeltObject => (1500, 2500),
        }
    }

    /// The half-open range `(min, max)` the bulk density is drawn from, in
    /// kilograms per cubic metre.
    pub fn density_range(&self) -> (r: (u64, u64))
        ensures
            r == self.spec_density_range(),
    {
        match self {
            SmallBodyType::MetallicAsteroid => (4500, 8000),
            SmallBodyType::RockyAsteroid => (2500, 4000),
            SmallBodyType::IcyAsteroid | SmallBodyType::Centaur => (1000, 2000),
            SmallBodyType::ShortPeriodComet | SmallBodyType::LongPeriodComet => (500, 1000),
            SmallBodyType::KuiperBeltObject => (1500, 2500),
        }
    }
}

/// The number of words of the stream a small body's traits take.
pub const BODY_WORDS: usize = 13;

/// The drawn, integer-valued traits of a small body. Its mass, radius,
/// gravity and escape velocity are derived from these.
#[derive(Clone, Copy, Debug, PartialEq, Eq, Structural)]
pub struct SmallBodyProfile {
    /// The seed the body was generated from.
    pub seed: u64,
    pub body_type: SmallBodyType,
    pub elements: ElementDistribution,
    /// Bulk density in kilograms per cubic metre.
    pub density_kg_m3: u64,
    /// Rotation period in thousandths of an hour.
    pub rotation_milli_hours: u64,
    /// Where the mass lies between the ends of the type's mass range, as a
    /// roll of `0..ROLL_SPAN`.
    pub mass_roll: u64,
}

impl SmallBodyProfile {
    /// The body whose traits the words give, at quantized position
    /// `(x, y, z)` (micrometres from the star) around a star of type `host`:
    /// its type from the first word's roll and the distance band, its nine
    /// abundances from the next nine words, adjusted for the host and
    /// normalized, then its density, rotation and mass from one word each.
    pub open spec fn spec_from_words(seed: u64, x: i64, y: i64, z: i64, host: StellarType, words: Seq<u64>) -> SmallBodyProfile {
        let body_type = type_of_roll(x, y, z, spec_roll_of(words[0]) as nat);
        let drawn = body_type.spec_elements_from(words.skip(1));
        SmallBodyProfile {
            seed,
            body_type,
            elements: spec_adjusted(drawn, host, closer_than(x, y, z, 5)).spec_normalized(),
            density_kg_m3: spec_scaled(words[10], body_type.spec_density_range()),
            rotation_milli_hours: spec_scaled(words[11], ROTATION_RANGE_MILLI_HOURS),
            mass_roll: spec_roll_of(words[12]),
        }
    }

    /// The body at quantized position `(x, y, z)` of the system of seed
    /// `system_seed` around a star of type `host`: the traits the stream
    /// seeded with the position's seed gives.
    pub open spec fn of_position(system_seed: u64, x: i64, y: i64, z: i64, host: StellarType) -> SmallBodyProfile {
        let seed = spec_body_seed(system_seed, x, y, z);
        Self::spec_from_words(seed, x, y, z, host, stream_prefix(seed, BODY_WORDS as nat))
    }

    /// The profile is that of a body at quantized position `(x, y, z)` in
    /// the system of seed `system_seed` around a star of type `host`: its
    /// seed is the position's, its type that of its distance band, its
    /// abundances drawn from the type's ranges, adjusted for the host and
    /// normalized, and its density and rotation within their ranges.
    pub open spec fn fits(self, system_seed: u64, x: i64, y: i64, z: i64, host: StellarType) -> bool {
        let (low, high) = self.body_type.spec_element_ranges();
        &&& self.seed == spec_body_seed(system_seed, x, y, z)
        &&& exists|roll: nat| roll < ROLL_SPAN && self.body_type == #[trigger] type_of_roll(x, y, z, roll)
        &&& exists|drawn: ElementDistribution|
            drawn.lies_between(low, high) && normalizes(
                self.elements,
                #[trigger] spec_adjusted(drawn, host, closer_than(x, y, z, 5)),
            )
        &&& within(self.density_kg_m3, self.body_type.spec_density_range())
        &&& within(self.rotation_milli_hours, ROTATION_RANGE_MILLI_HOURS)
        &&& self.mass_roll < ROLL_SPAN
    }

    /// The body of seed `seed` at quantized position `(x, y, z)` around a
    /// star of type `host` whose traits the words give.
    pub fn from_words(seed: u64, x: i64, y: i64, z: i64, host: StellarType, words: &Vec<u64>) -> (r:
        SmallBodyProfile)
        requires
            words@.len() >= BODY_WORDS,
        ensures
            r == Self::spec_from_words(seed, x, y, z, host, words@),
            r.body_type.spec_elements_from(words@.skip(1)).lies_between(
                r.body_type.spec_element_ranges().0,
                r.body_type.spec_element_ranges().1,
            ),
            normalizes(
                r.elements,
                spec_adjusted(r.body_type.spec_elements_from(words@.skip(1)), host, closer_than(x, y, z, 5)),
            ),
            within(r.density_kg_m3, r.body_type.spec_density_range()),
            within(r.rotation_milli_hours, ROTATION_RANGE_MILLI_HOURS),
            r.mass_roll < ROLL_SPAN,
    {
        let roll = roll_of(words[0]);
        let body_type = SmallBodyType::from_roll(x, y, z, roll);
        let drawn = body_type.elements_from(words, 1);
        let near_star = is_closer_than(x, y, z, 5);
        let raw = adjusted(drawn, host, near_star);
        let elements = raw.normalized();
        SmallBodyProfile {
            seed,
            body_type,
            elements,
            density_kg_m3: scaled(words[10], body_type.density_range()),
            rotation_milli_hours: scaled(words[11], ROTATION_RANGE_MILLI_HOURS),
            mass_roll: roll_of(words[12]),
        }
    }

    /// The body at quantized position `(x, y, z)`, in micrometres from the
    /// star, of the system of seed `system_seed` around a star of type
    /// `host`. It depends on the system's seed and the position alone, never
    /// on what was generated before it.
    pub fn at_position(system_seed: u64, x: i64, y: i64, z: i64, host: StellarType) -> (r: SmallBodyProfile)
        ensures
            r == Self::of_position(system_seed, x, y, z, host),
            r.fits(system_seed, x, y, z, host),
    {
        let seed = body_seed(system_seed, x, y, z);
        let words = seeded_words(seed, BODY_WORDS);
        assert(words@ =~= stream_prefix(seed, BODY_WORDS as nat));
        let r = Self::from_words(seed, x, y, z, host, &words);
        proof {
            let roll = spec_roll_of(words@[0]) as nat;
            lemma_roll_below_span(words@[0]);
            assert(roll < ROLL_SPAN && r.body_type == type_of_roll(x, y, z, roll));
            let drawn = r.body_type.spec_elements_from(words@.skip(1));
            assert(normalizes(r.elements, spec_adjusted(drawn, host, closer_than(x, y, z, 5))));
        }
        r
    }
}

/// The expected number of small bodies per cubic AU, in hundredths, at a
/// distance from the star in millionths of an AU: 5 in the inner asteroid
/// belt (1.8 to 2.2 AU), 10 in the main belt (to 3.2 AU), 0.1 in the
/// scattered disk (30 to 50 AU), 0.5 in the Kuiper belt (to 100 AU), and
/// 0.01 elsewhere.
pub open spec fn spec_small_body_density(distance: nat) -> u64 {
    if 1_800_000 <= distance <= 2_200_000 {
        500
    } else if 2_200_000 <= distance <= 3_200_000 {
        1000
    } else if 30_000_000 <= distance <= 50_000_000 {
        10
    } else if 40_000_000 <= distance <= 100_000_000 {
        50
    } else {
        1
    }
}

/// The expected number of small bodies per cubic AU, in hundredths, at a
/// distance from the star in millionths of an AU.
pub fn small_body_density(distance_micro_au: u64) -> (r: u64)
    ensures
        r == spec_small_body_density(distance_micro_au as nat),
{
    if 1_800_000 <= distance_micro_au && distance_micro_au <= 2_200_000 {
        500
    } else if 2_200_000 <= distance_micro_au && distance_micro_au <= 3_200_000 {
        1000
    } else if 30_000_000 <= distance_micro_au && distance_micro_au <= 50_000_000 {
        10
    } else if 40_000_000 <= distance_micro_au && distance_micro_au <= 100_000_000 {
        50
    } else {
        1
    }
}

/// The nine abundances of every generated small body sum to exactly one.
pub proof fn lemma_abundances_sum_to_one(
    body: SmallBodyProfile,
    system_seed: u64,
    x: i64,
    y: i64,
    z: i64,
    host: StellarType,
)
    requires
        body.fits(system_seed, x, y, z, host),
    ensures
        body.elements.spec_total() == PARTS_PER_BILLION,
{
}

/// Two bodies generated at the same position of the same system share their
/// seed, whatever was generated before them.
pub proof fn lemma_seed_follows_position(
    a: SmallBodyProfile,
    b: SmallBodyProfile,
    system_seed: u64,
    x: i64,
    y: i64,
    z: i64,
    host: StellarType,
)
    requires
        a.fits(system_seed, x, y, z, host),
        b.fits(system_seed, x, y, z, host),
    ensures
        a.seed == b.seed,
{
}

} // verus!
