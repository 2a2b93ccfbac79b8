//! The layout of a planetary system: the star, and one orbit slot for each
//! planet, spaced by a modified Titius-Bode progression.

use vstd::prelude::*;

use crate::ordering::{lists_each_index, ordered_by, sorted_order, stable_order};
use crate::random::{entropy_seed, lemma_scaled_within, scaled, seeded_words, spec_scaled, stream_prefix};
use crate::stellar::{StarProfile, StellarType, STAR_WORDS};
use crate::Generate;

verus! {

/// Millionths of an AU in one thousandth of an AU.
pub const MICRO_PER_MILLI: u64 = 1000;

/// The jitter applied to a Titius-Bode distance, in thousandths: a factor
/// drawn from `JITTER_LOW..JITTER_HIGH` over a thousand.
pub const JITTER_LOW: u64 = 800;

/// The end (exclusive) of the jitter range, in thousandths.
pub const JITTER_HIGH: u64 = 1200;

/// Orbital angles lie in `0..TURN_MICRO_RAD` millionths of a radian, all of
/// them below a full turn.
pub const TURN_MICRO_RAD: u64 = 6_283_185;

/// The largest distance above or below the orbital plane, in millionths of
/// an AU.
pub const MAX_HEIGHT_MICRO_AU: u64 = 100_000;

/// The `i`-th distance of the progression that starts at `base` and grows by
/// `spacing` tenths at each step, rounded down at each step.
pub open spec fn bode_distance(base: nat, spacing: nat, i: nat) -> nat
    decreases i,
{
    if i == 0 {
        base
    } else {
        bode_distance(base, spacing, (i - 1) as nat) * spacing / 10
    }
}

/// The Titius-Bode distance of orbit `i` around a star of type `t`, in
/// millionths of an AU.
pub open spec fn orbit_distance(t: StellarType, i: nat) -> nat {
    bode_distance((t.spec_base_orbit() * MICRO_PER_MILLI) as nat, t.spec_orbit_spacing() as nat, i)
}

/// A distance scaled by a jitter given in thousandths, rounded down.
pub open spec fn jittered(distance: nat, jitter: nat) -> nat {
    distance * jitter / 1000
}

/// Two to the power `i`.
pub open spec fn doubling(i: nat) -> nat
    decreases i,
{
    if i == 0 {
        1
    } else {
        2 * doubling((i - 1) as nat)
    }
}

/// The place of one planet in a system.
#[derive(Clone, Copy, Debug, PartialEq, Eq, Structural)]
pub struct OrbitSlot {
    /// The step of the Titius-Bode progression this orbit follows.
    pub index: usize,
    /// The seed the planet is generated from.
    pub seed: u64,
    /// Distance from the star, in millionths of an AU.
    pub distance_micro_au: u64,
    /// Angle in the orbital plane, in millionths of a radian.
    pub angle_micro_rad: u64,
    /// Distance above the orbital plane (below, if negative), in millionths of
    /// an AU.
    pub height_micro_au: i64,
}

impl OrbitSlot {
    /// The slot of step `index` around a star of type `t` whose Titius-Bode
    /// distance is `bode` millionths of an AU, for the drawn `jitter`
    /// (thousandths), `angle` (millionths of a radian) and `lift`
    /// (millionths of an AU above the lowest allowed height).
    pub fn new(
        system_seed: u64,
        t: StellarType,
        index: usize,
        bode: u64,
        jitter: u64,
        angle: u64,
        lift: u64,
    ) -> (r: OrbitSlot)
        requires
            bode == orbit_distance(t, index as nat),
            bode <= 300_000 * 4096,
            JITTER_LOW <= jitter < JITTER_HIGH,
            angle < TURN_MICRO_RAD,
            lift < 2 * MAX_HEIGHT_MICRO_AU,
        ensures
            r == (OrbitSlot {
                index,
                seed: system_seed.wrapping_add(index as u64),
                distance_micro_au: (bode * jitter / 1000) as u64,
                angle_micro_rad: angle,
                height_micro_au: (lift - MAX_HEIGHT_MICRO_AU) as i64,
            }),
            r.fits(t, system_seed),
    {
        assert(bode * jitter <= 300_000 * 4096 * 1200) by (nonlinear_arith)
            requires
                bode <= 300_000 * 4096,
                jitter < 1200,
        ;
        let slot = OrbitSlot {
            index,
            seed: system_seed.wrapping_add(index as u64),
            distance_micro_au: bode * jitter / 1000,
            angle_micro_rad: angle,
            height_micro_au: lift as i64 - MAX_HEIGHT_MICRO_AU as i64,
        };
        let ghost j = jitter as nat;
        assert(slot.distance_micro_au == jittered(orbit_distance(t, slot.index as nat), j));
        assert(exists|w: nat|
            JITTER_LOW <= w < JITTER_HIGH && slot.distance_micro_au == #[trigger] jittered(
                orbit_distance(t, slot.index as nat),
                w,
            ));
        assert(-MAX_HEIGHT_MICRO_AU <= slot.height_micro_au < MAX_HEIGHT_MICRO_AU);
        slot
    }

    /// The slot is step `index` of the progression around a star of type
    /// `t`, jittered, and its planet's seed is the system's seed advanced by
    /// `index`.
    pub open spec fn fits(self, t: StellarType, system_seed: u64) -> bool {
        &&& self.seed == system_seed.wrapping_add(self.index as u64)
        &&& exists|jitter: nat|
            JITTER_LOW <= jitter < JITTER_HIGH && self.distance_micro_au == #[trigger] jittered(
                orbit_distance(t, self.index as nat),
                jitter,
            )
        &&& self.angle_micro_rad < TURN_MICRO_RAD
        &&& -MAX_HEIGHT_MICRO_AU <= self.height_micro_au < MAX_HEIGHT_MICRO_AU
    }
}

/// The slots of a system around a star of type `t`: as many as the type
/// allows (none where it can have no planets), each step of the progression
/// once, in ascending order of distance.
pub open spec fn slots_fit(slots: Seq<OrbitSlot>, t: StellarType, system_seed: u64) -> bool {
    &&& t.spec_planet_count_range().0 <= slots.len() <= t.spec_planet_count_range().1
    &&& !t.spec_can_have_planets() ==> slots.len() == 0
    &&& forall|k: int| 0 <= k < slots.len() ==> (#[trigger] slots[k]).fits(t, system_seed)
    &&& lists_each_index(slots.map_values(|s: OrbitSlot| s.index), slots.len())
    &&& forall|a: int, b: int|
        0 <= a < b < slots.len() ==> (#[trigger] slots[a]).distance_micro_au <= (#[trigger] slots[b]).distance_micro_au
}

proof fn lemma_doubling_bound(i: nat)
    requires
        i <= 12,
    ensures
        doubling(i) <= 4096,
{
    reveal_with_fuel(doubling, 13);
}

/// The number of words of the stream a system's orbits take: one for the
/// planet count and three for each of at most twelve planets.
pub const PLAN_WORDS: usize = 37;

/// The slot of step `i` around a star of type `t` whose jitter, angle and
/// height the words `1 + 3 i`, `2 + 3 i` and `3 + 3 i` give.
pub open spec fn spec_slot(system_seed: u64, t: StellarType, i: nat, words: Seq<u64>) -> OrbitSlot {
    OrbitSlot {
        index: i as usize,
        seed: system_seed.wrapping_add(i as u64),
        distance_micro_au: jittered(
            orbit_distance(t, i),
            spec_scaled(words[1 + 3 * i as int], (JITTER_LOW, JITTER_HIGH)) as nat,
        ) as u64,
        angle_micro_rad: spec_scaled(words[2 + 3 * i as int], (0, TURN_MICRO_RAD)),
        height_micro_au: (spec_scaled(words[3 + 3 * i as int], (0, (2 * MAX_HEIGHT_MICRO_AU) as u64)) - MAX_HEIGHT_MICRO_AU) as i64,
    }
}

/// The number of planets around a star of type `t` that the first word
/// gives; none where the type can have no planets.
pub open spec fn spec_planet_count(t: StellarType, words: Seq<u64>) -> nat {
    if t.spec_can_have_planets() {
        t.spec_planet_count_from(words[0]) as nat
    } else {
        0
    }
}

/// The slots in the order of the progression.
pub open spec fn spec_layout(system_seed: u64, t: StellarType, words: Seq<u64>) -> Seq<OrbitSlot> {
    Seq::new(spec_planet_count(t, words), |i: int| spec_slot(system_seed, t, i as nat, words))
}

/// The slots arranged by distance.
pub open spec fn spec_orbits(system_seed: u64, t: StellarType, words: Seq<u64>) -> Seq<OrbitSlot> {
    let slots = spec_layout(system_seed, t, words);
    stable_order(distances(slots), slots.len()).map_values(|k: usize| slots[k as int])
}

/// Lays out the orbits around a star of type `t` in the system of seed
/// `system_seed` from the words `words[first..first + PLAN_WORDS]`.
pub fn plan_orbits(system_seed: u64, t: StellarType, words: &Vec<u64>, first: usize) -> (r: Vec<OrbitSlot>)
    requires
        first + PLAN_WORDS <= words@.len(),
    ensures
        r@ == spec_orbits(system_seed, t, words@.skip(first as int)),
        slots_fit(r@, t, system_seed),
{
    let ghost w = words@.skip(first as int);
    let available = words.len();
    let count = if t.can_have_planets() {
        t.planet_count_from(words[first])
    } else {
        0
    };
    let base = t.base_orbit() * MICRO_PER_MILLI;
    let spacing = t.orbit_spacing();
    let mut slots: Vec<OrbitSlot> = Vec::new();
    let mut bode: u64 = base;
    let mut i: usize = 0;
    while i < count
        invariant
            first + PLAN_WORDS <= words@.len(),
            available == words@.len(),
            w == words@.skip(first as int),
            count == spec_planet_count(t, w),
            count <= t.spec_planet_count_range().1,
            t.spec_planet_count_range().1 <= 12,
            i <= count,
            base == t.spec_base_orbit() * MICRO_PER_MILLI,
            spacing == t.spec_orbit_spacing(),
            bode == orbit_distance(t, i as nat),
            bode <= 300_000 * doubling(i as nat),
            slots@ == spec_layout(system_seed, t, w).subrange(0, i as int),
        decreases count - i,
    {
        proof {
            lemma_doubling_bound(i as nat);
        }
        let jitter = scaled(words[first + 1 + 3 * i], (JITTER_LOW, JITTER_HIGH));
        let angle = scaled(words[first + 2 + 3 * i], (0, TURN_MICRO_RAD));
        let lift = scaled(words[first + 3 + 3 * i], (0, 2 * MAX_HEIGHT_MICRO_AU));
        let slot = OrbitSlot::new(system_seed, t, i, bode, jitter, angle, lift);
        assert(slot == spec_slot(system_seed, t, i as nat, w));
        slots.push(slot);
        assert(slots@ =~= spec_layout(system_seed, t, w).subrange(0, i + 1));
        assert(bode * spacing / 10 <= 2 * bode) by (nonlinear_arith)
            requires
                spacing <= 20,
        ;
        bode = bode * spacing / 10;
        i += 1;
    }
    assert(slots@ =~= spec_layout(system_seed, t, w));
    let r = arrange_by_distance(&slots);
    proof {
        let layout = spec_layout(system_seed, t, w);
        assert forall|k: int| 0 <= k < layout.len() implies (#[trigger] layout[k]).fits(t, system_seed) by {
            let i = k as nat;
            let slot = layout[k];
            let jitter = spec_scaled(w[1 + 3 * i as int], (JITTER_LOW, JITTER_HIGH));
            lemma_scaled_within(w[1 + 3 * i as int], (JITTER_LOW, JITTER_HIGH));
            lemma_scaled_within(w[2 + 3 * i as int], (0, TURN_MICRO_RAD));
            lemma_scaled_within(w[3 + 3 * i as int], (0, (2 * MAX_HEIGHT_MICRO_AU) as u64));
            lemma_orbit_distance_bound(t, i);
            assert(jittered(orbit_distance(t, i), jitter as nat) <= 300_000 * 4096 * 1200) by (nonlinear_arith)
                requires
                    orbit_distance(t, i) <= 300_000 * 4096,
                    jitter < 1200,
            ;
            assert(slot == spec_slot(system_seed, t, i, w));
            assert(slot.index as nat == i);
            assert(slot.distance_micro_au == jittered(orbit_distance(t, slot.index as nat), jitter as nat));
            assert(JITTER_LOW <= jitter as nat && (jitter as nat) < JITTER_HIGH);
            assert(exists|v: nat|
                JITTER_LOW <= v < JITTER_HIGH && slot.distance_micro_au == #[trigger] jittered(
                    orbit_distance(t, slot.index as nat),
                    v,
                ));
            assert(-MAX_HEIGHT_MICRO_AU <= slot.height_micro_au < MAX_HEIGHT_MICRO_AU);
        }
        let order = stable_order(distances(layout), layout.len());
        assert forall|k: int| 0 <= k < r@.len() implies (#[trigger] r@[k]).fits(t, system_seed) by {
            assert(r@[k] == layout[order[k] as int]);
        }
        assert forall|k: int| 0 <= k < r@.len() implies (#[trigger] r@[k]).index == order[k] by {
            assert(r@[k] == layout[order[k] as int]);
        }
        assert(r@.map_values(|s: OrbitSlot| s.index) =~= order);
        assert forall|a: int, b: int| 0 <= a < b < r@.len() implies (#[trigger] r@[a]).distance_micro_au
            <= (#[trigger] r@[b]).distance_micro_au by {
            assert(r@[a] == layout[order[a] as int]);
            assert(r@[b] == layout[order[b] as int]);
            assert(crate::ordering::precedes(distances(layout), order[a], order[b]));
        }
    }
    r
}

/// Every Titius-Bode distance of a system is at most 300,000 millionths of
/// an AU times 2^12.
proof fn lemma_orbit_distance_bound(t: StellarType, i: nat)
    requires
        i < 12,
    ensures
        orbit_distance(t, i) <= 300_000 * 4096,
{
    lemma_bode_growth(t, i);
    lemma_doubling_bound(i);
    assert(300_000 * doubling(i) <= 300_000 * 4096) by (nonlinear_arith)
        requires
            doubling(i) <= 4096,
    ;
}

/// Each step of the progression at most doubles the distance.
proof fn lemma_bode_growth(t: StellarType, i: nat)
    ensures
        orbit_distance(t, i) <= 300_000 * doubling(i),
    decreases i,
{
    if i > 0 {
        lemma_bode_growth(t, (i - 1) as nat);
        let previous = orbit_distance(t, (i - 1) as nat);
        let spacing = t.spec_orbit_spacing() as nat;
        assert(previous * spacing / 10 <= 2 * previous) by (nonlinear_arith)
            requires
                spacing <= 20,
        ;
    }
}

/// The slots in ascending order of distance, slots at equal distances in
/// their original order.
pub fn arrange_by_distance(slots: &Vec<OrbitSlot>) -> (r: Vec<OrbitSlot>)
    ensures
        r@ == stable_order(distances(slots@), slots@.len()).map_values(|k: usize| slots@[k as int]),
        lists_each_index(stable_order(distances(slots@), slots@.len()), slots@.len()),
        ordered_by(distances(slots@), stable_order(distances(slots@), slots@.len())),
{
    let count = slots.len();
    let mut keys: Vec<u64> = Vec::new();
    let mut i: usize = 0;
    while i < count
        invariant
            count == slots@.len(),
            i <= count,
            keys@ == distances(slots@).subrange(0, i as int),
        decreases count - i,
    {
        keys.push(slots[i].distance_micro_au);
        i += 1;
        assert(keys@ =~= distances(slots@).subrange(0, i as int));
    }
    assert(keys@ =~= distances(slots@));
    let order = sorted_order(&keys);
    let mut arranged: Vec<OrbitSlot> = Vec::new();
    let mut j: usize = 0;
    while j < count
        invariant
            j <= count,
            count == slots@.len(),
            lists_each_index(order@, count as nat),
            arranged@ == order@.subrange(0, j as int).map_values(|k: usize| slots@[k as int]),
        decreases count - j,
    {
        arranged.push(slots[order[j]]);
        j += 1;
        assert(arranged@ =~= order@.subrange(0, j as int).map_values(|k: usize| slots@[k as int]));
    }
    assert(order@.subrange(0, count as int) =~= order@);
    arranged
}

/// The distances of the slots, in order.
pub open spec fn distances(slots: Seq<OrbitSlot>) -> Seq<u64> {
    slots.map_values(|s: OrbitSlot| s.distance_micro_au)
}

/// The layout of a planetary system.
#[derive(Debug)]
pub struct SystemPlan {
    pub star: StarProfile,
    /// The orbits, in ascending order of distance from the star.
    pub orbits: Vec<OrbitSlot>,
}

impl SystemPlan {
    pub open spec fn wf(self) -> bool {
        &&& self.star.wf()
        &&& slots_fit(self.orbits@, self.star.stellar_type, self.star.seed)
    }
}

impl SystemPlan {
    /// The orbits of the system of `seed`: laid out from the words of the
    /// stream seeded with `seed` that follow the star's.
    pub open spec fn orbits_of_seed(seed: u64) -> Seq<OrbitSlot> {
        spec_orbits(
            seed,
            StarProfile::of_seed(seed).stellar_type,
            stream_prefix(seed, (STAR_WORDS + PLAN_WORDS) as nat).skip(STAR_WORDS as int),
        )
    }
}

impl Generate for SystemPlan {
    fn generate() -> (r: SystemPlan)
        ensures
            r.wf(),
    {
        Self::generate_with_seed(entropy_seed())
    }

    /// The system of `seed`: the star of `seed`, and the orbits the next
    /// words of the same stream give. The same seed always gives the same
    /// system.
    fn generate_with_seed(seed: u64) -> (r: SystemPlan)
        ensures
            r.star == StarProfile::of_seed(seed),
            r.orbits@ == SystemPlan::orbits_of_seed(seed),
            r.wf(),
    {
        let words = seeded_words(seed, STAR_WORDS + PLAN_WORDS);
        assert(words@ =~= stream_prefix(seed, (STAR_WORDS + PLAN_WORDS) as nat));
        let star = StarProfile::from_words(seed, &words);
        assert(star == StarProfile::of_seed(seed)) by {
            let short = stream_prefix(seed, STAR_WORDS as nat);
            assert(forall|k: int| 0 <= k < STAR_WORDS ==> words@[k] == #[trigger] short[k]);
        }
        let orbits = plan_orbits(seed, star.stellar_type, &words, STAR_WORDS);
        SystemPlan { star, orbits }
    }
}

/// A black hole, neutron star, pulsar, magnetar or quark star never has
/// planets.
pub proof fn lemma_compact_stars_have_no_planets(plan: SystemPlan)
    requires
        plan.wf(),
        plan.star.stellar_type is BlackHole || plan.star.stellar_type is NeutronStar
            || plan.star.stellar_type is PulsarStar || plan.star.stellar_type is MagnetarStar
            || plan.star.stellar_type is QuarkStar,
    ensures
        plan.orbits@.len() == 0,
{
}

/// The planets of a system come in ascending order of distance from the
/// star.
pub proof fn lemma_orbits_ascending(plan: SystemPlan, a: int, b: int)
    requires
        plan.wf(),
        0 <= a < b < plan.orbits@.len(),
    ensures
        plan.orbits@[a].distance_micro_au <= plan.orbits@[b].distance_micro_au,
{
}

} // verus!
