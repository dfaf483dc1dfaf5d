// The calculator: parameter and result records, the formula set, advisory
// comments, single and batch evaluation, the total-energy reducer, and the
// summary formatter.

use vstd::prelude::*;
use crate::fixed::{
    SCALE, MAX_INPUT, abs_val, in_range, div_trunc, div_trunc_i128, lemma_div_trunc_bound,
    lemma_mul_bound,
};
use crate::text::{two_dec_seq, dec_seq, format_two_dec, format_u64};

verus! {

// ---------------------------------------------------------------------------
// The formulas, as specification functions over micro-unit integers.
// ---------------------------------------------------------------------------

/// Kinetic energy: 0.5 * weight * velocity^2.
pub open spec fn spec_kinetic(w: int, v: int) -> int {
    div_trunc(w * v * v, 2 * SCALE * SCALE)
}

/// Potential energy: weight * 9.81 * height.
pub open spec fn spec_potential(w: int, h: int) -> int {
    div_trunc(w * 981 * h, 100 * SCALE)
}

/// Momentum: weight * velocity.
pub open spec fn spec_momentum(w: int, v: int) -> int {
    div_trunc(w * v, SCALE as int)
}

/// Force: weight * 9.81.
pub open spec fn spec_force(w: int) -> int {
    div_trunc(w * 981, 100)
}

/// Density: weight / volume, defined as 0 when the volume is 0.
pub open spec fn spec_density(w: int, vol: int) -> int {
    if vol == 0 {
        0
    } else {
        div_trunc(w * SCALE, vol)
    }
}

/// Pressure: force / volume, defined as 0 when the volume is 0.
pub open spec fn spec_pressure(w: int, vol: int) -> int {
    if vol == 0 {
        0
    } else {
        div_trunc(spec_force(w) * SCALE, vol)
    }
}

/// Simplified torque: angular velocity * weight * 0.5 (an approximation,
/// not the moment-of-inertia-based quantity).
pub open spec fn spec_torque(av: int, w: int) -> int {
    div_trunc(av * w, 2 * SCALE)
}

/// Total energy: kinetic + potential + 0.5 * torque.
pub open spec fn spec_total(w: int, v: int, h: int, av: int) -> int {
    spec_kinetic(w, v) + spec_potential(w, h) + div_trunc(spec_torque(av, w), 2)
}

/// The volume-independent energy of one object: kinetic + potential.
pub open spec fn spec_pair_energy(w: int, v: int, h: int) -> int {
    spec_kinetic(w, v) + spec_potential(w, h)
}

// ---------------------------------------------------------------------------
// The formulas, as verified executable functions.
// ---------------------------------------------------------------------------

/// Kinetic energy of a moving mass.
pub fn kinetic_energy(w: i128, v: i128) -> (r: i128)
    requires
        in_range(w as int),
        in_range(v as int),
    ensures
        r == spec_kinetic(w as int, v as int),
        abs_val(r as int) <= 500_000_000_000_000_000_000_000,
{
    proof {
        lemma_mul_bound(w as int, v as int, MAX_INPUT as int, MAX_INPUT as int);
        lemma_mul_bound(
            w as int * v as int,
            v as int,
            MAX_INPUT as int * MAX_INPUT as int,
            MAX_INPUT as int,
        );
        lemma_div_trunc_bound(
            w as int * v as int * v as int,
            2 * SCALE * SCALE,
            1_000_000_000_000_000_000_000_000_000_000_000_000,
        );
        assert(1_000_000_000_000_000_000_000_000_000_000_000_000int / 2_000_000_000_000int
            == 500_000_000_000_000_000_000_000int);
    }
    let t: i128 = w * v;
    let t2: i128 = t * v;
    div_trunc_i128(t2, 2 * SCALE * SCALE)
}

/// Potential energy of a mass at a height, with g = 9.81.
pub fn potential_energy(w: i128, h: i128) -> (r: i128)
    requires
        in_range(w as int),
        in_range(h as int),
    ensures
        r == spec_potential(w as int, h as int),
        abs_val(r as int) <= 9_810_000_000_000_000_000,
{
    proof {
        lemma_mul_bound(w as int, 981, MAX_INPUT as int, 981);
        lemma_mul_bound(
            w as int * 981,
            h as int,
            981 * MAX_INPUT as int,
            MAX_INPUT as int,
        );
        lemma_div_trunc_bound(
            w as int * 981 * h as int,
            100 * SCALE,
            981_000_000_000_000_000_000_000_000,
        );
        assert(981_000_000_000_000_000_000_000_000int / 100_000_000int
            == 9_810_000_000_000_000_000int);
    }
    let t: i128 = w * 981;
    let t2: i128 = t * h;
    div_trunc_i128(t2, 100 * SCALE)
}

/// Momentum of a moving mass.
pub fn momentum(w: i128, v: i128) -> (r: i128)
    requires
        in_range(w as int),
        in_range(v as int),
    ensures
        r == spec_momentum(w as int, v as int),
        abs_val(r as int) <= 1_000_000_000_000_000_000,
{
    proof {
        lemma_mul_bound(w as int, v as int, MAX_INPUT as int, MAX_INPUT as int);
        lemma_div_trunc_bound(
            w as int * v as int,
            SCALE as int,
            1_000_000_000_000_000_000_000_000,
        );
        assert(1_000_000_000_000_000_000_000_000int / 1_000_000int
            == 1_000_000_000_000_000_000int);
    }
    let t: i128 = w * v;
    div_trunc_i128(t, SCALE)
}

/// Gravitational force on a mass, with g = 9.81.
pub fn force(w: i128) -> (r: i128)
    requires
        in_range(w as int),
    ensures
        r == spec_force(w as int),
        abs_val(r as int) <= 9_810_000_000_000,
{
    proof {
        lemma_mul_bound(w as int, 981, MAX_INPUT as int, 981);
        lemma_div_trunc_bound(w as int * 981, 100, 981_000_000_000_000);
        assert(981_000_000_000_000int / 100int == 9_810_000_000_000int);
    }
    let t: i128 = w * 981;
    div_trunc_i128(t, 100)
}

/// Density: weight over volume, 0 when the volume is 0.
pub fn density(w: i128, vol: i128) -> (r: i128)
    requires
        in_range(w as int),
        in_range(vol as int),
    ensures
        r == spec_density(w as int, vol as int),
        vol == 0 ==> r == 0,
        abs_val(r as int) <= 1_000_000_000_000_000_000,
{
    if vol == 0 {
        0
    } else {
        proof {
            lemma_mul_bound(w as int, SCALE as int, MAX_INPUT as int, SCALE as int);
            lemma_div_trunc_bound(
                w as int * SCALE as int,
                vol as int,
                1_000_000_000_000_000_000,
            );
        }
        let t: i128 = w * SCALE;
        div_trunc_i128(t, vol)
    }
}

/// Pressure: force over volume, 0 when the volume is 0.
pub fn pressure(w: i128, vol: i128) -> (r: i128)
    requires
        in_range(w as int),
        in_range(vol as int),
    ensures
        r == spec_pressure(w as int, vol as int),
        vol == 0 ==> r == 0,
        abs_val(r as int) <= 9_810_000_000_000_000_000,
{
    if vol == 0 {
        0
    } else {
        let f = force(w);
        proof {
            lemma_mul_bound(f as int, SCALE as int, 9_810_000_000_000, SCALE as int);
            lemma_div_trunc_bound(
                f as int * SCALE as int,
                vol as int,
                9_810_000_000_000_000_000,
            );
        }
        let t: i128 = f * SCALE;
        div_trunc_i128(t, vol)
    }
}

/// Simplified torque of a spinning mass.
pub fn torque(av: i128, w: i128) -> (r: i128)
    requires
        in_range(av as int),
        in_range(w as int),
    ensures
        r == spec_torque(av as int, w as int),
        abs_val(r as int) <= 500_000_000_000_000_000,
{
    proof {
        lemma_mul_bound(av as int, w as int, MAX_INPUT as int, MAX_INPUT as int);
        lemma_div_trunc_bound(
            av as int * w as int,
            2 * SCALE,
            1_000_000_000_000_000_000_000_000,
        );
        assert(1_000_000_000_000_000_000_000_000int / 2_000_000int
            == 500_000_000_000_000_000int);
    }
    let t: i128 = av * w;
    div_trunc_i128(t, 2 * SCALE)
}

/// Total energy: kinetic + potential + half the simplified torque.
pub fn total_energy(w: i128, v: i128, h: i128, av: i128) -> (r: i128)
    requires
        in_range(w as int),
        in_range(v as int),
        in_range(h as int),
        in_range(av as int),
    ensures
        r == spec_total(w as int, v as int, h as int, av as int),
        abs_val(r as int) <= 600_000_000_000_000_000_000_000,
{
    let ke = kinetic_energy(w, v);
    let pe = potential_energy(w, h);
    let tq = torque(av, w);
    proof {
        lemma_div_trunc_bound(tq as int, 2, 500_000_000_000_000_000);
    }
    let half_tq = div_trunc_i128(tq, 2);
    ke + pe + half_tq
}

// ---------------------------------------------------------------------------
// Records.
// ---------------------------------------------------------------------------

/// The inputs of one calculation, in micro-units. The optional fields fall
/// back to fixed defaults: a height of one unit, no spin, 25 degrees.
#[derive(Clone, Copy)]
pub struct ObjectParameters {
    pub weight: i128,
    pub velocity: i128,
    pub volume: i128,
    pub height: Option<i128>,
    pub angular_velocity: Option<i128>,
    pub temperature: Option<i128>,
}

impl ObjectParameters {
    /// The height used by the formulas: the given one, or one unit.
    pub open spec fn height_or_default(self) -> int {
        match self.height {
            Some(h) => h as int,
            None => SCALE as int,
        }
    }

    /// The angular velocity used by the formulas: the given one, or zero.
    pub open spec fn angular_velocity_or_default(self) -> int {
        match self.angular_velocity {
            Some(av) => av as int,
            None => 0,
        }
    }

    /// The temperature reported in the comments: the given one, or 25 units.
    pub open spec fn temperature_or_default(self) -> int {
        match self.temperature {
            Some(t) => t as int,
            None => 25 * SCALE,
        }
    }

    /// Every field, resolved to its default where absent, is in range.
    pub open spec fn wf(self) -> bool {
        &&& in_range(self.weight as int)
        &&& in_range(self.velocity as int)
        &&& in_range(self.volume as int)
        &&& in_range(self.height_or_default())
        &&& in_range(self.angular_velocity_or_default())
        &&& in_range(self.temperature_or_default())
    }

    /// Parameters with every optional field left to its default.
    pub fn required_only(weight: i128, velocity: i128, volume: i128) -> (p: ObjectParameters)
        ensures
            p.weight == weight,
            p.velocity == velocity,
            p.volume == volume,
            p.height is None,
            p.angular_velocity is None,
            p.temperature is None,
    {
        ObjectParameters {
            weight,
            velocity,
            volume,
            height: None,
            angular_velocity: None,
            temperature: None,
        }
    }
}

/// The derived quantities of one calculation, in micro-units, plus the
/// advisory comments. The angular fields are present exactly when the input
/// carried angular data.
#[derive(Debug)]
pub struct PhysicsResult {
    pub weight: i128,
    pub volume: i128,
    pub density: i128,
    pub kinetic_energy: i128,
    pub potential_energy: i128,
    pub momentum: i128,
    pub force: i128,
    pub pressure: i128,
    pub velocity: i128,
    pub angular_velocity: Option<i128>,
    pub torque: Option<i128>,
    pub total_energy: i128,
    pub comments: Vec<String>,
}

/// The batch and aggregate operations reject inconsistent inputs.
#[derive(Clone, Copy, PartialEq, Eq, Structural, Debug)]
pub enum CalcError {
    /// Two parallel input arrays differ in length.
    LengthMismatch,
}

// ---------------------------------------------------------------------------
// Advisory comments.
// ---------------------------------------------------------------------------

/// The views of the comment strings, in order.
pub open spec fn comments_view(c: Seq<String>) -> Seq<Seq<char>> {
    c.map_values(|s: String| s@)
}

/// Advisory text for a weight above one thousand units.
pub open spec fn heavy_line() -> Seq<char> {
    "warning: heavy object"@
}

/// Advisory text for a velocity above fifty units.
pub open spec fn high_speed_line() -> Seq<char> {
    "warning: high speed, relativistic effects ignored"@
}

/// Advisory text for a total energy above ten thousand units.
pub open spec fn high_energy_line() -> Seq<char> {
    "warning: extremely high energy"@
}

/// The always-present temperature report.
pub open spec fn temperature_line(t: int) -> Seq<char> {
    "temperature (C): "@ + two_dec_seq(t)
}

/// The always-present timestamp line, in whole seconds.
pub open spec fn timestamp_line(ts: nat) -> Seq<char> {
    "timestamp (s): "@ + dec_seq(ts)
}

/// The advisory comments in their fixed order: the three threshold warnings,
/// each present exactly when its condition holds, then the temperature report.
pub open spec fn spec_advisories(w: int, v: int, h: int, av: int, t: int) -> Seq<Seq<char>> {
    let s0 = Seq::<Seq<char>>::empty();
    let s1 = if w > 1000 * SCALE {
        s0.push(heavy_line())
    } else {
        s0
    };
    let s2 = if v > 50 * SCALE {
        s1.push(high_speed_line())
    } else {
        s1
    };
    let s3 = if spec_total(w, v, h, av) > 10000 * SCALE {
        s2.push(high_energy_line())
    } else {
        s2
    };
    s3.push(temperature_line(t))
}

/// The full comment list: the advisories followed by one timestamp line.
pub open spec fn spec_comments(w: int, v: int, h: int, av: int, t: int, ts: nat) -> Seq<
    Seq<char>,
> {
    spec_advisories(w, v, h, av, t).push(timestamp_line(ts))
}

/// Relies on std::time::SystemTime::now for the wall-clock second count of
/// the timestamp comment; the value depends on the environment, so nothing
/// is promised of it.
#[verifier::external_body]
fn now_unix_seconds() -> u64 {
    match std::time::SystemTime::now().duration_since(std::time::UNIX_EPOCH) {
        Ok(d) => d.as_secs(),
        Err(_) => 0,
    }
}

/// Builds the comment list for resolved inputs; `te` must already be the
/// total energy, so that the energy threshold is judged on the real value.
fn build_comments(w: i128, v: i128, h: i128, av: i128, t: i128, te: i128) -> (c: Vec<String>)
    requires
        in_range(t as int),
        te == spec_total(w as int, v as int, h as int, av as int),
    ensures
        exists|ts: nat|
            comments_view(c@) == spec_comments(
                w as int,
                v as int,
                h as int,
                av as int,
                t as int,
                ts,
            ),
{
    let mut c: Vec<String> = Vec::new();
    if w > 1000 * SCALE {
        c.push(String::from_str("warning: heavy object"));
    }
    if v > 50 * SCALE {
        c.push(String::from_str("warning: high speed, relativistic effects ignored"));
    }
    if te > 10000 * SCALE {
        c.push(String::from_str("warning: extremely high energy"));
    }
    let mut tl = String::from_str("temperature (C): ");
    let ft = format_two_dec(t);
    tl.append(ft.as_str());
    c.push(tl);
    let ts = now_unix_seconds();
    let mut sl = String::from_str("timestamp (s): ");
    let fs = format_u64(ts);
    sl.append(fs.as_str());
    c.push(sl);
    proof {
        assert(comments_view(c@) =~= spec_comments(
            w as int,
            v as int,
            h as int,
            av as int,
            t as int,
            ts as nat,
        ));
    }
    c
}

// ---------------------------------------------------------------------------
// Single evaluation.
// ---------------------------------------------------------------------------

/// What a single evaluation promises: every numeric field is its formula on
/// the resolved inputs, the angular fields mirror the presence of angular
/// input, and the comments are the advisories followed by a timestamp line
/// for some wall-clock value.
pub open spec fn single_ok(p: ObjectParameters, r: PhysicsResult) -> bool {
    let w = p.weight as int;
    let v = p.velocity as int;
    let vol = p.volume as int;
    let h = p.height_or_default();
    let av = p.angular_velocity_or_default();
    let t = p.temperature_or_default();
    &&& r.weight == p.weight
    &&& r.volume == p.volume
    &&& r.velocity == p.velocity
    &&& r.density == spec_density(w, vol)
    &&& r.kinetic_energy == spec_kinetic(w, v)
    &&& r.potential_energy == spec_potential(w, h)
    &&& r.momentum == spec_momentum(w, v)
    &&& r.force == spec_force(w)
    &&& r.pressure == spec_pressure(w, vol)
    &&& (match (p.angular_velocity, r.angular_velocity) {
        (Some(a), Some(ra)) => ra == a,
        (None, None) => true,
        _ => false,
    })
    &&& (match (p.angular_velocity, r.torque) {
        (Some(_), Some(tq)) => tq == spec_torque(av, w),
        (None, None) => true,
        _ => false,
    })
    &&& r.total_energy == spec_total(w, v, h, av)
    &&& (exists|ts: nat| comments_view(r.comments@) == spec_comments(w, v, h, av, t, ts))
}

/// Evaluates every formula on one set of parameters.
pub fn compute_single(p: ObjectParameters) -> (r: PhysicsResult)
    requires
        p.wf(),
    ensures
        single_ok(p, r),
        p.volume == 0 ==> r.density == 0 && r.pressure == 0,
{
    let h: i128 = match p.height {
        Some(x) => x,
        None => SCALE,
    };
    let av: i128 = match p.angular_velocity {
        Some(x) => x,
        None => 0,
    };
    let t: i128 = match p.temperature {
        Some(x) => x,
        None => 25 * SCALE,
    };
    let tq = torque(av, p.weight);
    let te = total_energy(p.weight, p.velocity, h, av);
    let comments = build_comments(p.weight, p.velocity, h, av, t, te);
    PhysicsResult {
        weight: p.weight,
        volume: p.volume,
        density: density(p.weight, p.volume),
        kinetic_energy: kinetic_energy(p.weight, p.velocity),
        potential_energy: potential_energy(p.weight, h),
        momentum: momentum(p.weight, p.velocity),
        force: force(p.weight),
        pressure: pressure(p.weight, p.volume),
        velocity: p.velocity,
        angular_velocity: p.angular_velocity,
        torque: match p.angular_velocity {
            Some(_) => Some(tq),
            None => None,
        },
        total_energy: te,
        comments,
    }
}

// ---------------------------------------------------------------------------
// Batch evaluation.
// ---------------------------------------------------------------------------

/// Every element of the sequence is an in-range quantity.
pub open spec fn all_in_range(s: Seq<i128>) -> bool {
    forall|i: int| 0 <= i < s.len() ==> in_range(#[trigger] s[i] as int)
}

/// Every element of the optional sequence is an in-range quantity.
pub open spec fn opt_all_in_range(o: Option<Seq<i128>>) -> bool {
    match o {
        Some(s) => all_in_range(s),
        None => true,
    }
}

/// The optional array, where provided, has exactly `n` elements.
pub open spec fn opt_len_ok(o: Option<Seq<i128>>, n: nat) -> bool {
    match o {
        Some(s) => s.len() == n,
        None => true,
    }
}

/// The view of an optional array argument.
pub open spec fn opt_view(o: Option<&Vec<i128>>) -> Option<Seq<i128>> {
    match o {
        Some(v) => Some(v@),
        None => None,
    }
}

/// The parameters of the i-th batch element: the i-th entry of each required
/// array, and of each optional array where provided.
pub open spec fn batch_param(
    ws: Seq<i128>,
    vs: Seq<i128>,
    vols: Seq<i128>,
    hs: Option<Seq<i128>>,
    avs: Option<Seq<i128>>,
    ts: Option<Seq<i128>>,
    i: int,
) -> ObjectParameters {
    ObjectParameters {
        weight: ws[i],
        velocity: vs[i],
        volume: vols[i],
        height: match hs {
            Some(s) => Some(s[i]),
            None => None,
        },
        angular_velocity: match avs {
            Some(s) => Some(s[i]),
            None => None,
        },
        temperature: match ts {
            Some(s) => Some(s[i]),
            None => None,
        },
    }
}

/// Evaluates every formula once per index, in order. Every provided array
/// must be exactly as long as `weights`; a mismatch is rejected before any
/// element is computed.
pub fn compute_batch(
    weights: &Vec<i128>,
    velocities: &Vec<i128>,
    volumes: &Vec<i128>,
    heights: Option<&Vec<i128>>,
    angular_velocities: Option<&Vec<i128>>,
    temperatures: Option<&Vec<i128>>,
) -> (r: Result<Vec<PhysicsResult>, CalcError>)
    requires
        all_in_range(weights@),
        all_in_range(velocities@),
        all_in_range(volumes@),
        opt_all_in_range(opt_view(heights)),
        opt_all_in_range(opt_view(angular_velocities)),
        opt_all_in_range(opt_view(temperatures)),
    ensures
        r is Ok <==> {
            &&& velocities@.len() == weights@.len()
            &&& volumes@.len() == weights@.len()
            &&& opt_len_ok(opt_view(heights), weights@.len())
            &&& opt_len_ok(opt_view(angular_velocities), weights@.len())
            &&& opt_len_ok(opt_view(temperatures), weights@.len())
        },
        r is Err ==> r == Result::<Vec<PhysicsResult>, CalcError>::Err(CalcError::LengthMismatch),
        match r {
            Ok(out) => {
                &&& out@.len() == weights@.len()
                &&& forall|i: int|
                    0 <= i < weights@.len() ==> single_ok(
                        batch_param(
                            weights@,
                            velocities@,
                            volumes@,
                            opt_view(heights),
                            opt_view(angular_velocities),
                            opt_view(temperatures),
                            i,
                        ),
                        #[trigger] out@[i],
                    )
            },
            Err(_) => true,
        },
{
    let n = weights.len();
    if velocities.len() != n || volumes.len() != n {
        return Err(CalcError::LengthMismatch);
    }
    match heights {
        Some(hs) => {
            if hs.len() != n {
                return Err(CalcError::LengthMismatch);
            }
        },
        None => {},
    }
    match angular_velocities {
        Some(avs) => {
            if avs.len() != n {
                return Err(CalcError::LengthMismatch);
            }
        },
        None => {},
    }
    match temperatures {
        Some(ts) => {
            if ts.len() != n {
                return Err(CalcError::LengthMismatch);
            }
        },
        None => {},
    }
    let mut out: Vec<PhysicsResult> = Vec::new();
    let mut i: usize = 0;
    while i < n
        invariant
            i <= n,
            n == weights@.len(),
            velocities@.len() == n,
            volumes@.len() == n,
            opt_len_ok(opt_view(heights), n as nat),
            opt_len_ok(opt_view(angular_velocities), n as nat),
            opt_len_ok(opt_view(temperatures), n as nat),
            all_in_range(weights@),
            all_in_range(velocities@),
            all_in_range(volumes@),
            opt_all_in_range(opt_view(heights)),
            opt_all_in_range(opt_view(angular_velocities)),
            opt_all_in_range(opt_view(temperatures)),
            out@.len() == i,
            forall|j: int|
                0 <= j < i ==> single_ok(
                    batch_param(
                        weights@,
                        velocities@,
                        volumes@,
                        opt_view(heights),
                        opt_view(angular_velocities),
                        opt_view(temperatures),
                        j,
                    ),
                    #[trigger] out@[j],
                ),
        decreases n - i,
    {
        let p = ObjectParameters {
            weight: weights[i],
            velocity: velocities[i],
            volume: volumes[i],
            height: match heights {
                Some(hs) => Some(hs[i]),
                None => None,
            },
            angular_velocity: match angular_velocities {
                Some(avs) => Some(avs[i]),
                None => None,
            },
            temperature: match temperatures {
                Some(ts) => Some(ts[i]),
                None => None,
            },
        };
        proof {
            assert(p == batch_param(
                weights@,
                velocities@,
                volumes@,
                opt_view(heights),
                opt_view(angular_velocities),
                opt_view(temperatures),
                i as int,
            ));
        }
        let one = compute_single(p);
        out.push(one);
        i = i + 1;
    }
    Ok(out)
}

// ---------------------------------------------------------------------------
// The total-energy reducer.
// ---------------------------------------------------------------------------

/// The sum, over all indices, of kinetic + potential energy of the i-th
/// weight, velocity and height; 0 for empty input.
pub open spec fn spec_aggregate(ws: Seq<i128>, vs: Seq<i128>, hs: Seq<i128>) -> int
    recommends
        vs.len() == ws.len(),
        hs.len() == ws.len(),
    decreases ws.len(),
{
    if ws.len() == 0 {
        0
    } else {
        spec_aggregate(ws.drop_last(), vs.drop_last(), hs.drop_last()) + spec_pair_energy(
            ws.last() as int,
            vs.last() as int,
            hs.last() as int,
        )
    }
}

/// Sums kinetic + potential energy over parallel arrays, never deriving the
/// volume-dependent quantities. The three arrays must have one length; the
/// length bound keeps the sum inside an `i128`.
pub fn aggregate_total_energy(
    weights: &Vec<i128>,
    velocities: &Vec<i128>,
    heights: &Vec<i128>,
) -> (r: Result<i128, CalcError>)
    requires
        all_in_range(weights@),
        all_in_range(velocities@),
        all_in_range(heights@),
        weights@.len() <= 100_000_000_000_000,
    ensures
        r is Ok <==> velocities@.len() == weights@.len() && heights@.len() == weights@.len(),
        r is Err ==> r == Result::<i128, CalcError>::Err(CalcError::LengthMismatch),
        match r {
            Ok(total) => total == spec_aggregate(weights@, velocities@, heights@),
            Err(_) => true,
        },
        weights@.len() == 0 && velocities@.len() == 0 && heights@.len() == 0 ==> r
            == Result::<i128, CalcError>::Ok(0),
{
    let n = weights.len();
    if velocities.len() != n || heights.len() != n {
        return Err(CalcError::LengthMismatch);
    }
    let mut total: i128 = 0;
    let mut i: usize = 0;
    while i < n
        invariant
            i <= n,
            n == weights@.len(),
            velocities@.len() == n,
            heights@.len() == n,
            n <= 100_000_000_000_000,
            all_in_range(weights@),
            all_in_range(velocities@),
            all_in_range(heights@),
            total == spec_aggregate(
                weights@.take(i as int),
                velocities@.take(i as int),
                heights@.take(i as int),
            ),
            abs_val(total as int) <= i * 501_000_000_000_000_000_000_000,
        decreases n - i,
    {
        let ke = kinetic_energy(weights[i], velocities[i]);
        let pe = potential_energy(weights[i], heights[i]);
        let pair = ke + pe;
        proof {
            let wi = weights@.take(i as int + 1);
            let vi = velocities@.take(i as int + 1);
            let hi = heights@.take(i as int + 1);
            assert(wi.drop_last() =~= weights@.take(i as int));
            assert(vi.drop_last() =~= velocities@.take(i as int));
            assert(hi.drop_last() =~= heights@.take(i as int));
            assert(pair == spec_pair_energy(
                weights@[i as int] as int,
                velocities@[i as int] as int,
                heights@[i as int] as int,
            ));
        }
        total = total + pair;
        i = i + 1;
    }
    proof {
        assert(weights@.take(n as int) =~= weights@);
        assert(velocities@.take(n as int) =~= velocities@);
        assert(heights@.take(n as int) =~= heights@);
    }
    Ok(total)
}

} // verus!
