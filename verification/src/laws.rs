// Laws that relate the operations to one another.

use vstd::prelude::*;
use crate::fixed::SCALE;
use crate::calc::{
    ObjectParameters, PhysicsResult, single_ok, comments_view, spec_comments, spec_advisories,
    spec_density, spec_pressure, spec_pair_energy, spec_total, heavy_line, high_speed_line,
    high_energy_line, temperature_line, timestamp_line,
};

verus! {

/// Each advisory warning is in the comment list exactly when its threshold
/// is crossed: the heavy-object line for a weight above one thousand units,
/// the high-speed line for a velocity above fifty, the high-energy line for
/// a total energy above ten thousand.
pub proof fn lemma_advisory_thresholds(w: int, v: int, h: int, av: int, t: int)
    ensures
        spec_advisories(w, v, h, av, t).contains(heavy_line()) <==> w > 1000 * SCALE,
        spec_advisories(w, v, h, av, t).contains(high_speed_line()) <==> v > 50 * SCALE,
        spec_advisories(w, v, h, av, t).contains(high_energy_line()) <==> spec_total(
            w,
            v,
            h,
            av,
        ) > 10000 * SCALE,
{
    reveal_strlit("warning: heavy object");
    reveal_strlit("warning: high speed, relativistic effects ignored");
    reveal_strlit("warning: extremely high energy");
    reveal_strlit("temperature (C): ");
    let s = spec_advisories(w, v, h, av, t);
    // The four line kinds are pairwise distinct: the warnings differ in
    // length, and the temperature report never starts with a 'w'.
    assert(heavy_line().len() == 21);
    assert(high_speed_line().len() == 49);
    assert(high_energy_line().len() == 30);
    assert(temperature_line(t)[0] == 't');
    assert(heavy_line()[0] == 'w');
    assert(high_speed_line()[0] == 'w');
    assert(high_energy_line()[0] == 'w');
    assert(temperature_line(t) != heavy_line());
    assert(temperature_line(t) != high_speed_line());
    assert(temperature_line(t) != high_energy_line());
    if w > 1000 * SCALE {
        assert(s[0] == heavy_line());
        assert(s.contains(heavy_line()));
    }
    if v > 50 * SCALE {
        let i: int = if w > 1000 * SCALE { 1int } else { 0int };
        assert(s[i] == high_speed_line());
        assert(s.contains(high_speed_line()));
    }
    if spec_total(w, v, h, av) > 10000 * SCALE {
        let i: int = (if w > 1000 * SCALE { 1int } else { 0int }) + (if v > 50 * SCALE {
            1int
        } else {
            0int
        });
        assert(s[i] == high_energy_line());
        assert(s.contains(high_energy_line()));
    }
}

/// A zero volume never divides: density and pressure are zero by definition,
/// for every weight.
pub proof fn lemma_zero_volume_guard(w: int)
    ensures
        spec_density(w, 0) == 0,
        spec_pressure(w, 0) == 0,
{
}

/// The comment list of a computed result carries each advisory warning
/// exactly when its threshold is crossed on the resolved inputs.
pub proof fn lemma_result_advisories(p: ObjectParameters, r: PhysicsResult)
    requires
        single_ok(p, r),
    ensures
        comments_view(r.comments@).contains(heavy_line()) <==> p.weight > 1000 * SCALE,
        comments_view(r.comments@).contains(high_speed_line()) <==> p.velocity > 50 * SCALE,
        comments_view(r.comments@).contains(high_energy_line()) <==> r.total_energy > 10000
            * SCALE,
{
    let w = p.weight as int;
    let v = p.velocity as int;
    let h = p.height_or_default();
    let av = p.angular_velocity_or_default();
    let t = p.temperature_or_default();
    let ts = choose|ts: nat| comments_view(r.comments@) == spec_comments(w, v, h, av, t, ts);
    lemma_advisory_thresholds(w, v, h, av, t);
    reveal_strlit("warning: heavy object");
    reveal_strlit("warning: high speed, relativistic effects ignored");
    reveal_strlit("warning: extremely high energy");
    reveal_strlit("timestamp (s): ");
    let pre = spec_advisories(w, v, h, av, t);
    let full = spec_comments(w, v, h, av, t, ts);
    // The timestamp line is none of the warnings: it never starts with 'w'.
    assert(timestamp_line(ts)[0] == 't');
    assert(heavy_line()[0] == 'w');
    assert(high_speed_line()[0] == 'w');
    assert(high_energy_line()[0] == 'w');
    assert(timestamp_line(ts) != heavy_line());
    assert(timestamp_line(ts) != high_speed_line());
    assert(timestamp_line(ts) != high_energy_line());
    // Pushing the timestamp line neither adds nor hides a warning.
    assert forall|x: Seq<char>|
        x != timestamp_line(ts) implies (full.contains(x) <==> pre.contains(x)) by {
        if pre.contains(x) {
            let i: int = choose|i: int| 0 <= i < pre.len() && pre[i] == x;
            assert(full[i] == x);
        }
        if full.contains(x) {
            let i: int = choose|i: int| 0 <= i < full.len() && full[i] == x;
            assert(i < pre.len());
            assert(pre[i] == x);
        }
    }
}

/// Single evaluation is deterministic in everything but the wall clock: two
/// results for the same parameters agree on every numeric field and on every
/// comment except the final timestamp line.
pub proof fn lemma_single_deterministic(
    p: ObjectParameters,
    r1: PhysicsResult,
    r2: PhysicsResult,
)
    requires
        single_ok(p, r1),
        single_ok(p, r2),
    ensures
        r1.weight == r2.weight,
        r1.volume == r2.volume,
        r1.velocity == r2.velocity,
        r1.density == r2.density,
        r1.kinetic_energy == r2.kinetic_energy,
        r1.potential_energy == r2.potential_energy,
        r1.momentum == r2.momentum,
        r1.force == r2.force,
        r1.pressure == r2.pressure,
        r1.angular_velocity == r2.angular_velocity,
        r1.torque == r2.torque,
        r1.total_energy == r2.total_energy,
        r1.comments@.len() == r2.comments@.len(),
        forall|j: int|
            0 <= j < r1.comments@.len() - 1 ==> r1.comments@[j]@ == r2.comments@[j]@,
{
    let w = p.weight as int;
    let v = p.velocity as int;
    let h = p.height_or_default();
    let av = p.angular_velocity_or_default();
    let t = p.temperature_or_default();
    let ts1 = choose|ts: nat| comments_view(r1.comments@) == spec_comments(w, v, h, av, t, ts);
    let ts2 = choose|ts: nat| comments_view(r2.comments@) == spec_comments(w, v, h, av, t, ts);
    let pre = spec_advisories(w, v, h, av, t);
    assert(comments_view(r1.comments@).len() == pre.len() + 1);
    assert(comments_view(r2.comments@).len() == pre.len() + 1);
    assert forall|j: int| 0 <= j < r1.comments@.len() - 1 implies r1.comments@[j]@
        == r2.comments@[j]@ by {
        assert(comments_view(r1.comments@)[j] == pre[j]);
        assert(comments_view(r2.comments@)[j] == pre[j]);
    }
}

/// The reducer's per-element term is built from the very formulas that a
/// single evaluation reports: kinetic plus potential energy.
pub proof fn lemma_pair_energy_matches_single(p: ObjectParameters, r: PhysicsResult)
    requires
        single_ok(p, r),
    ensures
        spec_pair_energy(p.weight as int, p.velocity as int, p.height_or_default())
            == r.kinetic_energy + r.potential_energy,
{
}

} // verus!
