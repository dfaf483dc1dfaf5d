// The minimal record variants: a reduced result without the torque and
// total-energy fields, and the experimental energy prediction.

use vstd::prelude::*;
use crate::fixed::{
    abs_val, in_range, div_trunc, div_trunc_i128, lemma_mul_bound,
};
use crate::calc::{
    CalcError, spec_density, spec_kinetic, spec_momentum, all_in_range, density, kinetic_energy,
    momentum,
};

verus! {

/// The minimal derived record: kinetic energy, momentum and guarded density.
#[derive(Clone, Copy, PartialEq, Eq, Structural, Debug)]
pub struct Physics {
    pub energy: i128,
    pub momentum: i128,
    pub density: i128,
}

/// The minimal record together with the inputs it echoes back.
#[derive(Clone, Copy, PartialEq, Eq, Structural, Debug)]
pub struct ObjectData {
    pub weight: i128,
    pub volume: i128,
    pub density: i128,
    pub kinetic_energy: i128,
    pub momentum: i128,
}

/// What one minimal evaluation promises of its record.
pub open spec fn object_data_ok(w: i128, v: i128, vol: i128, o: ObjectData) -> bool {
    &&& o.weight == w
    &&& o.volume == vol
    &&& o.density == spec_density(w as int, vol as int)
    &&& o.kinetic_energy == spec_kinetic(w as int, v as int)
    &&& o.momentum == spec_momentum(w as int, v as int)
}

/// Evaluates the minimal formula set on one object.
pub fn calc_physics(mass: i128, velocity: i128, volume: i128) -> (r: Physics)
    requires
        in_range(mass as int),
        in_range(velocity as int),
        in_range(volume as int),
    ensures
        r.energy == spec_kinetic(mass as int, velocity as int),
        r.momentum == spec_momentum(mass as int, velocity as int),
        r.density == spec_density(mass as int, volume as int),
        volume == 0 ==> r.density == 0,
{
    Physics {
        energy: kinetic_energy(mass, velocity),
        momentum: momentum(mass, velocity),
        density: density(mass, volume),
    }
}

/// Evaluates the minimal formula set, echoing the inputs in the record.
pub fn calculate_object(weight: i128, velocity: i128, volume: i128) -> (r: ObjectData)
    requires
        in_range(weight as int),
        in_range(velocity as int),
        in_range(volume as int),
    ensures
        object_data_ok(weight, velocity, volume, r),
        volume == 0 ==> r.density == 0,
{
    ObjectData {
        weight,
        volume,
        density: density(weight, volume),
        kinetic_energy: kinetic_energy(weight, velocity),
        momentum: momentum(weight, velocity),
    }
}

/// Evaluates the minimal formula set once per index, in order. The three
/// arrays must have one length; a mismatch is rejected before any element
/// is computed.
pub fn calculate_multiple(
    weights: &Vec<i128>,
    velocities: &Vec<i128>,
    volumes: &Vec<i128>,
) -> (r: Result<Vec<ObjectData>, CalcError>)
    requires
        all_in_range(weights@),
        all_in_range(velocities@),
        all_in_range(volumes@),
    ensures
        r is Ok <==> velocities@.len() == weights@.len() && volumes@.len() == weights@.len(),
        r is Err ==> r == Result::<Vec<ObjectData>, CalcError>::Err(CalcError::LengthMismatch),
        match r {
            Ok(out) => {
                &&& out@.len() == weights@.len()
                &&& forall|i: int|
                    0 <= i < weights@.len() ==> object_data_ok(
                        weights@[i],
                        velocities@[i],
                        volumes@[i],
                        #[trigger] out@[i],
                    )
            },
            Err(_) => true,
        },
{
    let n = weights.len();
    if velocities.len() != n || volumes.len() != n {
        return Err(CalcError::LengthMismatch);
    }
    let mut out: Vec<ObjectData> = Vec::new();
    let mut i: usize = 0;
    while i < n
        invariant
            i <= n,
            n == weights@.len(),
            velocities@.len() == n,
            volumes@.len() == n,
            all_in_range(weights@),
            all_in_range(velocities@),
            all_in_range(volumes@),
            out@.len() == i,
            forall|j: int|
                0 <= j < i ==> object_data_ok(
                    weights@[j],
                    velocities@[j],
                    volumes@[j],
                    #[trigger] out@[j],
                ),
        decreases n - i,
    {
        let one = calculate_object(weights[i], velocities[i], volumes[i]);
        out.push(one);
        i = i + 1;
    }
    Ok(out)
}

/// The experimental prediction: a flat five-percent markup on an energy.
/// It is a labeled multiplier, not a physically derived quantity.
pub open spec fn spec_predicted(e: int) -> int {
    div_trunc(e * 21, 20)
}

/// Applies the five-percent markup; the bound keeps the product in an `i128`.
pub fn predicted_energy(energy: i128) -> (r: i128)
    requires
        abs_val(energy as int) <= 8_000_000_000_000_000_000_000_000_000_000_000_000,
    ensures
        r == spec_predicted(energy as int),
{
    proof {
        lemma_mul_bound(
            energy as int,
            21,
            8_000_000_000_000_000_000_000_000_000_000_000_000,
            21,
        );
    }
    let t: i128 = energy * 21;
    div_trunc_i128(t, 20)
}

} // verus!
