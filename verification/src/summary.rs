// The human-readable summary line.

use vstd::prelude::*;
use crate::fixed::{SCALE, in_range};
use crate::text::{two_dec_seq, format_two_dec};
use crate::calc::{
    spec_density, spec_kinetic, spec_potential, spec_momentum, spec_force, spec_pressure,
    spec_total, density, kinetic_energy, potential_energy, momentum, force, pressure,
    total_energy,
};

verus! {

/// The summary line: the derived quantities of one evaluation at the default
/// height, spin and temperature, each rendered with two decimal places.
pub open spec fn spec_summary(w: int, v: int, vol: int) -> Seq<char> {
    "density="@ + two_dec_seq(spec_density(w, vol)) + ", kineticEnergy="@ + two_dec_seq(
        spec_kinetic(w, v),
    ) + ", potentialEnergy="@ + two_dec_seq(spec_potential(w, SCALE as int)) + ", momentum="@
        + two_dec_seq(spec_momentum(w, v)) + ", force="@ + two_dec_seq(spec_force(w))
        + ", pressure="@ + two_dec_seq(spec_pressure(w, vol)) + ", totalEnergy="@ + two_dec_seq(
        spec_total(w, v, SCALE as int, 0),
    )
}

/// Formats the quantities of one evaluation at the defaults into one line.
pub fn summarize(weight: i128, velocity: i128, volume: i128) -> (r: String)
    requires
        in_range(weight as int),
        in_range(velocity as int),
        in_range(volume as int),
    ensures
        r@ == spec_summary(weight as int, velocity as int, volume as int),
{
    let mut s = String::from_str("density=");
    let d = format_two_dec(density(weight, volume));
    s.append(d.as_str());
    s.append(", kineticEnergy=");
    let ke = format_two_dec(kinetic_energy(weight, velocity));
    s.append(ke.as_str());
    s.append(", potentialEnergy=");
    let pe = format_two_dec(potential_energy(weight, SCALE));
    s.append(pe.as_str());
    s.append(", momentum=");
    let mo = format_two_dec(momentum(weight, velocity));
    s.append(mo.as_str());
    s.append(", force=");
    let fo = format_two_dec(force(weight));
    s.append(fo.as_str());
    s.append(", pressure=");
    let pr = format_two_dec(pressure(weight, volume));
    s.append(pr.as_str());
    s.append(", totalEnergy=");
    let te = format_two_dec(total_energy(weight, velocity, SCALE, 0));
    s.append(te.as_str());
    proof {
        assert(s@ =~= spec_summary(weight as int, velocity as int, volume as int));
    }
    s
}

} // verus!
