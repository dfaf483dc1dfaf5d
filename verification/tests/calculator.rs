// Tests of the calculator over micro-unit fixed-point values:
// the integer 1_000_000 stands for one whole unit.

use physics_calc::calc::{compute_batch, compute_single, CalcError, ObjectParameters};
use physics_calc::simple::{
    calc_physics, calculate_multiple, calculate_object, predicted_energy,
};

fn params(weight: i128, velocity: i128, volume: i128) -> ObjectParameters {
    ObjectParameters {
        weight,
        velocity,
        volume,
        height: None,
        angular_velocity: None,
        temperature: None,
    }
}

fn has_comment(r: &physics_calc::calc::PhysicsResult, text: &str) -> bool {
    r.comments.iter().any(|c| c.contains(text))
}

#[test]
fn single_reference_values() {
    let p = ObjectParameters {
        weight: 10_000_000,
        velocity: 2_000_000,
        volume: 5_000_000,
        height: Some(1_000_000),
        angular_velocity: Some(0),
        temperature: Some(25_000_000),
    };
    let r = compute_single(p);
    assert_eq!(r.density, 2_000_000);
    assert_eq!(r.kinetic_energy, 20_000_000);
    assert_eq!(r.potential_energy, 98_100_000);
    assert_eq!(r.momentum, 20_000_000);
    assert_eq!(r.force, 98_100_000);
    assert_eq!(r.pressure, 19_620_000);
    assert_eq!(r.torque, Some(0));
    assert_eq!(r.total_energy, 118_100_000);
    assert_eq!(r.weight, 10_000_000);
    assert_eq!(r.volume, 5_000_000);
    assert_eq!(r.velocity, 2_000_000);
    assert_eq!(r.angular_velocity, Some(0));
}

#[test]
fn single_zero_volume_is_guarded() {
    let r = compute_single(params(10_000_000, 2_000_000, 0));
    assert_eq!(r.density, 0);
    assert_eq!(r.pressure, 0);
}

#[test]
fn single_defaults_match_explicit_values() {
    let defaulted = compute_single(params(10_000_000, 2_000_000, 5_000_000));
    let explicit = compute_single(ObjectParameters {
        weight: 10_000_000,
        velocity: 2_000_000,
        volume: 5_000_000,
        height: Some(1_000_000),
        angular_velocity: Some(0),
        temperature: Some(25_000_000),
    });
    assert_eq!(defaulted.potential_energy, explicit.potential_energy);
    assert_eq!(defaulted.total_energy, explicit.total_energy);
    // The optional output fields mirror the presence of the optional inputs.
    assert_eq!(defaulted.angular_velocity, None);
    assert_eq!(defaulted.torque, None);
    assert_eq!(explicit.angular_velocity, Some(0));
    assert_eq!(explicit.torque, Some(0));
}

#[test]
fn heavy_object_advisory_fires_above_threshold() {
    let heavy = compute_single(params(1_500_000_000, 2_000_000, 5_000_000));
    assert!(has_comment(&heavy, "heavy object"));
    let light = compute_single(params(999_000_000, 2_000_000, 5_000_000));
    assert!(!has_comment(&light, "heavy object"));
}

#[test]
fn high_speed_advisory_fires_above_threshold() {
    let fast = compute_single(params(10_000_000, 60_000_000, 5_000_000));
    assert!(has_comment(&fast, "high speed"));
    let slow = compute_single(params(10_000_000, 10_000_000, 5_000_000));
    assert!(!has_comment(&slow, "high speed"));
}

#[test]
fn high_energy_advisory_fires_above_threshold() {
    // weight 100, velocity 20 -> kinetic energy 20000 > 10000.
    let hot = compute_single(params(100_000_000, 20_000_000, 5_000_000));
    assert!(has_comment(&hot, "extremely high energy"));
    let cool = compute_single(params(10_000_000, 2_000_000, 5_000_000));
    assert!(!has_comment(&cool, "extremely high energy"));
}

#[test]
fn advisories_do_not_fire_at_the_threshold_itself() {
    let at_weight = compute_single(params(1_000_000_000, 2_000_000, 5_000_000));
    assert!(!has_comment(&at_weight, "heavy object"));
    let at_speed = compute_single(params(10_000_000, 50_000_000, 5_000_000));
    assert!(!has_comment(&at_speed, "high speed"));
}

#[test]
fn batch_with_all_optional_arrays() {
    let weights = vec![10_000_000i128];
    let velocities = vec![2_000_000i128];
    let volumes = vec![5_000_000i128];
    let heights = vec![2_000_000i128];
    let angular_velocities = vec![4_000_000i128];
    let temperatures = vec![30_000_000i128];
    let out = compute_batch(
        &weights,
        &velocities,
        &volumes,
        Some(&heights),
        Some(&angular_velocities),
        Some(&temperatures),
    )
    .unwrap();
    let single = compute_single(ObjectParameters {
        weight: 10_000_000,
        velocity: 2_000_000,
        volume: 5_000_000,
        height: Some(2_000_000),
        angular_velocity: Some(4_000_000),
        temperature: Some(30_000_000),
    });
    assert_eq!(out[0].potential_energy, single.potential_energy);
    // torque = 4 * 10 * 0.5 = 20; total = 20 + 196.2 + 10 = 226.2.
    assert_eq!(out[0].torque, Some(20_000_000));
    assert_eq!(out[0].total_energy, 226_200_000);
    assert_eq!(out[0].total_energy, single.total_energy);
    let n = out[0].comments.len();
    assert_eq!(out[0].comments[n - 2], "temperature (C): 30.00");
}

#[test]
fn comments_end_with_temperature_and_timestamp() {
    let r = compute_single(params(10_000_000, 2_000_000, 5_000_000));
    let n = r.comments.len();
    assert!(n >= 2);
    assert_eq!(r.comments[n - 2], "temperature (C): 25.00");
    assert!(r.comments[n - 1].starts_with("timestamp (s): "));
}

#[test]
fn single_is_deterministic_but_for_the_timestamp() {
    let p = params(10_000_000, 2_000_000, 5_000_000);
    let a = compute_single(p);
    let b = compute_single(p);
    assert_eq!(a.density, b.density);
    assert_eq!(a.kinetic_energy, b.kinetic_energy);
    assert_eq!(a.potential_energy, b.potential_energy);
    assert_eq!(a.momentum, b.momentum);
    assert_eq!(a.force, b.force);
    assert_eq!(a.pressure, b.pressure);
    assert_eq!(a.total_energy, b.total_energy);
    assert_eq!(a.comments.len(), b.comments.len());
    for i in 0..a.comments.len() - 1 {
        assert_eq!(a.comments[i], b.comments[i]);
    }
}

#[test]
fn single_propagates_negative_inputs() {
    let r = compute_single(params(10_000_000, -2_000_000, -5_000_000));
    assert_eq!(r.kinetic_energy, 20_000_000);
    assert_eq!(r.momentum, -20_000_000);
    assert_eq!(r.density, -2_000_000);
}

#[test]
fn single_truncates_toward_zero() {
    // 10 / 3 in micro-units.
    let r = compute_single(params(10_000_000, 0, 3_000_000));
    assert_eq!(r.density, 3_333_333);
    let n = compute_single(params(-10_000_000, 0, 3_000_000));
    assert_eq!(n.density, -3_333_333);
}

#[test]
fn batch_matches_single_per_index() {
    let weights = vec![10_000_000i128, 1_500_000_000, 3_000_000];
    let velocities = vec![2_000_000i128, 60_000_000, -4_000_000];
    let volumes = vec![5_000_000i128, 0, 3_000_000];
    let out = compute_batch(&weights, &velocities, &volumes, None, None, None).unwrap();
    assert_eq!(out.len(), 3);
    for i in 0..3 {
        let single = compute_single(params(weights[i], velocities[i], volumes[i]));
        let b = &out[i];
        assert_eq!(b.weight, single.weight);
        assert_eq!(b.volume, single.volume);
        assert_eq!(b.velocity, single.velocity);
        assert_eq!(b.density, single.density);
        assert_eq!(b.kinetic_energy, single.kinetic_energy);
        assert_eq!(b.potential_energy, single.potential_energy);
        assert_eq!(b.momentum, single.momentum);
        assert_eq!(b.force, single.force);
        assert_eq!(b.pressure, single.pressure);
        assert_eq!(b.total_energy, single.total_energy);
        assert_eq!(b.angular_velocity, single.angular_velocity);
        assert_eq!(b.torque, single.torque);
    }
}

#[test]
fn batch_uses_optional_arrays_in_lockstep() {
    let weights = vec![10_000_000i128, 20_000_000];
    let velocities = vec![0i128, 0];
    let volumes = vec![1_000_000i128, 1_000_000];
    let heights = vec![2_000_000i128, 3_000_000];
    let out = compute_batch(&weights, &velocities, &volumes, Some(&heights), None, None)
        .unwrap();
    // weight * 9.81 * height: 10*9.81*2 and 20*9.81*3.
    assert_eq!(out[0].potential_energy, 196_200_000);
    assert_eq!(out[1].potential_energy, 588_600_000);
}

#[test]
fn batch_rejects_length_mismatch() {
    let weights = vec![10_000_000i128, 20_000_000];
    let velocities = vec![0i128];
    let volumes = vec![1_000_000i128, 1_000_000];
    let r = compute_batch(&weights, &velocities, &volumes, None, None, None);
    assert_eq!(r.unwrap_err(), CalcError::LengthMismatch);
}

#[test]
fn batch_rejects_short_optional_array() {
    let weights = vec![10_000_000i128, 20_000_000];
    let velocities = vec![0i128, 0];
    let volumes = vec![1_000_000i128, 1_000_000];
    let heights = vec![2_000_000i128];
    let r = compute_batch(&weights, &velocities, &volumes, Some(&heights), None, None);
    assert_eq!(r.unwrap_err(), CalcError::LengthMismatch);
}

#[test]
fn calc_physics_reference_values() {
    let r = calc_physics(10_000_000, 2_000_000, 5_000_000);
    assert_eq!(r.energy, 20_000_000);
    assert_eq!(r.momentum, 20_000_000);
    assert_eq!(r.density, 2_000_000);
}

#[test]
fn calc_physics_guards_zero_volume() {
    let r = calc_physics(10_000_000, 2_000_000, 0);
    assert_eq!(r.density, 0);
}

#[test]
fn calculate_object_reference_values() {
    let r = calculate_object(10_000_000, 2_000_000, 5_000_000);
    assert_eq!(r.weight, 10_000_000);
    assert_eq!(r.volume, 5_000_000);
    assert_eq!(r.density, 2_000_000);
    assert_eq!(r.kinetic_energy, 20_000_000);
    assert_eq!(r.momentum, 20_000_000);
}

#[test]
fn calculate_multiple_matches_calculate_object() {
    let weights = vec![10_000_000i128, 7_000_000];
    let velocities = vec![2_000_000i128, -3_000_000];
    let volumes = vec![5_000_000i128, 0];
    let out = calculate_multiple(&weights, &velocities, &volumes).unwrap();
    assert_eq!(out.len(), 2);
    for i in 0..2 {
        assert_eq!(out[i], calculate_object(weights[i], velocities[i], volumes[i]));
    }
}

#[test]
fn calculate_multiple_rejects_length_mismatch() {
    let weights = vec![10_000_000i128, 7_000_000];
    let velocities = vec![2_000_000i128];
    let volumes = vec![5_000_000i128, 0];
    let r = calculate_multiple(&weights, &velocities, &volumes);
    assert_eq!(r.unwrap_err(), CalcError::LengthMismatch);
}

#[test]
fn predicted_energy_is_a_five_percent_markup() {
    assert_eq!(predicted_energy(20_000_000), 21_000_000);
    assert_eq!(predicted_energy(0), 0);
    assert_eq!(predicted_energy(-20_000_000), -21_000_000);
}
