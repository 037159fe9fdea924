//! Velocity estimation: rates of change between two ticks.

use vstd::prelude::*;
use crate::util::si::{
    fits_i64, lemma_product_bound, lemma_trunc_div_bound, lemma_trunc_div_scaled_bound, narrow,
    trunc_div, UNIT,
};

verus! {

/// The sum of the first `count` readings.
pub open spec fn spec_travel_sum(travel: Seq<i64>, count: int) -> int
    decreases count,
{
    if count <= 0 {
        0
    } else {
        spec_travel_sum(travel, count - 1) + travel[count - 1]
    }
}

/// The forward travel of the robot: the mean of the forward wheels'
/// distances, or the previous value for a rig without forward wheels.
pub open spec fn spec_mean_travel(travel: Seq<i64>, previous: int) -> int {
    if travel.len() == 0 {
        previous
    } else {
        trunc_div(spec_travel_sum(travel, travel.len() as int), travel.len() as int)
    }
}

/// A change per second: `change / dt` with `dt` in nanoseconds. A tick that
/// took no time, or less, has rate zero rather than a division by zero.
pub open spec fn spec_rate(change: int, dt: int) -> int {
    if dt > 0 {
        trunc_div(change * UNIT, dt)
    } else {
        0
    }
}

/// The angular velocity of a tick: the gyro rate where the inertial sensor
/// is trusted and supplies one, else the change of heading per second.
pub open spec fn spec_angular_velocity(
    inertial_trusted: bool,
    gyro_rate: Option<i64>,
    delta_heading: int,
    dt: int,
) -> int {
    if inertial_trusted && gyro_rate.is_some() {
        gyro_rate.unwrap() as int
    } else {
        spec_rate(delta_heading, dt)
    }
}

/// What the velocity estimator derives at a tick.
#[derive(Debug, Clone, Copy, PartialEq, Eq, Structural)]
pub struct VelocityEstimate {
    /// The mean distance of the forward wheels, in nanometres.
    pub forward_travel: i64,
    /// Nanometres per second.
    pub linear_velocity: i64,
    /// Nanoradians per second.
    pub angular_velocity: i64,
}

/// The estimate of a tick as formulas over the integers; `None` where a
/// velocity cannot be stored.
pub open spec fn spec_estimate(
    forward: Seq<i64>,
    previous_forward_travel: i64,
    inertial_trusted: bool,
    gyro_rate: Option<i64>,
    delta_heading: i64,
    dt: i64,
) -> Option<VelocityEstimate> {
    let forward_travel = spec_mean_travel(forward, previous_forward_travel as int);
    let linear = spec_rate(forward_travel - previous_forward_travel, dt as int);
    let angular = spec_angular_velocity(
        inertial_trusted,
        gyro_rate,
        delta_heading as int,
        dt as int,
    );
    if fits_i64(linear) && fits_i64(angular) {
        Some(
            VelocityEstimate {
                forward_travel: forward_travel as i64,
                linear_velocity: linear as i64,
                angular_velocity: angular as i64,
            },
        )
    } else {
        None
    }
}

/// The sum of stored values is within the count times the range of one.
proof fn lemma_travel_sum_bounded(travel: Seq<i64>, count: int)
    requires
        0 <= count <= travel.len(),
    ensures
        count * (i64::MIN as int) <= spec_travel_sum(travel, count) <= count * (i64::MAX as int),
    decreases count,
{
    if count > 0 {
        lemma_travel_sum_bounded(travel, count - 1);
        assert(count * (i64::MIN as int) == (count - 1) * (i64::MIN as int) + i64::MIN)
            by (nonlinear_arith);
        assert(count * (i64::MAX as int) == (count - 1) * (i64::MAX as int) + i64::MAX)
            by (nonlinear_arith);
    }
}

/// The mean of stored values can itself be stored.
pub proof fn lemma_mean_travel_fits(travel: Seq<i64>, previous: i64)
    ensures
        fits_i64(spec_mean_travel(travel, previous as int)),
{
    let n = travel.len() as int;
    if n > 0 {
        let sum = spec_travel_sum(travel, n);
        lemma_travel_sum_bounded(travel, n);
        if sum >= 0 {
            assert(n * (i64::MAX as int) == (i64::MAX as int) * n) by (nonlinear_arith);
            lemma_trunc_div_scaled_bound(sum, n, i64::MAX as int);
        } else {
            assert(n * (i64::MIN as int) == -(0x8000_0000_0000_0000 * n)) by (nonlinear_arith);
            lemma_trunc_div_scaled_bound(sum, n, 0x8000_0000_0000_0000);
        }
    }
}

/// The forward travel of the robot: the mean of the current forward-wheel
/// distances. A rig without forward wheels carries the previous value.
pub fn mean_travel(travel: &[i64], previous: i64) -> (mean: i64)
    ensures
        mean == spec_mean_travel(travel@, previous as int),
{
    let n = travel.len();
    if n == 0 {
        return previous;
    }
    let mut sum: i128 = 0;
    let mut i: usize = 0;
    while i < n
        invariant
            0 <= i <= n,
            n == travel.len(),
            sum == spec_travel_sum(travel@, i as int),
        decreases n - i,
    {
        proof {
            lemma_travel_sum_bounded(travel@, i as int);
            lemma_travel_sum_bounded(travel@, i + 1);
            lemma_product_bound(
                i as int,
                i64::MAX as int,
                0xffff_ffff_ffff_ffff,
                0x7fff_ffff_ffff_ffff,
            );
            lemma_product_bound(
                i as int,
                i64::MIN as int,
                0xffff_ffff_ffff_ffff,
                0x8000_0000_0000_0000,
            );
            lemma_product_bound(
                i + 1,
                i64::MAX as int,
                0xffff_ffff_ffff_ffff,
                0x7fff_ffff_ffff_ffff,
            );
            lemma_product_bound(
                i + 1,
                i64::MIN as int,
                0xffff_ffff_ffff_ffff,
                0x8000_0000_0000_0000,
            );
        }
        sum = sum + travel[i] as i128;
        i = i + 1;
    }
    proof {
        lemma_mean_travel_fits(travel@, previous);
    }
    (sum / (n as i128)) as i64
}

/// The rate of a wide change over a tick.
fn rate_of(change: i128, dt: i64) -> (r: Option<i64>)
    requires
        -0x1_0000_0000_0000_0000 <= change <= 0x1_0000_0000_0000_0000,
    ensures
        match r {
            Some(v) => v == spec_rate(change as int, dt as int),
            None => !fits_i64(spec_rate(change as int, dt as int)),
        },
{
    if dt > 0 {
        proof {
            lemma_product_bound(change as int, UNIT as int, 0x1_0000_0000_0000_0000, UNIT as int);
            lemma_trunc_div_bound(change * UNIT, dt as int);
        }
        narrow((change * (UNIT as i128)) / (dt as i128))
    } else {
        Some(0)
    }
}

/// The rate of a change over a tick of `dt` nanoseconds, per second. Zero
/// for a tick that took no time or less. `None` where the rate cannot be
/// stored.
pub fn rate(change: i64, dt: i64) -> (r: Option<i64>)
    ensures
        match r {
            Some(v) => v == spec_rate(change as int, dt as int),
            None => !fits_i64(spec_rate(change as int, dt as int)),
        },
{
    rate_of(change as i128, dt)
}

/// The linear velocity of a tick in nanometres per second: the change of the
/// forward travel over the elapsed time. `None` where the velocity cannot be
/// stored.
pub fn linear_velocity(
    forward_travel: i64,
    previous_forward_travel: i64,
    dt: i64,
) -> (v: Option<i64>)
    ensures
        match v {
            Some(r) => r == spec_rate(forward_travel - previous_forward_travel, dt as int),
            None => !fits_i64(spec_rate(forward_travel - previous_forward_travel, dt as int)),
        },
{
    rate_of(forward_travel as i128 - previous_forward_travel as i128, dt)
}

/// The angular velocity of a tick in nanoradians per second: the gyro rate
/// where the inertial sensor is trusted and supplies one, else the change of
/// heading over the elapsed time. `None` where the velocity cannot be stored.
pub fn angular_velocity(
    inertial_trusted: bool,
    gyro_rate: Option<i64>,
    delta_heading: i64,
    dt: i64,
) -> (v: Option<i64>)
    ensures
        match v {
            Some(r) => r == spec_angular_velocity(
                inertial_trusted,
                gyro_rate,
                delta_heading as int,
                dt as int,
            ),
            None => !fits_i64(
                spec_angular_velocity(inertial_trusted, gyro_rate, delta_heading as int, dt as int),
            ),
        },
{
    match gyro_rate {
        Some(g) if inertial_trusted => Some(g),
        _ => rate(delta_heading, dt),
    }
}

/// Estimates the velocities of a tick.
///
/// * The forward travel is the mean of the forward wheels' distances; a rig
///   without forward wheels carries the previous value.
/// * The linear velocity is the change of the forward travel over `dt`.
/// * The angular velocity is the gyro rate where the inertial sensor is
///   trusted and supplies one, else the change of heading over `dt`.
///
/// `dt` is the time since the previous tick in nanoseconds; where it is not
/// positive the velocities computed from it are zero. `None` where a
/// velocity cannot be stored.
pub fn estimate(
    forward: &[i64],
    previous_forward_travel: i64,
    inertial_trusted: bool,
    gyro_rate: Option<i64>,
    delta_heading: i64,
    dt: i64,
) -> (e: Option<VelocityEstimate>)
    ensures
        e == spec_estimate(
            forward@,
            previous_forward_travel,
            inertial_trusted,
            gyro_rate,
            delta_heading,
            dt,
        ),
{
    proof {
        lemma_mean_travel_fits(forward@, previous_forward_travel);
    }
    let forward_travel = mean_travel(forward, previous_forward_travel);
    let linear = match linear_velocity(forward_travel, previous_forward_travel, dt) {
        Some(v) => v,
        None => {
            return None;
        },
    };
    match angular_velocity(inertial_trusted, gyro_rate, delta_heading, dt) {
        Some(angular) => Some(
            VelocityEstimate {
                forward_travel,
                linear_velocity: linear,
                angular_velocity: angular,
            },
        ),
        None => None,
    }
}

} // verus!
