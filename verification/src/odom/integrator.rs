//! The pose integrator: from wheel travel and a change of heading to the next
//! pose.
//!
//! A wheel that sits at an offset from the centre of rotation travels an arc
//! while the robot turns. The arc is converted into the chord that the centre
//! moved along: the part of the travel that the rotation alone caused is
//! taken out and put back as a chord displacement. The mean displacement of
//! the wheels of each axis, in the robot's frame, is then projected into the
//! global frame at the average heading of the tick.

use vstd::prelude::*;
use crate::odom::pose::Pose;
use crate::util::si::{
    fits_i64, is_trig_value, lemma_product_bound, lemma_trunc_div_bound,
    lemma_trunc_div_scaled_bound, narrow, spec_rotate_x, spec_rotate_y, trunc_div, wrap,
    wrap_angle, Vector2, HALF_TURN, MAX_WHEELS, TAU, UNIT,
};

verus! {

/// The wheels of one axis at a tick: for each wheel its distance now, its
/// distance at the previous tick, and its offset.
#[derive(Debug, Clone, Copy)]
pub struct Axis<'a> {
    pub travel: &'a [i64],
    pub previous: &'a [i64],
    pub offsets: &'a [i64],
}

/// An axis as a mathematical value.
#[verifier::ext_equal]
pub struct AxisView {
    pub travel: Seq<i64>,
    pub previous: Seq<i64>,
    pub offsets: Seq<i64>,
}

impl AxisView {
    /// Whether there is one previous distance and one offset for every wheel,
    /// and no more wheels than an axis may carry.
    pub open spec fn wf(self) -> bool {
        &&& self.travel.len() == self.previous.len()
        &&& self.travel.len() == self.offsets.len()
        &&& self.travel.len() <= MAX_WHEELS
    }
}

impl<'a> View for Axis<'a> {
    type V = AxisView;

    open spec fn view(&self) -> AxisView {
        AxisView { travel: self.travel@, previous: self.previous@, offsets: self.offsets@ }
    }
}

/// The trigonometric values of a tick, each scaled by [`UNIT`]. The host
/// evaluates them between the two steps of a tick.
#[derive(Debug, Clone, Copy, PartialEq, Eq, Structural)]
pub struct Trig {
    /// The sine of half the change of heading.
    pub half_delta_sin: i64,
    /// The sine of the average heading.
    pub average_sin: i64,
    /// The cosine of the average heading.
    pub average_cos: i64,
}

impl Trig {
    /// Whether the three values are sines and cosines: at most 1 in
    /// magnitude.
    pub open spec fn wf(self) -> bool {
        &&& is_trig_value(self.half_delta_sin as int)
        &&& is_trig_value(self.average_sin as int)
        &&& is_trig_value(self.average_cos as int)
    }
}

/// The change of heading, in nanoradians, below which the chord is taken
/// for the arc.
///
/// Under an arc of `d` radians the chord is shorter by `d * d / 24` of its
/// length. Below a tenth of a milliradian that is less than one part in the
/// scale, so nothing that can be stored is lost, while the sine of half such
/// a change, scaled by [`UNIT`], has five digits at most and would lose
/// most of the displacement to its rounding.
pub const SMALL_ANGLE: i64 = 100_000;

/// The change of heading between two raw headings, along the shortest arc.
pub open spec fn spec_heading_delta(previous: int, current: int) -> int {
    wrap_angle(current - previous)
}

/// The heading at which a tick's displacement is projected into the global
/// frame: the current raw heading, advanced by half the change of heading,
/// plus the heading of the origin pose. The half change is added to the
/// current heading, not to the previous one: the projection leads the
/// heading by half a step.
pub open spec fn spec_average_heading(current: int, delta: int, offset: int) -> int {
    current + trunc_div(delta, 2) + offset
}

/// The length of the chord under a unit arc of the given change of heading,
/// from the sine of half that change: twice the sine.
pub open spec fn spec_unit_chord(half_delta_sin: int) -> int {
    2 * half_delta_sin
}

/// One wheel's displacement in the robot's frame.
///
/// It is the unit chord times the radius of the arc the centre moved along,
/// which is the wheel's arc radius, travel over change of heading, plus its
/// offset. For a change of heading smaller than [`SMALL_ANGLE`] the unit
/// chord is the change of heading itself, and the product is the travel plus
/// the change of heading times the offset; without a change of heading that
/// is the travel.
pub open spec fn spec_local_component(
    raw_delta: int,
    delta_heading: int,
    half_delta_sin: int,
    offset: int,
) -> int {
    if -SMALL_ANGLE < delta_heading < SMALL_ANGLE {
        raw_delta + trunc_div(delta_heading * offset, UNIT as int)
    } else {
        trunc_div(
            spec_unit_chord(half_delta_sin) * (trunc_div(raw_delta * UNIT, delta_heading) + offset),
            UNIT as int,
        )
    }
}

/// The sum of the local components of the first `count` wheels of an axis.
pub open spec fn spec_component_sum(
    axis: AxisView,
    delta_heading: int,
    half_delta_sin: int,
    count: int,
) -> int
    decreases count,
{
    if count <= 0 {
        0
    } else {
        spec_component_sum(axis, delta_heading, half_delta_sin, count - 1) + spec_local_component(
            axis.travel[count - 1] - axis.previous[count - 1],
            delta_heading,
            half_delta_sin,
            axis.offsets[count - 1] as int,
        )
    }
}

/// The mean of the wheels' local components along one axis; zero for an axis
/// without wheels.
pub open spec fn spec_local_mean(axis: AxisView, delta_heading: int, half_delta_sin: int) -> int {
    if axis.travel.len() == 0 {
        0
    } else {
        trunc_div(
            spec_component_sum(axis, delta_heading, half_delta_sin, axis.travel.len() as int),
            axis.travel.len() as int,
        )
    }
}

/// The displacement of one tick, in the robot's frame and in the global
/// frame.
pub struct Displacement {
    /// The mean displacement of the forward wheels.
    pub local_x: int,
    /// The mean displacement of the sideways wheels.
    pub local_y: int,
    /// The displacement along the global x axis.
    pub dx: int,
    /// The displacement along the global y axis.
    pub dy: int,
}

/// The displacement of a tick as formulas over the integers.
pub open spec fn spec_displacement(
    previous_heading: int,
    heading: int,
    forward: AxisView,
    sideways: AxisView,
    trig: Trig,
) -> Displacement {
    let delta = spec_heading_delta(previous_heading, heading);
    let local_x = spec_local_mean(forward, delta, trig.half_delta_sin as int);
    let local_y = spec_local_mean(sideways, delta, trig.half_delta_sin as int);
    Displacement {
        local_x,
        local_y,
        dx: spec_rotate_x(local_x, local_y, trig.average_sin as int, trig.average_cos as int),
        dy: spec_rotate_y(local_x, local_y, trig.average_sin as int, trig.average_cos as int),
    }
}

/// Whether a tick can be integrated: the axes and the trigonometric values
/// are well formed, and the displacement and the next pose can be stored.
pub open spec fn integrable(
    pose: Pose,
    previous_heading: int,
    heading: int,
    heading_offset: int,
    forward: AxisView,
    sideways: AxisView,
    trig: Trig,
) -> bool {
    let d = spec_displacement(previous_heading, heading, forward, sideways, trig);
    &&& forward.wf()
    &&& sideways.wf()
    &&& trig.wf()
    &&& fits_i64(d.local_x)
    &&& fits_i64(d.local_y)
    &&& fits_i64(d.dx)
    &&& fits_i64(d.dy)
    &&& fits_i64(pose.x + d.dx)
    &&& fits_i64(pose.y + d.dy)
    &&& fits_i64(heading + heading_offset)
}

/// The pose after a tick: the position moved by the displacement, and the
/// current raw heading plus the heading of the origin pose.
pub open spec fn spec_integrate(
    pose: Pose,
    previous_heading: int,
    heading: int,
    heading_offset: int,
    forward: AxisView,
    sideways: AxisView,
    trig: Trig,
) -> Option<Pose> {
    let d = spec_displacement(previous_heading, heading, forward, sideways, trig);
    if integrable(pose, previous_heading, heading, heading_offset, forward, sideways, trig) {
        Some(
            Pose {
                x: (pose.x + d.dx) as i64,
                y: (pose.y + d.dy) as i64,
                heading: (heading + heading_offset) as i64,
            },
        )
    } else {
        None
    }
}

/// A bound on the magnitude of any wheel's local component.
pub open spec fn component_bound() -> int {
    2 * (0x1_0000_0000_0000_0000 * UNIT + 0x8000_0000_0000_0000)
}

/// Every local component computed from stored readings and a valid sine is
/// within [`component_bound`].
pub proof fn lemma_component_bounded(
    travel: i64,
    previous: i64,
    delta_heading: i64,
    half_delta_sin: i64,
    offset: i64,
)
    requires
        is_trig_value(half_delta_sin as int),
    ensures
        -component_bound() <= spec_local_component(
            travel - previous,
            delta_heading as int,
            half_delta_sin as int,
            offset as int,
        ) <= component_bound(),
{
    let raw = travel - previous;
    if -SMALL_ANGLE < delta_heading < SMALL_ANGLE {
        lemma_product_bound(
            delta_heading as int,
            offset as int,
            SMALL_ANGLE as int,
            0x8000_0000_0000_0000,
        );
        lemma_trunc_div_scaled_bound(
            delta_heading * offset,
            UNIT as int,
            0x8000_0000_0000_0000,
        );
    } else {
        let scaled = raw * UNIT;
        lemma_trunc_div_bound(scaled, delta_heading as int);
        let radius = trunc_div(scaled, delta_heading as int) + offset;
        let limit = 0x1_0000_0000_0000_0000 * UNIT + 0x8000_0000_0000_0000;
        assert(-limit <= radius <= limit);
        let chord = spec_unit_chord(half_delta_sin as int);
        lemma_product_bound(chord, radius, 2 * UNIT, limit);
        assert(2 * UNIT * limit == component_bound() * UNIT);
        lemma_trunc_div_scaled_bound(chord * radius, UNIT as int, component_bound());
    }
}

/// The change of heading from the previous raw heading to the current one,
/// wrapped into the turn around zero, so that a step across the seam of the
/// sensor's range counts as the short way round.
pub fn heading_delta(previous: i64, current: i64) -> (delta: i64)
    ensures
        delta == spec_heading_delta(previous as int, current as int),
        -HALF_TURN <= delta <= HALF_TURN,
        (delta - (current - previous)) % (TAU as int) == 0,
{
    wrap(current as i128 - previous as i128)
}

/// The heading at which the displacement of a tick is projected, or `None`
/// where it cannot be stored.
pub fn average_heading(current: i64, delta: i64, offset: i64) -> (average: Option<i64>)
    ensures
        match average {
            Some(a) => a == spec_average_heading(current as int, delta as int, offset as int),
            None => !fits_i64(spec_average_heading(current as int, delta as int, offset as int)),
        },
{
    narrow(current as i128 + (delta as i128) / 2 + offset as i128)
}

/// One wheel's local component in full width.
fn component(
    travel: i64,
    previous: i64,
    delta_heading: i64,
    half_delta_sin: i64,
    offset: i64,
) -> (c: i128)
    requires
        is_trig_value(half_delta_sin as int),
    ensures
        c == spec_local_component(
            travel - previous,
            delta_heading as int,
            half_delta_sin as int,
            offset as int,
        ),
        -component_bound() <= c <= component_bound(),
{
    proof {
        lemma_component_bounded(travel, previous, delta_heading, half_delta_sin, offset);
    }
    let raw: i128 = travel as i128 - previous as i128;
    if -SMALL_ANGLE < delta_heading && delta_heading < SMALL_ANGLE {
        proof {
            lemma_product_bound(
                delta_heading as int,
                offset as int,
                SMALL_ANGLE as int,
                0x8000_0000_0000_0000,
            );
        }
        raw + (delta_heading as i128 * offset as i128) / (UNIT as i128)
    } else {
        let scaled: i128 = raw * (UNIT as i128);
        proof {
            lemma_trunc_div_bound(scaled as int, delta_heading as int);
        }
        let radius: i128 = scaled / (delta_heading as i128) + offset as i128;
        let chord: i128 = 2 * (half_delta_sin as i128);
        proof {
            let limit = 0x1_0000_0000_0000_0000 * UNIT + 0x8000_0000_0000_0000;
            lemma_product_bound(chord as int, radius as int, 2 * UNIT, limit);
        }
        (chord * radius) / (UNIT as i128)
    }
}

/// One wheel's displacement in the robot's frame over a tick, from its travel
/// now and at the previous tick, the change of heading, the sine of half that
/// change, and the wheel's offset. The sine is not used for a change smaller
/// than [`SMALL_ANGLE`]. `None` where the sine is larger than 1 in magnitude
/// or the result cannot be stored.
pub fn local_component(
    travel: i64,
    previous: i64,
    delta_heading: i64,
    half_delta_sin: i64,
    offset: i64,
) -> (c: Option<i64>)
    ensures
        c.is_some() <==> is_trig_value(half_delta_sin as int) && fits_i64(
            spec_local_component(
                travel - previous,
                delta_heading as int,
                half_delta_sin as int,
                offset as int,
            ),
        ),
        c matches Some(v) ==> v == spec_local_component(
            travel - previous,
            delta_heading as int,
            half_delta_sin as int,
            offset as int,
        ),
{
    if half_delta_sin < -UNIT || half_delta_sin > UNIT {
        return None;
    }
    narrow(component(travel, previous, delta_heading, half_delta_sin, offset))
}

/// The mean local component of the wheels of one axis: `local_x` for the
/// forward wheels, `local_y` for the sideways wheels. Zero for an axis without
/// wheels. `None` where the axis is not well formed, the sine is larger than
/// 1 in magnitude, or the mean cannot be stored.
pub fn local_mean(axis: Axis<'_>, delta_heading: i64, half_delta_sin: i64) -> (mean: Option<i64>)
    ensures
        mean.is_some() <==> axis@.wf() && is_trig_value(half_delta_sin as int) && fits_i64(
            spec_local_mean(axis@, delta_heading as int, half_delta_sin as int),
        ),
        mean matches Some(v) ==> v == spec_local_mean(
            axis@,
            delta_heading as int,
            half_delta_sin as int,
        ),
{
    let n = axis.travel.len();
    if axis.previous.len() != n || axis.offsets.len() != n || n > MAX_WHEELS {
        return None;
    }
    if half_delta_sin < -UNIT || half_delta_sin > UNIT {
        return None;
    }
    if n == 0 {
        return Some(0);
    }
    let mut sum: i128 = 0;
    let mut i: usize = 0;
    while i < n
        invariant
            0 <= i <= n,
            n == axis.travel.len(),
            n == axis.previous.len(),
            n == axis.offsets.len(),
            n <= MAX_WHEELS,
            is_trig_value(half_delta_sin as int),
            sum == spec_component_sum(
                axis@,
                delta_heading as int,
                half_delta_sin as int,
                i as int,
            ),
            -(i * component_bound()) <= sum <= i * component_bound(),
        decreases n - i,
    {
        let c = component(
            axis.travel[i],
            axis.previous[i],
            delta_heading,
            half_delta_sin,
            axis.offsets[i],
        );
        proof {
            let bound = component_bound();
            assert((i + 1) * bound == i * bound + bound) by (nonlinear_arith);
            assert(i * bound <= 64 * bound) by (nonlinear_arith)
                requires
                    0 <= i <= 64,
                    bound >= 0,
            ;
        }
        sum = sum + c;
        i = i + 1;
    }
    narrow(sum / (n as i128))
}

/// Integrates one tick: the pose after the wheels of both axes have gone
/// from their previous distances to their current ones while the raw heading
/// went from `previous_heading` to `heading`.
///
/// 1. The change of heading is the difference of the raw headings along the
///    shortest arc.
/// 2. The unit chord is twice the sine of half that change; for a change
///    smaller than [`SMALL_ANGLE`] it is the change itself.
/// 3. Each wheel's local component is the unit chord times the sum of travel
///    over change of heading and the wheel's offset: for a small change the
///    travel plus the change times the offset, and the travel itself where
///    the heading did not change.
/// 4. `local_x` is the mean over the forward wheels, `local_y` the mean over
///    the sideways wheels, zero for an axis without wheels.
/// 5. The displacement is `(local_x, local_y)` turned by the average heading.
/// 6. The next pose is the position moved by the displacement, with the
///    current raw heading plus `heading_offset` as its heading.
///
/// `trig` holds the sine of half the change of heading and the sine and
/// cosine of the average heading
/// (see [`heading_delta`] and [`average_heading`]).
///
/// `None` where an axis or the trigonometric values are not well formed, or
/// where a mean, the displacement or the next pose cannot be stored.
pub fn integrate(
    pose: Pose,
    previous_heading: i64,
    heading: i64,
    heading_offset: i64,
    forward: Axis<'_>,
    sideways: Axis<'_>,
    trig: Trig,
) -> (next: Option<Pose>)
    ensures
        next == spec_integrate(
            pose,
            previous_heading as int,
            heading as int,
            heading_offset as int,
            forward@,
            sideways@,
            trig,
        ),
{
    let delta = heading_delta(previous_heading, heading);
    let local_x = match local_mean(forward, delta, trig.half_delta_sin) {
        Some(v) => v,
        None => {
            return None;
        },
    };
    let local_y = match local_mean(sideways, delta, trig.half_delta_sin) {
        Some(v) => v,
        None => {
            return None;
        },
    };
    let moved = match Vector2::<i64>::new(local_x, local_y).rotate(
        trig.average_sin,
        trig.average_cos,
    ) {
        Some(v) => v,
        None => {
            return None;
        },
    };
    let x = match narrow(pose.x as i128 + moved.x as i128) {
        Some(v) => v,
        None => {
            return None;
        },
    };
    let y = match narrow(pose.y as i128 + moved.y as i128) {
        Some(v) => v,
        None => {
            return None;
        },
    };
    match narrow(heading as i128 + heading_offset as i128) {
        Some(h) => Some(Pose { x, y, heading: h }),
        None => None,
    }
}

} // verus!
