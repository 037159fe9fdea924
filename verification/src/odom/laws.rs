//! What holds over every input: laws of the heading state machine, of the
//! pose integrator and of the two steps of a tick, stated over the functions
//! that define them.

use vstd::prelude::*;
use crate::odom::heading::{
    inertial_usable, pair_has_track_width, spec_resolve, HeadingError, HeadingState,
    InertialReading,
};
use crate::odom::integrator::{
    spec_component_sum, spec_displacement, spec_heading_delta, spec_integrate,
    spec_local_component, spec_local_mean, spec_unit_chord, AxisView, Trig, SMALL_ANGLE,
};
use crate::odom::velocity::lemma_mean_travel_fits;
use crate::odom::pose::Pose;
use crate::odom::rig::{
    spec_begin_tick, spec_complete_tick, spec_forward_axis, spec_sideways_axis, PlanView,
    RigView, StartView, TickOutcome,
};
use crate::util::si::{
    lemma_trunc_div_bound, lemma_trunc_div_neg, spec_rotate_x, spec_rotate_y, trunc_div, trunc_div_rounds_toward_zero,
    wrap_angle, HALF_TURN, TAU, UNIT,
};

verus! {

/// Wrapping takes the shortest arc.
///
/// Of all the angles that differ from `d` by whole turns, the wrapped one is
/// the smallest in magnitude: a step from a heading just below a full turn to
/// one just above zero counts as the few degrees forward that it is, not as
/// nearly a turn back.
pub proof fn wrap_is_the_shortest_arc(d: int, other: int)
    requires
        (other - d) % (TAU as int) == 0,
    ensures
        -HALF_TURN <= wrap_angle(d) <= HALF_TURN,
        (wrap_angle(d) - d) % (TAU as int) == 0,
        other >= 0 ==> -other <= wrap_angle(d) <= other,
        other <= 0 ==> other <= wrap_angle(d) <= -other,
        -HALF_TURN <= other <= HALF_TURN ==> other == wrap_angle(d),
{
    let w = wrap_angle(d);
    assert((other - w) % (TAU as int) == 0);
}

/// Turning a displacement loses less than one unit.
///
/// Each component of the turned displacement, scaled back up, differs from
/// the exact product by less than one unit of the scale, and errs towards
/// zero.
pub proof fn rotation_is_exact_to_one_unit(x: int, y: int, sin: int, cos: int)
    ensures
        -UNIT < (x * cos - y * sin) - UNIT * spec_rotate_x(x, y, sin, cos) < UNIT,
        -UNIT < (x * sin + y * cos) - UNIT * spec_rotate_y(x, y, sin, cos) < UNIT,
        x * cos - y * sin >= 0 ==> 0 <= UNIT * spec_rotate_x(x, y, sin, cos) <= x * cos - y * sin,
        x * cos - y * sin <= 0 ==> x * cos - y * sin <= UNIT * spec_rotate_x(x, y, sin, cos) <= 0,
        x * sin + y * cos >= 0 ==> 0 <= UNIT * spec_rotate_y(x, y, sin, cos) <= x * sin + y * cos,
        x * sin + y * cos <= 0 ==> x * sin + y * cos <= UNIT * spec_rotate_y(x, y, sin, cos) <= 0,
{
    trunc_div_rounds_toward_zero(x * cos - y * sin, UNIT as int);
    trunc_div_rounds_toward_zero(x * sin + y * cos, UNIT as int);
}

/// How far along its one-way path a heading state is.
pub open spec fn degradation(state: HeadingState) -> int {
    match state {
        HeadingState::UsingInertial => 0,
        HeadingState::UsingWheelFallback => 1,
        HeadingState::Failed => 2,
    }
}

/// The heading state machine only ever degrades.
///
/// A step never moves the state back towards the inertial sensor. The
/// sensor stays in use exactly when it was in use and its reading can be
/// used; a failed read ends its use in that very step. Once the sensor is
/// not the source, its reading has no effect on the step at all. From the
/// wheels the state fails only where there is no valid pair, and then with
/// the error `Rotary`; in no state do the wheels give an `Imu` error.
pub proof fn heading_state_only_degrades(
    state: HeadingState,
    inertial: InertialReading,
    other: InertialReading,
    parallel_indices: Option<(usize, usize)>,
    travel: Seq<i64>,
    offsets: Seq<i64>,
)
    ensures
        degradation(spec_resolve(state, inertial, parallel_indices, travel, offsets).0)
            >= degradation(state),
        spec_resolve(state, inertial, parallel_indices, travel, offsets).0
            == HeadingState::UsingInertial <==> state == HeadingState::UsingInertial
            && inertial_usable(inertial),
        state != HeadingState::UsingInertial ==> spec_resolve(
            state,
            inertial,
            parallel_indices,
            travel,
            offsets,
        ) == spec_resolve(state, other, parallel_indices, travel, offsets),
        state == HeadingState::UsingWheelFallback ==> (spec_resolve(
            state,
            inertial,
            parallel_indices,
            travel,
            offsets,
        ).0 == HeadingState::Failed <==> !pair_has_track_width(parallel_indices, offsets)),
        state != HeadingState::UsingInertial ==> (spec_resolve(
            state,
            inertial,
            parallel_indices,
            travel,
            offsets,
        ).1 matches Err(e) ==> e == HeadingError::Rotary),
{
}

/// The published snapshot changes only when a tick is published.
///
/// The first step of a tick never touches it, whatever was read, and a
/// second step that skips the tick leaves the whole rig as it was. Reading
/// the pose any number of times between two published ticks therefore gives
/// the same pose.
pub proof fn snapshot_changes_only_when_published(
    rig: RigView,
    forward: Seq<Option<i64>>,
    sideways: Seq<Option<i64>>,
    inertial: InertialReading,
    plan: PlanView,
    trig: Trig,
    dt: i64,
    gyro_rate: Option<i64>,
)
    ensures
        spec_begin_tick(rig, forward, sideways, inertial).0.data == rig.data,
        spec_complete_tick(rig, plan, trig, dt, gyro_rate).1 == TickOutcome::Skipped
            ==> spec_complete_tick(rig, plan, trig, dt, gyro_rate).0 == rig,
{
}

/// The geometry of a rig never changes: neither step of a tick touches the
/// offsets or the parallel pair.
pub proof fn geometry_is_constant(
    rig: RigView,
    forward: Seq<Option<i64>>,
    sideways: Seq<Option<i64>>,
    inertial: InertialReading,
    plan: PlanView,
    trig: Trig,
    dt: i64,
    gyro_rate: Option<i64>,
)
    ensures
        ({
            let begun = spec_begin_tick(rig, forward, sideways, inertial).0;
            &&& begun.forward_offsets == rig.forward_offsets
            &&& begun.sideways_offsets == rig.sideways_offsets
            &&& begun.parallel_indices == rig.parallel_indices
        }),
        ({
            let done = spec_complete_tick(rig, plan, trig, dt, gyro_rate).0;
            &&& done.forward_offsets == rig.forward_offsets
            &&& done.sideways_offsets == rig.sideways_offsets
            &&& done.parallel_indices == rig.parallel_indices
        }),
{
}

/// Falling back from the inertial sensor is permanent.
///
/// Over the ticks of a rig the heading state only ever moves from the
/// inertial sensor to the wheels and from there to failure, never back.
/// Once the inertial sensor is not the source, what it reports has no effect
/// at all: a tick gives the same answer and the same next state for any two
/// inertial readings, so the heading stays with the wheels even if the
/// sensor reports success again. While the sensor is the source, a tick that
/// resolves a heading keeps it exactly when its reading can be used: a
/// failed read ends its use in that very tick. The second step of a tick
/// never changes the source.
pub proof fn fallback_is_permanent(
    rig: RigView,
    forward: Seq<Option<i64>>,
    sideways: Seq<Option<i64>>,
    inertial: InertialReading,
    other: InertialReading,
    plan: PlanView,
    trig: Trig,
    dt: i64,
    gyro_rate: Option<i64>,
)
    ensures
        degradation(spec_begin_tick(rig, forward, sideways, inertial).0.heading_state)
            >= degradation(rig.heading_state),
        rig.heading_state != HeadingState::UsingInertial ==> spec_begin_tick(
            rig,
            forward,
            sideways,
            inertial,
        ) == spec_begin_tick(rig, forward, sideways, other),
        rig.heading_state == HeadingState::UsingInertial && !(spec_begin_tick(
            rig,
            forward,
            sideways,
            inertial,
        ).1 is Skip) ==> (spec_begin_tick(rig, forward, sideways, inertial).0.heading_state
            == HeadingState::UsingInertial <==> inertial_usable(inertial)),
        spec_complete_tick(rig, plan, trig, dt, gyro_rate).0.heading_state == rig.heading_state,
{
    heading_state_only_degrades(
        rig.heading_state,
        inertial,
        other,
        rig.parallel_indices,
        crate::odom::rig::readings_values(forward),
        rig.forward_offsets,
    );
}

/// A well-formed rig whose heading comes from the wheels never fails: every
/// tick is planned or skipped, and the state stays as it is.
pub proof fn wheel_fallback_never_halts(
    rig: RigView,
    forward: Seq<Option<i64>>,
    sideways: Seq<Option<i64>>,
    inertial: InertialReading,
)
    requires
        rig.wf(),
        rig.heading_state == HeadingState::UsingWheelFallback,
    ensures
        !(spec_begin_tick(rig, forward, sideways, inertial).1 is Halt),
        spec_begin_tick(rig, forward, sideways, inertial).0 == rig,
{
}

/// Without a change of heading a wheel's displacement is its travel, and
/// under a change smaller than the small angle it is the travel plus the arc
/// of the offset: the sine of half the change plays no part, and less than
/// one unit is lost to rounding.
pub proof fn small_turn_component_is_travel_plus_arc(
    raw_delta: int,
    delta_heading: int,
    half_delta_sin: int,
    other_sin: int,
    offset: int,
)
    requires
        -SMALL_ANGLE < delta_heading < SMALL_ANGLE,
    ensures
        spec_local_component(raw_delta, 0, half_delta_sin, offset) == raw_delta,
        spec_local_component(raw_delta, delta_heading, half_delta_sin, offset)
            == spec_local_component(raw_delta, delta_heading, other_sin, offset),
        -UNIT < delta_heading * offset - UNIT * (spec_local_component(
            raw_delta,
            delta_heading,
            half_delta_sin,
            offset,
        ) - raw_delta) < UNIT,
{
    assert(0 * offset == 0) by (nonlinear_arith);
    trunc_div_rounds_toward_zero(delta_heading * offset, UNIT as int);
    assert(UNIT * (raw_delta + trunc_div(delta_heading * offset, UNIT as int) - raw_delta) == UNIT
        * trunc_div(delta_heading * offset, UNIT as int)) by (nonlinear_arith);
}

/// Where every wheel advanced by the same distance without a change of
/// heading, their components sum to that distance times their number.
proof fn lemma_uniform_sum(axis: AxisView, half_delta_sin: int, advance: int, count: int)
    requires
        0 <= count <= axis.travel.len(),
        axis.travel.len() == axis.previous.len(),
        forall|i: int|
            0 <= i < axis.travel.len() ==> #[trigger] axis.travel[i] - axis.previous[i] == advance,
    ensures
        spec_component_sum(axis, 0, half_delta_sin, count) == count * advance,
    decreases count,
{
    if count > 0 {
        lemma_uniform_sum(axis, half_delta_sin, advance, count - 1);
        assert(axis.travel[count - 1] - axis.previous[count - 1] == advance);
        assert(0 * (axis.offsets[count - 1] as int) == 0) by (nonlinear_arith);
        assert(count * advance == (count - 1) * advance + advance) by (nonlinear_arith);
    } else {
        assert(count * advance == 0) by (nonlinear_arith)
            requires
                count == 0,
        ;
    }
}

/// A multiple of a positive number, divided by it, is the other factor.
proof fn lemma_trunc_div_multiple(count: int, value: int)
    requires
        count > 0,
    ensures
        trunc_div(count * value, count) == value,
{
    if value >= 0 {
        assert(count * value >= 0) by (nonlinear_arith)
            requires
                count > 0,
                value >= 0,
        ;
        vstd::arithmetic::div_mod::lemma_div_by_multiple(value, count);
        assert(value * count == count * value) by (nonlinear_arith);
    } else {
        assert(count * value < 0) by (nonlinear_arith)
            requires
                count > 0,
                value < 0,
        ;
        vstd::arithmetic::div_mod::lemma_div_by_multiple(-value, count);
        assert((-value) * count == -(count * value)) by (nonlinear_arith);
    }
}

/// Driving straight moves the robot straight.
///
/// With the heading held, so that the change of heading is zero, and every
/// forward wheel advancing by the same distance, the forward displacement in
/// the robot's frame is exactly that distance, whatever the wheels' offsets.
/// In the global frame it is projected at the average heading: at heading
/// zero the displacement along `x` is exactly the distance, and the
/// displacement along `y` is the sideways wheels' alone.
pub proof fn straight_line_displacement(
    previous_heading: int,
    heading: int,
    forward: AxisView,
    sideways: AxisView,
    trig: Trig,
    advance: int,
)
    requires
        forward.travel.len() >= 1,
        forward.travel.len() == forward.previous.len(),
        spec_heading_delta(previous_heading, heading) == 0,
        forall|i: int|
            0 <= i < forward.travel.len() ==> #[trigger] forward.travel[i] - forward.previous[i]
                == advance,
    ensures
        ({
            let d = spec_displacement(previous_heading, heading, forward, sideways, trig);
            &&& d.local_x == advance
            &&& d.dx == spec_rotate_x(
                advance,
                d.local_y,
                trig.average_sin as int,
                trig.average_cos as int,
            )
            &&& trig.average_sin == 0 && trig.average_cos == UNIT ==> d.dx == advance && d.dy
                == d.local_y
        }),
{
    let d = spec_displacement(previous_heading, heading, forward, sideways, trig);
    let n = forward.travel.len() as int;
    lemma_uniform_sum(forward, trig.half_delta_sin as int, advance, n);
    lemma_trunc_div_multiple(n, advance);
    if trig.average_sin == 0 && trig.average_cos == UNIT {
        assert(d.local_y * 0 == 0) by (nonlinear_arith);
        assert(advance * 0 == 0) by (nonlinear_arith);
        lemma_trunc_div_multiple(UNIT as int, advance);
        lemma_trunc_div_multiple(UNIT as int, d.local_y);
        assert(advance * UNIT == UNIT * advance) by (nonlinear_arith);
        assert(d.local_y * UNIT == UNIT * d.local_y) by (nonlinear_arith);
    }
}

/// A rig that drives straight along the x axis advances by what its wheels
/// travelled.
///
/// Take a tick whose raw heading is that of the last published tick, in
/// which every forward wheel advanced by the same distance, and which is
/// projected at heading zero (sine 0, cosine 1). If the tick is published,
/// `x` has grown by exactly that distance, `y` has moved by the sideways
/// wheels' displacement alone, and the pose's heading is the raw heading plus
/// the origin's heading: the same as before wherever the pose before was
/// published under the same raw heading.
pub proof fn straight_line_advances_x(
    rig: RigView,
    plan: PlanView,
    trig: Trig,
    dt: i64,
    gyro_rate: Option<i64>,
    advance: int,
)
    requires
        rig.wf(),
        plan.raw_heading == rig.data.raw_heading,
        forall|i: int|
            0 <= i < plan.forward.len() ==> #[trigger] plan.forward[i] - rig.prev_forward[i]
                == advance,
        trig.average_sin == 0,
        trig.average_cos == UNIT,
        spec_complete_tick(rig, plan, trig, dt, gyro_rate).1 == TickOutcome::Published,
    ensures
        ({
            let next = spec_complete_tick(rig, plan, trig, dt, gyro_rate).0.data.pose;
            &&& next.x == rig.data.pose.x + advance
            &&& next.y == rig.data.pose.y + spec_local_mean(
                spec_sideways_axis(rig, plan),
                0,
                trig.half_delta_sin as int,
            )
            &&& rig.sideways_offsets.len() == 0 ==> next.y == rig.data.pose.y
            &&& next.heading == rig.data.raw_heading + rig.data.heading_offset
            &&& rig.data.pose.heading == rig.data.raw_heading + rig.data.heading_offset
                ==> next.heading == rig.data.pose.heading
        }),
{
    straight_line_displacement(
        rig.data.raw_heading as int,
        plan.raw_heading as int,
        spec_forward_axis(rig, plan),
        spec_sideways_axis(rig, plan),
        trig,
        advance,
    );
}

/// Two wheels whose offsets and travel mirror each other have components
/// that cancel.
proof fn lemma_mirrored_components(
    raw_delta: int,
    delta_heading: int,
    half_delta_sin: int,
    offset: int,
)
    ensures
        spec_local_component(-raw_delta, delta_heading, half_delta_sin, -offset)
            == -spec_local_component(raw_delta, delta_heading, half_delta_sin, offset),
{
    if -SMALL_ANGLE < delta_heading < SMALL_ANGLE {
        assert(delta_heading * (-offset) == -(delta_heading * offset)) by (nonlinear_arith);
        lemma_trunc_div_neg(delta_heading * offset, UNIT as int);
    } else {
        let chord = spec_unit_chord(half_delta_sin);
        let radius = trunc_div(raw_delta * UNIT, delta_heading);
        assert((-raw_delta) * UNIT == -(raw_delta * UNIT)) by (nonlinear_arith);
        lemma_trunc_div_neg(raw_delta * UNIT, delta_heading);
        assert(chord * (-radius + -offset) == -(chord * (radius + offset))) by (nonlinear_arith);
        lemma_trunc_div_neg(chord * (radius + offset), UNIT as int);
    }
}

/// Turning on the spot does not move the robot forward.
///
/// With two forward wheels at mirrored offsets whose travel over the tick is
/// mirrored too, one rolling back as far as the other rolls on, the forward
/// displacement in the robot's frame is exactly zero, for any distance, any
/// change of heading and any chord: the robot pivots without translation.
pub proof fn pure_rotation_cancels(axis: AxisView, delta_heading: int, half_delta_sin: int)
    requires
        axis.travel.len() == 2,
        axis.previous.len() == 2,
        axis.offsets.len() == 2,
        axis.offsets[0] == -axis.offsets[1],
        axis.travel[0] - axis.previous[0] == -(axis.travel[1] - axis.previous[1]),
    ensures
        spec_local_mean(axis, delta_heading, half_delta_sin) == 0,
{
    reveal_with_fuel(spec_component_sum, 3);
    lemma_mirrored_components(
        axis.travel[1] - axis.previous[1],
        delta_heading,
        half_delta_sin,
        axis.offsets[1] as int,
    );
}

/// A rig that turns on the spot stays where it is.
///
/// Take a rig with two forward wheels at mirrored offsets and no sideways
/// wheels, and a tick in which the two wheels' travel is mirrored. If the
/// tick is published, the position has not changed, whatever the change of
/// heading and the trigonometric values.
pub proof fn pure_rotation_keeps_position(
    rig: RigView,
    plan: PlanView,
    trig: Trig,
    dt: i64,
    gyro_rate: Option<i64>,
)
    requires
        rig.wf(),
        rig.forward_offsets.len() == 2,
        rig.sideways_offsets.len() == 0,
        rig.forward_offsets[0] == -rig.forward_offsets[1],
        plan.forward.len() == 2,
        plan.forward[0] - rig.prev_forward[0] == -(plan.forward[1] - rig.prev_forward[1]),
        spec_complete_tick(rig, plan, trig, dt, gyro_rate).1 == TickOutcome::Published,
    ensures
        spec_complete_tick(rig, plan, trig, dt, gyro_rate).0.data.pose.x == rig.data.pose.x,
        spec_complete_tick(rig, plan, trig, dt, gyro_rate).0.data.pose.y == rig.data.pose.y,
{
    let delta = spec_heading_delta(rig.data.raw_heading as int, plan.raw_heading as int);
    pure_rotation_cancels(spec_forward_axis(rig, plan), delta, trig.half_delta_sin as int);
    assert(0 * trig.average_cos == 0) by (nonlinear_arith);
    assert(0 * trig.average_sin == 0) by (nonlinear_arith);
}

/// Without sideways wheels there is no sideways displacement.
///
/// An axis without wheels has a displacement of zero at every tick, whatever
/// the forward wheels and the heading do. What moves `y` is then the forward
/// displacement alone, projected at the average heading: the displacement
/// along `y` is zero exactly where that projection is, as it is where the
/// forward displacement is zero or the sine of the average heading is zero.
pub proof fn no_sideways_wheels_no_lateral_motion(
    previous_heading: int,
    heading: int,
    forward: AxisView,
    sideways: AxisView,
    trig: Trig,
)
    requires
        sideways.travel.len() == 0,
    ensures
        ({
            let d = spec_displacement(previous_heading, heading, forward, sideways, trig);
            &&& d.local_y == 0
            &&& d.dy == trunc_div(d.local_x * trig.average_sin, UNIT as int)
            &&& trig.average_sin == 0 || d.local_x == 0 ==> d.dy == 0
        }),
{
    let d = spec_displacement(previous_heading, heading, forward, sideways, trig);
    assert(0 * trig.average_cos == 0) by (nonlinear_arith);
    if trig.average_sin == 0 {
        assert(d.local_x * 0 == 0) by (nonlinear_arith);
    }
    if d.local_x == 0 {
        assert(0 * trig.average_sin == 0) by (nonlinear_arith);
    }
}

/// A rig without sideways wheels moves along `y` only by its forward
/// displacement.
///
/// If a tick of such a rig is published, `y` has changed by the forward
/// displacement projected on the y axis, and by nothing else: it has stayed
/// where the rig is headed along the x axis, so that the sine of the average
/// heading is zero.
pub proof fn no_sideways_wheels_y_follows_forward_motion(
    rig: RigView,
    plan: PlanView,
    trig: Trig,
    dt: i64,
    gyro_rate: Option<i64>,
)
    requires
        rig.wf(),
        rig.sideways_offsets.len() == 0,
        spec_complete_tick(rig, plan, trig, dt, gyro_rate).1 == TickOutcome::Published,
    ensures
        ({
            let next = spec_complete_tick(rig, plan, trig, dt, gyro_rate).0.data.pose;
            let local_x = spec_local_mean(
                spec_forward_axis(rig, plan),
                spec_heading_delta(rig.data.raw_heading as int, plan.raw_heading as int),
                trig.half_delta_sin as int,
            );
            &&& next.y == rig.data.pose.y + trunc_div(local_x * trig.average_sin, UNIT as int)
            &&& trig.average_sin == 0 || local_x == 0 ==> next.y == rig.data.pose.y
        }),
{
    no_sideways_wheels_no_lateral_motion(
        rig.data.raw_heading as int,
        plan.raw_heading as int,
        spec_forward_axis(rig, plan),
        spec_sideways_axis(rig, plan),
        trig,
    );
}

/// A robot that stands still has no linear velocity.
///
/// In a tick whose forward wheels read what they read at the last published
/// tick, or at construction where there was none yet, the forward travel
/// stays what it was and the linear velocity that is published is zero,
/// whatever the distances are and however long the tick took.
pub proof fn standing_still_has_zero_velocity(
    rig: RigView,
    plan: PlanView,
    trig: Trig,
    dt: i64,
    gyro_rate: Option<i64>,
)
    requires
        rig.wf(),
        plan.forward == rig.prev_forward,
        spec_complete_tick(rig, plan, trig, dt, gyro_rate).1 == TickOutcome::Published,
    ensures
        spec_complete_tick(rig, plan, trig, dt, gyro_rate).0.data.forward_travel
            == rig.data.forward_travel,
        spec_complete_tick(rig, plan, trig, dt, gyro_rate).0.data.linear_velocity == 0,
{
    if dt > 0 {
        lemma_trunc_div_bound(0, dt as int);
    }
}

/// A published pose carries the raw heading of its tick.
///
/// After a published tick the pose's heading is the snapshot's raw heading
/// plus the heading of the origin pose, and the origin's heading is what it
/// was at construction: ticks never change it.
pub proof fn published_heading_is_raw_plus_offset(
    rig: RigView,
    plan: PlanView,
    trig: Trig,
    dt: i64,
    gyro_rate: Option<i64>,
)
    ensures
        spec_complete_tick(rig, plan, trig, dt, gyro_rate).0.data.heading_offset
            == rig.data.heading_offset,
        spec_complete_tick(rig, plan, trig, dt, gyro_rate).1 == TickOutcome::Published ==> ({
            let data = spec_complete_tick(rig, plan, trig, dt, gyro_rate).0.data;
            &&& data.raw_heading == plan.raw_heading
            &&& data.pose.heading == data.raw_heading + data.heading_offset
        }),
{
}

/// What the host hands to the rig over one tick: the readings for the first
/// step, and the values for the second.
pub struct TickInput {
    pub forward: Seq<Option<i64>>,
    pub sideways: Seq<Option<i64>>,
    pub inertial: InertialReading,
    pub trig: Trig,
    pub dt: i64,
    pub gyro_rate: Option<i64>,
}

/// One whole tick: the first step, and the second where the first gave a
/// plan.
pub open spec fn spec_tick(rig: RigView, input: TickInput) -> RigView {
    let begun = spec_begin_tick(rig, input.forward, input.sideways, input.inertial);
    match begun.1 {
        StartView::Proceed(plan) => spec_complete_tick(
            begun.0,
            plan,
            input.trig,
            input.dt,
            input.gyro_rate,
        ).0,
        _ => begun.0,
    }
}

/// A run of ticks, one after the other.
pub open spec fn spec_run(rig: RigView, inputs: Seq<TickInput>) -> RigView
    decreases inputs.len(),
{
    if inputs.len() == 0 {
        rig
    } else {
        spec_tick(spec_run(rig, inputs.drop_last()), inputs.last())
    }
}

/// Whether two runs hand in the same values but for what the inertial sensor
/// reports: its heading and its rate.
pub open spec fn same_but_for_the_inertial_sensor(a: Seq<TickInput>, b: Seq<TickInput>) -> bool {
    &&& a.len() == b.len()
    &&& forall|k: int|
        0 <= k < a.len() ==> {
            &&& (#[trigger] a[k]).forward == (#[trigger] b[k]).forward
            &&& a[k].sideways == b[k].sideways
            &&& a[k].trig == b[k].trig
            &&& a[k].dt == b[k].dt
        }
}

/// Both steps of a tick keep a rig well formed.
pub proof fn tick_keeps_the_rig_well_formed(
    rig: RigView,
    forward: Seq<Option<i64>>,
    sideways: Seq<Option<i64>>,
    inertial: InertialReading,
    plan: PlanView,
    trig: Trig,
    dt: i64,
    gyro_rate: Option<i64>,
)
    requires
        rig.wf(),
    ensures
        spec_begin_tick(rig, forward, sideways, inertial).0.wf(),
        spec_complete_tick(rig, plan, trig, dt, gyro_rate).0.wf(),
{
    lemma_mean_travel_fits(plan.forward, rig.data.forward_travel);
}

/// A rig stays well formed over any run of ticks, and its geometry and the
/// heading of its origin stay what they were.
pub proof fn run_keeps_the_rig_well_formed(rig: RigView, inputs: Seq<TickInput>)
    requires
        rig.wf(),
    ensures
        spec_run(rig, inputs).wf(),
        spec_run(rig, inputs).forward_offsets == rig.forward_offsets,
        spec_run(rig, inputs).sideways_offsets == rig.sideways_offsets,
        spec_run(rig, inputs).parallel_indices == rig.parallel_indices,
        spec_run(rig, inputs).data.heading_offset == rig.data.heading_offset,
    decreases inputs.len(),
{
    if inputs.len() > 0 {
        run_keeps_the_rig_well_formed(rig, inputs.drop_last());
        let before = spec_run(rig, inputs.drop_last());
        let input = inputs.last();
        let begun = spec_begin_tick(before, input.forward, input.sideways, input.inertial);
        tick_keeps_the_rig_well_formed(
            before,
            input.forward,
            input.sideways,
            input.inertial,
            PlanView {
                raw_heading: 0,
                delta_heading: 0,
                average_heading: 0,
                forward: Seq::empty(),
                sideways: Seq::empty(),
            },
            input.trig,
            input.dt,
            input.gyro_rate,
        );
        if let StartView::Proceed(plan) = begun.1 {
            tick_keeps_the_rig_well_formed(
                begun.0,
                input.forward,
                input.sideways,
                input.inertial,
                plan,
                input.trig,
                input.dt,
                input.gyro_rate,
            );
        }
    }
}

/// Over any run of ticks the heading state only degrades: a rig that has
/// left the inertial sensor never returns to it, and a rig that has failed
/// stays failed.
pub proof fn run_only_degrades(rig: RigView, inputs: Seq<TickInput>)
    ensures
        degradation(spec_run(rig, inputs).heading_state) >= degradation(rig.heading_state),
    decreases inputs.len(),
{
    if inputs.len() > 0 {
        run_only_degrades(rig, inputs.drop_last());
    }
}

/// Once the inertial sensor is not the source of the heading, nothing it
/// reports matters any more.
///
/// Two runs from the same rig whose inputs differ only in what the inertial
/// sensor reports end in the same state: the same pose, the same velocities,
/// the same source of the heading. Whether the sensor fails on, or reports
/// success again, makes no difference from the tick of its failure onward.
pub proof fn run_ignores_the_inertial_sensor_after_fallback(
    rig: RigView,
    a: Seq<TickInput>,
    b: Seq<TickInput>,
)
    requires
        rig.heading_state != HeadingState::UsingInertial,
        same_but_for_the_inertial_sensor(a, b),
    ensures
        spec_run(rig, a) == spec_run(rig, b),
    decreases a.len(),
{
    if a.len() > 0 {
        assert(a.last().forward == b.last().forward);
        run_ignores_the_inertial_sensor_after_fallback(rig, a.drop_last(), b.drop_last());
        run_only_degrades(rig, a.drop_last());
    }
}

/// A rig without sideways wheels that keeps heading along the x axis never
/// moves along `y`.
///
/// Over any run of ticks that are all projected at a heading whose sine is
/// zero, `y` stays what it was, whatever the forward wheels do.
pub proof fn run_without_sideways_wheels_keeps_y(rig: RigView, inputs: Seq<TickInput>)
    requires
        rig.wf(),
        rig.sideways_offsets.len() == 0,
        forall|k: int| 0 <= k < inputs.len() ==> (#[trigger] inputs[k]).trig.average_sin == 0,
    ensures
        spec_run(rig, inputs).data.pose.y == rig.data.pose.y,
    decreases inputs.len(),
{
    if inputs.len() > 0 {
        let before = spec_run(rig, inputs.drop_last());
        let input = inputs.last();
        run_without_sideways_wheels_keeps_y(rig, inputs.drop_last());
        run_keeps_the_rig_well_formed(rig, inputs.drop_last());
        let begun = spec_begin_tick(before, input.forward, input.sideways, input.inertial);
        if let StartView::Proceed(plan) = begun.1 {
            assert(begun.0.wf());
            if spec_complete_tick(begun.0, plan, input.trig, input.dt, input.gyro_rate).1
                == TickOutcome::Published {
                no_sideways_wheels_y_follows_forward_motion(
                    begun.0,
                    plan,
                    input.trig,
                    input.dt,
                    input.gyro_rate,
                );
            }
        }
    }
}

} // verus!
