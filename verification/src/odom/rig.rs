//! The tracking rig: the state of the fusion loop and its two steps per tick.
//!
//! The rig is the single writer of the tracking snapshot. A tick runs in two
//! steps, with the host's work between them:
//!
//! 1. [`TrackingRig::begin_tick`] takes what the host read from the wheels and
//!    the inertial sensor, resolves the heading, and answers with a plan
//!    (or tells the host to skip the tick, or to stop).
//! 2. The host evaluates the sine of half the change of heading and the sine
//!    and cosine of the average heading of the plan.
//! 3. [`TrackingRig::complete_tick`] integrates the pose, estimates the
//!    velocities and publishes the new snapshot in one assignment.
//!
//! A snapshot is replaced as a whole or not at all, so a reader never sees a
//! partial update: a tick that is skipped leaves the last snapshot in place.

use vstd::prelude::*;
use crate::odom::heading::{
    compute_raw_heading, find_parallel_forward_indices, has_track_width, pair_has_track_width,
    pair_in_range, resolve, spec_parallel_indices, spec_raw_heading, spec_resolve, HeadingState,
    InertialReading,
};
use crate::odom::integrator::{
    average_heading, heading_delta, integrate, spec_average_heading, spec_heading_delta,
    spec_integrate, Axis, AxisView, Trig,
};
use crate::odom::pose::Pose;
use crate::odom::velocity::{
    estimate, lemma_mean_travel_fits, mean_travel, spec_estimate, spec_mean_travel,
};
use crate::odom::wheel::TrackingWheel;
use crate::util::si::{fits_i64, MAX_WHEELS};

verus! {

/// What the rig publishes after each tick.
#[derive(Debug, Clone, Copy, PartialEq, Eq, Structural)]
pub struct TrackingSnapshot {
    /// The pose estimate.
    pub pose: Pose,
    /// The raw heading of the last published tick, before the origin's
    /// heading is added.
    pub raw_heading: i64,
    /// The heading of the origin pose.
    pub heading_offset: i64,
    /// The mean distance of the forward wheels at the last published tick.
    pub forward_travel: i64,
    /// Nanometres per second.
    pub linear_velocity: i64,
    /// Nanoradians per second.
    pub angular_velocity: i64,
}

/// Why a rig cannot be built.
#[derive(Debug, Clone, Copy, PartialEq, Eq, Structural)]
pub enum ConfigurationError {
    /// There is no forward wheel.
    NoForwardWheel,
    /// An axis carries more than [`MAX_WHEELS`] wheels.
    TooManyWheels,
    /// There is neither an inertial sensor nor a valid parallel pair of
    /// forward wheels, so no heading can ever be determined.
    HeadingUndeterminable,
}

/// What the first step of a tick resolved, for the second step.
#[derive(Debug, Clone)]
pub struct TickPlan {
    /// The raw heading of the tick.
    pub raw_heading: i64,
    /// The change of heading since the last published tick, wrapped.
    pub delta_heading: i64,
    /// The heading at which the displacement is projected.
    pub average_heading: i64,
    /// The distance of each forward wheel.
    pub forward: Vec<i64>,
    /// The distance of each sideways wheel.
    pub sideways: Vec<i64>,
}

/// A plan as a mathematical value: the same fields, with the rows of
/// distances as sequences.
#[verifier::ext_equal]
pub struct PlanView {
    pub raw_heading: i64,
    pub delta_heading: i64,
    pub average_heading: i64,
    pub forward: Seq<i64>,
    pub sideways: Seq<i64>,
}

impl View for TickPlan {
    type V = PlanView;

    open spec fn view(&self) -> PlanView {
        PlanView {
            raw_heading: self.raw_heading,
            delta_heading: self.delta_heading,
            average_heading: self.average_heading,
            forward: self.forward@,
            sideways: self.sideways@,
        }
    }
}

/// What the host does after the first step of a tick.
#[derive(Debug, Clone)]
pub enum TickStart {
    /// A reading is missing or cannot be used: leave this tick out and come
    /// back at the next.
    Skip,
    /// No heading can be had any more: stop the loop.
    Halt,
    /// Evaluate the trigonometric values of the plan and complete the tick.
    Proceed(TickPlan),
}

/// The first step's answer as a mathematical value.
#[verifier::ext_equal]
pub enum StartView {
    Skip,
    Halt,
    Proceed(PlanView),
}

impl View for TickStart {
    type V = StartView;

    open spec fn view(&self) -> StartView {
        match self {
            TickStart::Skip => StartView::Skip,
            TickStart::Halt => StartView::Halt,
            TickStart::Proceed(plan) => StartView::Proceed(plan@),
        }
    }
}

/// How the second step of a tick ended.
#[derive(Debug, Clone, Copy, PartialEq, Eq, Structural)]
pub enum TickOutcome {
    /// A new snapshot was published.
    Published,
    /// The tick was left out; the last snapshot stands.
    Skipped,
}

/// The state of a rig as a mathematical value.
#[verifier::ext_equal]
pub struct RigView {
    /// The offset of each forward wheel.
    pub forward_offsets: Seq<i64>,
    /// The offset of each sideways wheel.
    pub sideways_offsets: Seq<i64>,
    /// The parallel pair of forward wheels, where there is one.
    pub parallel_indices: Option<(usize, usize)>,
    /// The source of the heading.
    pub heading_state: HeadingState,
    /// The distance of each forward wheel at the last published tick.
    pub prev_forward: Seq<i64>,
    /// The distance of each sideways wheel at the last published tick.
    pub prev_sideways: Seq<i64>,
    /// The published snapshot.
    pub data: TrackingSnapshot,
}

impl RigView {
    /// The invariant of a rig: at least one forward wheel, no axis over its
    /// limit, one previous distance per wheel, the parallel pair that the
    /// offsets determine, whenever the wheels are the source of the heading
    /// a valid pair to take it from, one with a track width, and a forward
    /// travel that is the mean of the forward wheels' previous distances.
    pub open spec fn wf(self) -> bool {
        &&& 1 <= self.forward_offsets.len() <= MAX_WHEELS
        &&& self.sideways_offsets.len() <= MAX_WHEELS
        &&& self.prev_forward.len() == self.forward_offsets.len()
        &&& self.prev_sideways.len() == self.sideways_offsets.len()
        &&& self.parallel_indices == spec_parallel_indices(self.forward_offsets)
        &&& pair_in_range(self.parallel_indices, self.forward_offsets.len() as int)
        &&& (self.heading_state == HeadingState::UsingWheelFallback ==> pair_has_track_width(
            self.parallel_indices,
            self.forward_offsets,
        ))
        &&& self.data.forward_travel == spec_mean_travel(self.prev_forward, 0)
    }
}

/// The offsets of a row of wheels.
pub open spec fn spec_offsets(wheels: Seq<TrackingWheel>) -> Seq<i64> {
    Seq::new(wheels.len(), |i: int| wheels[i].spec_offset())
}

/// The cached distances of a row of wheels.
pub open spec fn spec_totals(wheels: Seq<TrackingWheel>) -> Seq<i64> {
    Seq::new(wheels.len(), |i: int| wheels[i].spec_total())
}

/// The source of the heading at construction: the inertial sensor where
/// there is one, whatever its first reading.
pub open spec fn spec_initial_state(inertial: InertialReading) -> HeadingState {
    if inertial == InertialReading::Absent {
        HeadingState::UsingWheelFallback
    } else {
        HeadingState::UsingInertial
    }
}

/// Why a configuration is refused, if it is: for want of a forward wheel,
/// for too many wheels on an axis, or because no heading could ever be
/// determined, there being no inertial sensor and no valid parallel pair (no
/// pair at all, or one whose two wheels sit at the same offset).
pub open spec fn spec_configuration_error(
    forward: Seq<TrackingWheel>,
    sideways: Seq<TrackingWheel>,
    inertial: InertialReading,
) -> Option<ConfigurationError> {
    if forward.len() == 0 {
        Some(ConfigurationError::NoForwardWheel)
    } else if forward.len() > MAX_WHEELS || sideways.len() > MAX_WHEELS {
        Some(ConfigurationError::TooManyWheels)
    } else if inertial == InertialReading::Absent && !pair_has_track_width(
        spec_parallel_indices(spec_offsets(forward)),
        spec_offsets(forward),
    ) {
        Some(ConfigurationError::HeadingUndeterminable)
    } else {
        None
    }
}

/// The state of a freshly built rig: the pose is the origin, the previous
/// distances are the wheels' cached distances, the forward travel is their
/// mean over the forward wheels, and the velocities are zero.
pub open spec fn spec_new(
    origin: Pose,
    forward: Seq<TrackingWheel>,
    sideways: Seq<TrackingWheel>,
    inertial: InertialReading,
) -> RigView {
    let offsets = spec_offsets(forward);
    let pair = spec_parallel_indices(offsets);
    RigView {
        forward_offsets: offsets,
        sideways_offsets: spec_offsets(sideways),
        parallel_indices: pair,
        heading_state: spec_initial_state(inertial),
        prev_forward: spec_totals(forward),
        prev_sideways: spec_totals(sideways),
        data: TrackingSnapshot {
            pose: origin,
            raw_heading: match spec_raw_heading(inertial, pair, spec_totals(forward), offsets) {
                Ok(h) => h,
                Err(_) => 0,
            },
            heading_offset: origin.heading,
            forward_travel: spec_mean_travel(spec_totals(forward), 0) as i64,
            linear_velocity: 0,
            angular_velocity: 0,
        },
    }
}

/// Whether every wheel of an axis was read.
pub open spec fn readings_complete(samples: Seq<Option<i64>>, count: nat) -> bool {
    samples.len() == count && forall|i: int|
        0 <= i < samples.len() ==> (#[trigger] samples[i]).is_some()
}

/// The distances that were read.
pub open spec fn readings_values(samples: Seq<Option<i64>>) -> Seq<i64> {
    Seq::new(samples.len(), |i: int| samples[i].unwrap())
}

/// The plan for a resolved heading, or a skip where the average heading
/// cannot be stored.
pub open spec fn spec_plan(
    rig: RigView,
    heading: i64,
    forward: Seq<i64>,
    sideways: Seq<i64>,
) -> StartView {
    let delta = spec_heading_delta(rig.data.raw_heading as int, heading as int);
    let average = spec_average_heading(heading as int, delta, rig.data.heading_offset as int);
    if fits_i64(average) {
        StartView::Proceed(
            PlanView {
                raw_heading: heading,
                delta_heading: delta as i64,
                average_heading: average as i64,
                forward,
                sideways,
            },
        )
    } else {
        StartView::Skip
    }
}

/// The first step of a tick as a function from state and readings to next
/// state and answer.
///
/// A rig that has failed answers `Halt`. Incomplete readings skip the tick
/// before the heading is resolved. Otherwise the heading state machine takes
/// its step: a heading gives a plan, an error that leaves the rig in the
/// state `Failed` halts it, and any other error skips the tick.
pub open spec fn spec_begin_tick(
    rig: RigView,
    forward: Seq<Option<i64>>,
    sideways: Seq<Option<i64>>,
    inertial: InertialReading,
) -> (RigView, StartView) {
    if rig.heading_state == HeadingState::Failed {
        (rig, StartView::Halt)
    } else if !readings_complete(forward, rig.forward_offsets.len()) || !readings_complete(
        sideways,
        rig.sideways_offsets.len(),
    ) {
        (rig, StartView::Skip)
    } else {
        let travel = readings_values(forward);
        let lateral = readings_values(sideways);
        let resolved = spec_resolve(
            rig.heading_state,
            inertial,
            rig.parallel_indices,
            travel,
            rig.forward_offsets,
        );
        let next = RigView { heading_state: resolved.0, ..rig };
        match resolved.1 {
            Ok(heading) => (next, spec_plan(next, heading, travel, lateral)),
            Err(_) => if resolved.0 == HeadingState::Failed {
                (next, StartView::Halt)
            } else {
                (next, StartView::Skip)
            },
        }
    }
}

/// The forward axis of a tick: the plan's distances against the rig's
/// previous distances and offsets.
pub open spec fn spec_forward_axis(rig: RigView, plan: PlanView) -> AxisView {
    AxisView { travel: plan.forward, previous: rig.prev_forward, offsets: rig.forward_offsets }
}

/// The sideways axis of a tick.
pub open spec fn spec_sideways_axis(rig: RigView, plan: PlanView) -> AxisView {
    AxisView { travel: plan.sideways, previous: rig.prev_sideways, offsets: rig.sideways_offsets }
}

/// The pose that a tick integrates to, where it can.
pub open spec fn spec_next_pose(rig: RigView, plan: PlanView, trig: Trig) -> Option<Pose> {
    spec_integrate(
        rig.data.pose,
        rig.data.raw_heading as int,
        plan.raw_heading as int,
        rig.data.heading_offset as int,
        spec_forward_axis(rig, plan),
        spec_sideways_axis(rig, plan),
        trig,
    )
}

/// The velocities that a tick estimates, where it can. The inertial sensor
/// counts as trusted while it is the source of the heading.
pub open spec fn spec_next_velocity(
    rig: RigView,
    plan: PlanView,
    dt: i64,
    gyro_rate: Option<i64>,
) -> Option<crate::odom::velocity::VelocityEstimate> {
    spec_estimate(
        plan.forward,
        rig.data.forward_travel,
        rig.heading_state == HeadingState::UsingInertial,
        gyro_rate,
        spec_heading_delta(rig.data.raw_heading as int, plan.raw_heading as int) as i64,
        dt,
    )
}

/// Whether a tick can be published: the rig has not failed, and both the
/// pose and the velocities of the tick can be had.
pub open spec fn tick_publishable(
    rig: RigView,
    plan: PlanView,
    trig: Trig,
    dt: i64,
    gyro_rate: Option<i64>,
) -> bool {
    &&& rig.heading_state != HeadingState::Failed
    &&& spec_next_pose(rig, plan, trig).is_some()
    &&& spec_next_velocity(rig, plan, dt, gyro_rate).is_some()
}

/// The snapshot that a publishable tick publishes.
pub open spec fn spec_snapshot(
    rig: RigView,
    plan: PlanView,
    trig: Trig,
    dt: i64,
    gyro_rate: Option<i64>,
) -> TrackingSnapshot {
    let velocity = spec_next_velocity(rig, plan, dt, gyro_rate).unwrap();
    TrackingSnapshot {
        pose: spec_next_pose(rig, plan, trig).unwrap(),
        raw_heading: plan.raw_heading,
        heading_offset: rig.data.heading_offset,
        forward_travel: velocity.forward_travel,
        linear_velocity: velocity.linear_velocity,
        angular_velocity: velocity.angular_velocity,
    }
}

/// The second step of a tick as a function from state, plan and the host's
/// values to the next state: a publishable tick replaces the snapshot and
/// the previous distances, any other leaves the rig as it was.
pub open spec fn spec_complete_tick(
    rig: RigView,
    plan: PlanView,
    trig: Trig,
    dt: i64,
    gyro_rate: Option<i64>,
) -> (RigView, TickOutcome) {
    if tick_publishable(rig, plan, trig, dt, gyro_rate) {
        (
            RigView {
                prev_forward: plan.forward,
                prev_sideways: plan.sideways,
                data: spec_snapshot(rig, plan, trig, dt, gyro_rate),
                ..rig
            },
            TickOutcome::Published,
        )
    } else {
        (rig, TickOutcome::Skipped)
    }
}

/// The distances of an axis where every wheel was read and there are `count`
/// of them; `None` otherwise.
pub fn collect_readings(samples: &[Option<i64>], count: usize) -> (values: Option<Vec<i64>>)
    ensures
        values.is_some() <==> readings_complete(samples@, count as nat),
        values matches Some(v) ==> v@ == readings_values(samples@),
{
    let n = samples.len();
    if n != count {
        return None;
    }
    let mut values: Vec<i64> = Vec::new();
    let mut i: usize = 0;
    while i < n
        invariant
            0 <= i <= n,
            n == samples.len(),
            values@.len() == i,
            forall|k: int| 0 <= k < i ==> (#[trigger] samples[k]).is_some(),
            forall|k: int| 0 <= k < i ==> values@[k] == (#[trigger] samples[k]).unwrap(),
        decreases n - i,
    {
        match samples[i] {
            Some(v) => {
                values.push(v);
            },
            None => {
                return None;
            },
        }
        i = i + 1;
    }
    assert(values@ =~= readings_values(samples@));
    Some(values)
}

/// The offsets of a row of wheels.
fn wheel_offsets(wheels: &[TrackingWheel]) -> (offsets: Vec<i64>)
    ensures
        offsets@ == spec_offsets(wheels@),
{
    let n = wheels.len();
    let mut offsets: Vec<i64> = Vec::new();
    let mut i: usize = 0;
    while i < n
        invariant
            0 <= i <= n,
            n == wheels.len(),
            offsets@.len() == i,
            forall|k: int| 0 <= k < i ==> offsets@[k] == (#[trigger] wheels[k]).spec_offset(),
        decreases n - i,
    {
        offsets.push(wheels[i].offset());
        i = i + 1;
    }
    assert(offsets@ =~= spec_offsets(wheels@));
    offsets
}

/// The cached distances of a row of wheels.
fn wheel_totals(wheels: &[TrackingWheel]) -> (totals: Vec<i64>)
    ensures
        totals@ == spec_totals(wheels@),
{
    let n = wheels.len();
    let mut totals: Vec<i64> = Vec::new();
    let mut i: usize = 0;
    while i < n
        invariant
            0 <= i <= n,
            n == wheels.len(),
            totals@.len() == i,
            forall|k: int| 0 <= k < i ==> totals@[k] == (#[trigger] wheels[k]).spec_total(),
        decreases n - i,
    {
        totals.push(wheels[i].total());
        i = i + 1;
    }
    assert(totals@ =~= spec_totals(wheels@));
    totals
}

/// The tracking rig: the wheels' geometry, the source of the heading, the
/// distances of the last published tick and the published snapshot.
#[derive(Debug)]
pub struct TrackingRig {
    forward_offsets: Vec<i64>,
    sideways_offsets: Vec<i64>,
    parallel_indices: Option<(usize, usize)>,
    heading_state: HeadingState,
    last: LastTick,
}

/// What the last published tick left behind: the wheels' distances and the
/// snapshot. They are replaced together.
#[derive(Debug)]
struct LastTick {
    forward: Vec<i64>,
    sideways: Vec<i64>,
    data: TrackingSnapshot,
}

impl View for TrackingRig {
    type V = RigView;

    closed spec fn view(&self) -> RigView {
        RigView {
            forward_offsets: self.forward_offsets@,
            sideways_offsets: self.sideways_offsets@,
            parallel_indices: self.parallel_indices,
            heading_state: self.heading_state,
            prev_forward: self.last.forward@,
            prev_sideways: self.last.sideways@,
            data: self.last.data,
        }
    }
}

impl TrackingRig {
    /// Every rig is well formed.
    #[verifier::type_invariant]
    spec fn well_formed(self) -> bool {
        self@.wf()
    }

    /// Builds a rig at the origin pose from its forward and sideways wheels
    /// and the first reading of the inertial sensor
    /// ([`InertialReading::Absent`] for a rig without one).
    ///
    /// Each wheel's cached distance is taken as its distance at this moment:
    /// the host reads every wheel once before it builds the rig. The first
    /// raw heading is the one these readings resolve to, or zero where they
    /// resolve to none. The first forward travel is the mean of the forward
    /// wheels' distances, so that a robot that stands still has velocity
    /// zero from its first tick on.
    ///
    /// Fails where there is no forward wheel, where an axis has more than
    /// [`MAX_WHEELS`] wheels, and where there is neither an inertial sensor
    /// nor a valid parallel pair of forward wheels: the first pair found must
    /// have its two wheels at different offsets.
    pub fn new(
        origin: Pose,
        forward: &[TrackingWheel],
        sideways: &[TrackingWheel],
        inertial: InertialReading,
    ) -> (rig: Result<TrackingRig, ConfigurationError>)
        ensures
            match rig {
                Ok(r) => spec_configuration_error(forward@, sideways@, inertial).is_none() && r@
                    == spec_new(origin, forward@, sideways@, inertial) && r@.wf(),
                Err(e) => spec_configuration_error(forward@, sideways@, inertial) == Some(e),
            },
            rig matches Ok(r) ==> r@.data.forward_travel == spec_mean_travel(
                spec_totals(forward@),
                0,
            ) && (inertial == InertialReading::Absent ==> pair_has_track_width(
                r@.parallel_indices,
                r@.forward_offsets,
            )),
    {
        if forward.len() == 0 {
            return Err(ConfigurationError::NoForwardWheel);
        }
        if forward.len() > MAX_WHEELS || sideways.len() > MAX_WHEELS {
            return Err(ConfigurationError::TooManyWheels);
        }
        let forward_offsets = wheel_offsets(forward);
        let sideways_offsets = wheel_offsets(sideways);
        let parallel_indices = find_parallel_forward_indices(forward_offsets.as_slice());
        let heading_state = match inertial {
            InertialReading::Absent => {
                if !has_track_width(parallel_indices, forward_offsets.as_slice()) {
                    return Err(ConfigurationError::HeadingUndeterminable);
                }
                HeadingState::UsingWheelFallback
            },
            _ => HeadingState::UsingInertial,
        };
        let prev_forward = wheel_totals(forward);
        let prev_sideways = wheel_totals(sideways);
        let raw_heading = match compute_raw_heading(
            inertial,
            parallel_indices,
            prev_forward.as_slice(),
            forward_offsets.as_slice(),
        ) {
            Ok(h) => h,
            Err(_) => 0,
        };
        let forward_travel = mean_travel(prev_forward.as_slice(), 0);
        Ok(
            TrackingRig {
                forward_offsets,
                sideways_offsets,
                parallel_indices,
                heading_state,
                last: LastTick {
                    forward: prev_forward,
                    sideways: prev_sideways,
                    data: TrackingSnapshot {
                        pose: origin,
                        raw_heading,
                        heading_offset: origin.heading,
                        forward_travel,
                        linear_velocity: 0,
                        angular_velocity: 0,
                    },
                },
            },
        )
    }

    /// Returns the latest pose estimate: a copy of the published snapshot's
    /// pose. It changes only when a tick is published.
    pub fn pose(&self) -> (p: Pose)
        ensures
            p == self@.data.pose,
    {
        self.last.data.pose
    }

    /// Returns the latest linear velocity estimate in nanometres per second.
    pub fn linear_velocity(&self) -> (v: i64)
        ensures
            v == self@.data.linear_velocity,
    {
        self.last.data.linear_velocity
    }

    /// Returns the latest angular velocity estimate in nanoradians per
    /// second.
    pub fn angular_velocity(&self) -> (v: i64)
        ensures
            v == self@.data.angular_velocity,
    {
        self.last.data.angular_velocity
    }

    /// Returns a copy of the published snapshot.
    pub fn snapshot(&self) -> (s: TrackingSnapshot)
        ensures
            s == self@.data,
    {
        self.last.data
    }

    /// Returns the source the heading is taken from.
    pub fn heading_state(&self) -> (s: HeadingState)
        ensures
            s == self@.heading_state,
    {
        self.heading_state
    }

    /// Returns the parallel pair of forward wheels, where there is one.
    pub fn parallel_indices(&self) -> (p: Option<(usize, usize)>)
        ensures
            p == self@.parallel_indices,
    {
        self.parallel_indices
    }

    /// The plan for a resolved heading.
    fn plan(&self, heading: i64, forward: Vec<i64>, sideways: Vec<i64>) -> (start: TickStart)
        ensures
            start@ == spec_plan(self@, heading, forward@, sideways@),
    {
        let delta = heading_delta(self.last.data.raw_heading, heading);
        match average_heading(heading, delta, self.last.data.heading_offset) {
            Some(average) => TickStart::Proceed(
                TickPlan {
                    raw_heading: heading,
                    delta_heading: delta,
                    average_heading: average,
                    forward,
                    sideways,
                },
            ),
            None => TickStart::Skip,
        }
    }

    /// The first step of a tick: from the readings to a plan.
    ///
    /// `forward` and `sideways` hold the distance of each wheel, `None` for
    /// a wheel that could not be read. `inertial` is the reading of the
    /// inertial sensor; it counts only while the sensor is trusted.
    ///
    /// * A rig that has failed answers `Halt`.
    /// * A missing distance, or a row of the wrong length, skips the tick
    ///   before any heading is resolved.
    /// * While the inertial sensor is trusted and was read, the heading is
    ///   its reading with the sign flipped.
    /// * When the read fails, the sensor is distrusted from then on. The
    ///   tick goes on with the heading of the parallel pair where it yields
    ///   one; without one the rig has failed, and the answer is `Halt`.
    /// * Once the wheels are the source, the heading is that of the parallel
    ///   pair, which is valid in every rig; a heading that cannot be stored
    ///   skips the tick.
    /// * A tick whose average heading cannot be stored is skipped.
    ///
    /// The snapshot is not touched.
    pub fn begin_tick(
        &mut self,
        forward: &[Option<i64>],
        sideways: &[Option<i64>],
        inertial: InertialReading,
    ) -> (start: TickStart)
        ensures
            final(self)@.wf(),
            (final(self)@, start@) == spec_begin_tick(old(self)@, forward@, sideways@, inertial),
            final(self)@.data == old(self)@.data,
            start is Halt <==> final(self)@.heading_state == HeadingState::Failed,
    {
        proof {
            use_type_invariant(&*self);
        }
        if self.heading_state == HeadingState::Failed {
            return TickStart::Halt;
        }
        let travel = match collect_readings(forward, self.forward_offsets.len()) {
            Some(v) => v,
            None => {
                return TickStart::Skip;
            },
        };
        let lateral = match collect_readings(sideways, self.sideways_offsets.len()) {
            Some(v) => v,
            None => {
                return TickStart::Skip;
            },
        };
        let resolved = resolve(
            self.heading_state,
            inertial,
            self.parallel_indices,
            travel.as_slice(),
            self.forward_offsets.as_slice(),
        );
        self.heading_state = resolved.0;
        match resolved.1 {
            Ok(heading) => self.plan(heading, travel, lateral),
            Err(_) => match resolved.0 {
                HeadingState::Failed => TickStart::Halt,
                _ => TickStart::Skip,
            },
        }
    }

    /// The second step of a tick: integrates the pose, estimates the
    /// velocities and publishes the new snapshot.
    ///
    /// `trig` holds the sine of half the plan's change of heading and the
    /// sine and cosine of its average heading. `dt` is the time since the
    /// last tick in nanoseconds. `gyro_rate` is the inertial sensor's
    /// angular rate about the vertical axis, where it was read.
    ///
    /// The tick is published if the rig has not failed, the plan has one
    /// distance per wheel, the trigonometric values are at most 1 in
    /// magnitude and every result can be stored. Otherwise it is skipped and
    /// the rig is left as it was.
    pub fn complete_tick(
        &mut self,
        plan: TickPlan,
        trig: Trig,
        dt: i64,
        gyro_rate: Option<i64>,
    ) -> (outcome: TickOutcome)
        ensures
            final(self)@.wf(),
            (final(self)@, outcome) == spec_complete_tick(old(self)@, plan@, trig, dt, gyro_rate),
            outcome == TickOutcome::Skipped ==> final(self)@ == old(self)@,
            final(self)@.heading_state == old(self)@.heading_state,
    {
        proof {
            use_type_invariant(&*self);
        }
        if self.heading_state == HeadingState::Failed {
            return TickOutcome::Skipped;
        }
        let pose = match integrate(
            self.last.data.pose,
            self.last.data.raw_heading,
            plan.raw_heading,
            self.last.data.heading_offset,
            Axis {
                travel: plan.forward.as_slice(),
                previous: self.last.forward.as_slice(),
                offsets: self.forward_offsets.as_slice(),
            },
            Axis {
                travel: plan.sideways.as_slice(),
                previous: self.last.sideways.as_slice(),
                offsets: self.sideways_offsets.as_slice(),
            },
            trig,
        ) {
            Some(p) => p,
            None => {
                return TickOutcome::Skipped;
            },
        };
        let velocity = match estimate(
            plan.forward.as_slice(),
            self.last.data.forward_travel,
            self.heading_state == HeadingState::UsingInertial,
            gyro_rate,
            heading_delta(self.last.data.raw_heading, plan.raw_heading),
            dt,
        ) {
            Some(v) => v,
            None => {
                return TickOutcome::Skipped;
            },
        };
        proof {
            lemma_mean_travel_fits(plan.forward@, self.last.data.forward_travel);
        }
        self.last = LastTick {
            data: TrackingSnapshot {
                pose,
                raw_heading: plan.raw_heading,
                heading_offset: self.last.data.heading_offset,
                forward_travel: velocity.forward_travel,
                linear_velocity: velocity.linear_velocity,
                angular_velocity: velocity.angular_velocity,
            },
            forward: plan.forward,
            sideways: plan.sideways,
        };
        TickOutcome::Published
    }
}

} // verus!
