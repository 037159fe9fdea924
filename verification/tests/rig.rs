use kernelvex::odom::heading::{HeadingState, InertialReading};
use kernelvex::odom::pose::Pose;
use kernelvex::odom::integrator::Trig;
use kernelvex::odom::rig::{
    collect_readings, ConfigurationError, TickOutcome, TickPlan, TickStart, TrackingRig,
    TrackingSnapshot,
};
use kernelvex::odom::wheel::{OmniWheel, TrackingWheel};
use kernelvex::util::si::UNIT;
use kernelvex::util::utils::TrackingWheelOrientation;

/// A forward wheel at the given offset that has not rolled yet.
fn forward_wheel(offset: i64) -> TrackingWheel {
    TrackingWheel::new(OmniWheel::Omni275, TrackingWheelOrientation::Vertical(offset), None)
}

/// A sideways wheel at the given offset that has not rolled yet.
fn sideways_wheel(offset: i64) -> TrackingWheel {
    TrackingWheel::new(OmniWheel::Omni275, TrackingWheelOrientation::Horizontal(offset), None)
}

/// A wheel whose cached distance is `travel`: a diameter of two with a gearing of
/// one billionth makes the distance equal to the rotation.
fn rolled_wheel(dist: TrackingWheelOrientation, travel: i64) -> TrackingWheel {
    let mut wheel = TrackingWheel::new(OmniWheel::Custom(2), dist, Some(1));
    assert_eq!(wheel.distance(Some(travel)), Ok(travel));
    wheel
}

fn differential_rig(inertial: InertialReading) -> TrackingRig {
    TrackingRig::new(
        Pose::new(0, 0, 0),
        &[forward_wheel(-200_000_000), forward_wheel(200_000_000)],
        &[],
        inertial,
    )
    .unwrap()
}

fn plan_of(start: TickStart) -> TickPlan {
    match start {
        TickStart::Proceed(plan) => plan,
        other => panic!("expected a plan, got {:?}", other),
    }
}

const STRAIGHT: Trig = Trig { half_delta_sin: 0, average_sin: 0, average_cos: UNIT };

#[test]
fn rig_new_without_forward_wheel_fails() {
    let rig = TrackingRig::new(Pose::identity(), &[], &[], InertialReading::Heading(0));
    assert_eq!(rig.err(), Some(ConfigurationError::NoForwardWheel));
    let rig = TrackingRig::new(
        Pose::identity(),
        &[],
        &[sideways_wheel(10)],
        InertialReading::Absent,
    );
    assert_eq!(rig.err(), Some(ConfigurationError::NoForwardWheel));
}

#[test]
fn rig_new_with_too_many_wheels_fails() {
    let many: Vec<TrackingWheel> = (0..65).map(|i| forward_wheel(i)).collect();
    let rig = TrackingRig::new(Pose::identity(), &many, &[], InertialReading::Heading(0));
    assert_eq!(rig.err(), Some(ConfigurationError::TooManyWheels));
    let rig = TrackingRig::new(
        Pose::identity(),
        &[forward_wheel(1)],
        &many,
        InertialReading::Heading(0),
    );
    assert_eq!(rig.err(), Some(ConfigurationError::TooManyWheels));
    let rig = TrackingRig::new(Pose::identity(), &many[..64], &many[..64], InertialReading::Absent);
    assert!(rig.is_ok());
}

#[test]
fn rig_new_without_any_heading_source_fails() {
    let rig = TrackingRig::new(
        Pose::identity(),
        &[forward_wheel(-200_000_000)],
        &[],
        InertialReading::Absent,
    );
    assert_eq!(rig.err(), Some(ConfigurationError::HeadingUndeterminable));
    let rig = TrackingRig::new(
        Pose::identity(),
        &[forward_wheel(600_000_000), forward_wheel(700_000_000)],
        &[sideways_wheel(-600_000_000)],
        InertialReading::Absent,
    );
    assert_eq!(rig.err(), Some(ConfigurationError::HeadingUndeterminable));
}

#[test]
fn rig_new_errors_in_order() {
    let many: Vec<TrackingWheel> = (0..65).map(|i| sideways_wheel(i)).collect();
    let rig = TrackingRig::new(Pose::identity(), &[], &many, InertialReading::Absent);
    assert_eq!(rig.err(), Some(ConfigurationError::NoForwardWheel));
    let rig = TrackingRig::new(
        Pose::identity(),
        &[forward_wheel(900_000_000)],
        &many,
        InertialReading::Absent,
    );
    assert_eq!(rig.err(), Some(ConfigurationError::TooManyWheels));
}

#[test]
fn rig_new_with_inertial_alone() {
    let rig = TrackingRig::new(
        Pose::identity(),
        &[forward_wheel(-200_000_000)],
        &[],
        InertialReading::Heading(0),
    )
    .unwrap();
    assert_eq!(rig.heading_state(), HeadingState::UsingInertial);
    assert_eq!(rig.parallel_indices(), None);
}

#[test]
fn rig_new_with_pair_alone() {
    let rig = differential_rig(InertialReading::Absent);
    assert_eq!(rig.heading_state(), HeadingState::UsingWheelFallback);
    assert_eq!(rig.parallel_indices(), Some((0, 1)));
}

#[test]
fn rig_new_initial_snapshot() {
    let origin = Pose::new(1_000_000_000, -2_000_000_000, 500_000_000);
    let rig = TrackingRig::new(
        origin,
        &[forward_wheel(-150_000_000), forward_wheel(150_000_000)],
        &[sideways_wheel(-50_000_000)],
        InertialReading::Heading(-30_000_000),
    )
    .unwrap();
    assert_eq!(
        rig.snapshot(),
        TrackingSnapshot {
            pose: origin,
            raw_heading: 30_000_000,
            heading_offset: 500_000_000,
            forward_travel: 0,
            linear_velocity: 0,
            angular_velocity: 0,
        }
    );
    assert_eq!(rig.pose(), origin);
    assert_eq!(rig.linear_velocity(), 0);
    assert_eq!(rig.angular_velocity(), 0);
}

#[test]
fn rig_new_initial_heading_is_zero_when_the_first_read_fails() {
    let rig = differential_rig(InertialReading::Failed);
    assert_eq!(rig.snapshot().raw_heading, 0);
    assert_eq!(rig.heading_state(), HeadingState::UsingInertial);
}

#[test]
fn rig_new_initial_heading_from_the_pair() {
    let rig = TrackingRig::new(
        Pose::identity(),
        &[
            rolled_wheel(TrackingWheelOrientation::Vertical(-200_000_000), 50_000_000),
            rolled_wheel(TrackingWheelOrientation::Vertical(200_000_000), 70_000_000),
        ],
        &[],
        InertialReading::Absent,
    )
    .unwrap();
    assert_eq!(rig.snapshot().raw_heading, 50_000_000);
    assert_eq!(rig.pose(), Pose::identity());
}

#[test]
fn rig_new_initial_forward_travel_is_the_mean_of_the_wheels() {
    let rig = TrackingRig::new(
        Pose::identity(),
        &[
            rolled_wheel(TrackingWheelOrientation::Vertical(-200_000_000), 50_000_000),
            rolled_wheel(TrackingWheelOrientation::Vertical(200_000_000), 70_000_000),
        ],
        &[rolled_wheel(TrackingWheelOrientation::Horizontal(0), 999)],
        InertialReading::Absent,
    )
    .unwrap();
    assert_eq!(rig.snapshot().forward_travel, 60_000_000);
    assert_eq!(rig.linear_velocity(), 0);
    let rig = TrackingRig::new(
        Pose::identity(),
        &[
            rolled_wheel(TrackingWheelOrientation::Vertical(1), -1),
            rolled_wheel(TrackingWheelOrientation::Vertical(2), -2),
            rolled_wheel(TrackingWheelOrientation::Vertical(3), -5),
        ],
        &[],
        InertialReading::Heading(0),
    )
    .unwrap();
    // -8 / 3, towards zero
    assert_eq!(rig.snapshot().forward_travel, -2);
}

#[test]
fn rig_standing_still_has_no_velocity_on_its_first_tick() {
    // The wheels read 5 m and 7 m when the rig is built, and do not move.
    let mut rig = TrackingRig::new(
        Pose::identity(),
        &[
            rolled_wheel(TrackingWheelOrientation::Vertical(-200_000_000), 5_000_000_000),
            rolled_wheel(TrackingWheelOrientation::Vertical(200_000_000), 7_000_000_000),
        ],
        &[],
        InertialReading::Heading(0),
    )
    .unwrap();
    assert_eq!(rig.snapshot().forward_travel, 6_000_000_000);
    let plan = plan_of(rig.begin_tick(
        &[Some(5_000_000_000), Some(7_000_000_000)],
        &[],
        InertialReading::Heading(0),
    ));
    assert_eq!(rig.complete_tick(plan, STRAIGHT, 10_000_000, None), TickOutcome::Published);
    assert_eq!(rig.linear_velocity(), 0);
    assert_eq!(rig.angular_velocity(), 0);
    assert_eq!(rig.snapshot().forward_travel, 6_000_000_000);
    assert_eq!(rig.pose(), Pose::identity());
}

#[test]
fn rig_new_baseline_is_each_wheels_cached_distance() {
    let mut rig = TrackingRig::new(
        Pose::identity(),
        &[
            rolled_wheel(TrackingWheelOrientation::Vertical(-200_000_000), 5_000_000_000),
            rolled_wheel(TrackingWheelOrientation::Vertical(200_000_000), 5_000_000_000),
        ],
        &[rolled_wheel(TrackingWheelOrientation::Horizontal(0), -3_000_000_000)],
        InertialReading::Heading(0),
    )
    .unwrap();
    let plan = plan_of(rig.begin_tick(
        &[Some(5_000_000_007), Some(5_000_000_007)],
        &[Some(-3_000_000_002)],
        InertialReading::Heading(0),
    ));
    assert_eq!(rig.complete_tick(plan, STRAIGHT, 10_000_000, None), TickOutcome::Published);
    assert_eq!(rig.pose(), Pose::new(7, -2, 0));
    // 7 nm in 10 ms
    assert_eq!(rig.linear_velocity(), 700);
    assert_eq!(rig.snapshot().forward_travel, 5_000_000_007);
}

#[test]
fn collect_readings_all_or_nothing() {
    assert_eq!(collect_readings(&[Some(1), Some(-2), Some(3)], 3), Some(vec![1, -2, 3]));
    assert_eq!(collect_readings(&[], 0), Some(vec![]));
    assert_eq!(collect_readings(&[Some(1), None, Some(3)], 3), None);
    assert_eq!(collect_readings(&[None], 1), None);
    assert_eq!(collect_readings(&[Some(1), Some(2)], 3), None);
    assert_eq!(collect_readings(&[Some(1), Some(2)], 1), None);
}

#[test]
fn rig_tick_concrete_scenario() {
    // Origin (0, 0, 0); forward wheels at -0.2 m and +0.2 m, both at 0 m; no
    // inertial sensor. The left wheel travels 0.05 m, the right one 0.07 m.
    let mut rig = differential_rig(InertialReading::Absent);
    let plan = plan_of(rig.begin_tick(
        &[Some(50_000_000), Some(70_000_000)],
        &[],
        InertialReading::Absent,
    ));
    // delta_heading = (0.07 - 0.05) / 0.4 = 0.05 rad
    assert_eq!(plan.raw_heading, 50_000_000);
    assert_eq!(plan.delta_heading, 50_000_000);
    // average heading = 0.05 + 0.025 + 0
    assert_eq!(plan.average_heading, 75_000_000);
    assert_eq!(plan.forward, vec![50_000_000, 70_000_000]);
    assert_eq!(plan.sideways, Vec::<i64>::new());
    // sin(0.025) = 0.024997396, so that the unit chord is 0.049994792;
    // sin(0.075) = 0.074929707, cos(0.075) = 0.997188818
    let trig = Trig { half_delta_sin: 24_997_396, average_sin: 74_929_707, average_cos: 997_188_818 };
    assert_eq!(rig.complete_tick(plan, trig, 10_000_000, None), TickOutcome::Published);
    // local_x = (0.049994792 * 0.8 + 0.049994792 * 1.6) / 2 = 0.059993750 m
    // x = 0.059993750 * cos(0.075) = 0.059825096 m
    // y = 0.059993750 * sin(0.075) = 0.004495314 m
    assert_eq!(rig.pose(), Pose::new(59_825_096, 4_495_314, 50_000_000));
    assert_eq!(
        rig.snapshot(),
        TrackingSnapshot {
            pose: Pose::new(59_825_096, 4_495_314, 50_000_000),
            raw_heading: 50_000_000,
            heading_offset: 0,
            forward_travel: 60_000_000,
            linear_velocity: 6_000_000_000,
            angular_velocity: 5_000_000_000,
        }
    );
    assert_eq!(rig.linear_velocity(), 6_000_000_000);
    assert_eq!(rig.angular_velocity(), 5_000_000_000);
}

#[test]
fn rig_tick_second_tick_builds_on_the_first() {
    let mut rig = differential_rig(InertialReading::Absent);
    let plan = plan_of(rig.begin_tick(
        &[Some(50_000_000), Some(70_000_000)],
        &[],
        InertialReading::Absent,
    ));
    let trig = Trig { half_delta_sin: 24_997_396, average_sin: 74_929_707, average_cos: 997_188_818 };
    assert_eq!(rig.complete_tick(plan, trig, 10_000_000, None), TickOutcome::Published);
    let plan = plan_of(rig.begin_tick(
        &[Some(100_000_000), Some(140_000_000)],
        &[],
        InertialReading::Absent,
    ));
    assert_eq!(plan.raw_heading, 100_000_000);
    assert_eq!(plan.delta_heading, 50_000_000);
    assert_eq!(plan.average_heading, 125_000_000);
    let trig = Trig { half_delta_sin: 24_997_396, average_sin: 124_674_733, average_cos: 992_197_667 };
    assert_eq!(rig.complete_tick(plan, trig, 10_000_000, None), TickOutcome::Published);
    assert_eq!(rig.pose(), Pose::new(119_350_754, 11_975_018, 100_000_000));
    assert_eq!(rig.snapshot().forward_travel, 120_000_000);
    assert_eq!(rig.linear_velocity(), 6_000_000_000);
    assert_eq!(rig.angular_velocity(), 5_000_000_000);
}

#[test]
fn rig_tick_straight_line_advances_x_by_the_travel() {
    // Heading held at zero, both wheels advance one metre per tick.
    let mut rig = differential_rig(InertialReading::Heading(0));
    for tick in 1..=5i64 {
        let plan = plan_of(rig.begin_tick(
            &[Some(tick * UNIT), Some(tick * UNIT)],
            &[],
            InertialReading::Heading(0),
        ));
        assert_eq!(plan.delta_heading, 0);
        assert_eq!(plan.average_heading, 0);
        assert_eq!(rig.complete_tick(plan, STRAIGHT, 10_000_000, Some(0)), TickOutcome::Published);
        assert_eq!(rig.pose(), Pose::new(tick * UNIT, 0, 0));
        assert_eq!(rig.linear_velocity(), 100 * UNIT);
        assert_eq!(rig.angular_velocity(), 0);
    }
}

#[test]
fn rig_tick_with_sideways_wheel_and_origin_heading() {
    let mut rig = TrackingRig::new(
        Pose::new(1_000_000_000, -2_000_000_000, 500_000_000),
        &[
            rolled_wheel(TrackingWheelOrientation::Vertical(-150_000_000), 5_000_000),
            rolled_wheel(TrackingWheelOrientation::Vertical(150_000_000), 7_000_000),
        ],
        &[rolled_wheel(TrackingWheelOrientation::Horizontal(-50_000_000), 1_000_000)],
        InertialReading::Heading(0),
    )
    .unwrap();
    let plan = plan_of(rig.begin_tick(
        &[Some(25_000_000), Some(31_000_000)],
        &[Some(4_000_000)],
        InertialReading::Heading(-20_000_000),
    ));
    assert_eq!(plan.raw_heading, 20_000_000);
    assert_eq!(plan.delta_heading, 20_000_000);
    assert_eq!(plan.average_heading, 530_000_000);
    assert_eq!(plan.sideways, vec![4_000_000]);
    let trig = Trig { half_delta_sin: 9_999_833, average_sin: 505_533_341, average_cos: 862_807_071 };
    assert_eq!(rig.complete_tick(plan, trig, 20_000_000, None), TickOutcome::Published);
    assert_eq!(
        rig.snapshot(),
        TrackingSnapshot {
            pose: Pose::new(1_017_970_388, -1_987_152_868, 520_000_000),
            raw_heading: 20_000_000,
            heading_offset: 500_000_000,
            forward_travel: 28_000_000,
            // from a mean of 0.006 m at construction to 0.028 m in 20 ms
            linear_velocity: 1_100_000_000,
            angular_velocity: 1_000_000_000,
        }
    );
    // A tick that took no time: the velocity is zero, the gyro rate is taken as it is.
    let plan = plan_of(rig.begin_tick(
        &[Some(45_000_000), Some(51_000_000)],
        &[Some(4_000_000)],
        InertialReading::Heading(-20_000_000),
    ));
    assert_eq!(plan.delta_heading, 0);
    assert_eq!(plan.average_heading, 520_000_000);
    let trig = Trig { half_delta_sin: 0, average_sin: 496_880_138, average_cos: 867_819_180 };
    assert_eq!(rig.complete_tick(plan, trig, 0, Some(1_234)), TickOutcome::Published);
    assert_eq!(
        rig.snapshot(),
        TrackingSnapshot {
            pose: Pose::new(1_035_326_771, -1_977_215_266, 520_000_000),
            raw_heading: 20_000_000,
            heading_offset: 500_000_000,
            forward_travel: 48_000_000,
            linear_velocity: 0,
            angular_velocity: 1_234,
        }
    );
}

#[test]
fn rig_fallback_is_permanent() {
    let mut rig = differential_rig(InertialReading::Heading(0));
    assert_eq!(rig.heading_state(), HeadingState::UsingInertial);

    // Tick 1: the inertial sensor reports -0.1 rad, which is +0.1 rad in the global frame.
    let plan = plan_of(rig.begin_tick(
        &[Some(10_000_000), Some(10_000_000)],
        &[],
        InertialReading::Heading(-100_000_000),
    ));
    assert_eq!(plan.raw_heading, 100_000_000);
    assert_eq!(rig.heading_state(), HeadingState::UsingInertial);
    let trig = Trig { half_delta_sin: 49_979_169, average_sin: 149_438_132, average_cos: 988_771_078 };
    assert_eq!(rig.complete_tick(plan, trig, 10_000_000, Some(2_000_000)), TickOutcome::Published);
    assert_eq!(rig.pose(), Pose::new(9_883_591, 1_493_758, 100_000_000));
    assert_eq!(rig.angular_velocity(), 2_000_000);

    // Tick 2: the read fails. The heading comes from the pair: (0.028 - 0.020) / 0.4.
    let plan = plan_of(rig.begin_tick(
        &[Some(20_000_000), Some(28_000_000)],
        &[],
        InertialReading::Failed,
    ));
    assert_eq!(plan.raw_heading, 20_000_000);
    assert_eq!(plan.delta_heading, -80_000_000);
    assert_eq!(rig.heading_state(), HeadingState::UsingWheelFallback);
    let trig = Trig { half_delta_sin: -39_989_334, average_sin: -19_998_667, average_cos: 999_800_007 };
    assert_eq!(rig.complete_tick(plan, trig, 10_000_000, Some(2_000_000)), TickOutcome::Published);
    assert_eq!(rig.pose(), Pose::new(23_877_057, 1_213_852, 20_000_000));
    assert_eq!(rig.angular_velocity(), -8_000_000_000);

    // Tick 3: the sensor reports again, and is not listened to.
    let plan = plan_of(rig.begin_tick(
        &[Some(30_000_000), Some(46_000_000)],
        &[],
        InertialReading::Heading(-900_000_000),
    ));
    assert_eq!(plan.raw_heading, 40_000_000);
    assert_eq!(rig.heading_state(), HeadingState::UsingWheelFallback);
    let trig = Trig { half_delta_sin: 9_999_833, average_sin: 49_979_169, average_cos: 998_750_260 };
    assert_eq!(rig.complete_tick(plan, trig, 10_000_000, Some(2_000_000)), TickOutcome::Published);
    assert_eq!(rig.pose(), Pose::new(37_859_325, 1_913_548, 40_000_000));
    assert_eq!(rig.angular_velocity(), 2_000_000_000);
    assert_eq!(rig.heading_state(), HeadingState::UsingWheelFallback);
}

#[test]
fn rig_not_asking_a_trusted_sensor_counts_as_a_failed_read() {
    let mut rig = differential_rig(InertialReading::Heading(0));
    let plan = plan_of(rig.begin_tick(
        &[Some(20_000_000), Some(28_000_000)],
        &[],
        InertialReading::Absent,
    ));
    assert_eq!(plan.raw_heading, 20_000_000);
    assert_eq!(rig.heading_state(), HeadingState::UsingWheelFallback);
}

#[test]
fn rig_reading_that_cannot_be_negated_counts_as_a_failed_read() {
    let mut rig = differential_rig(InertialReading::Heading(0));
    let plan = plan_of(rig.begin_tick(
        &[Some(20_000_000), Some(28_000_000)],
        &[],
        InertialReading::Heading(i64::MIN),
    ));
    assert_eq!(plan.raw_heading, 20_000_000);
    assert_eq!(rig.heading_state(), HeadingState::UsingWheelFallback);
}

#[test]
fn rig_halts_when_the_inertial_sensor_fails_without_a_pair() {
    let mut rig = TrackingRig::new(
        Pose::new(5, 6, 7),
        &[forward_wheel(-200_000_000)],
        &[],
        InertialReading::Heading(0),
    )
    .unwrap();
    let before = rig.snapshot();
    assert!(matches!(
        rig.begin_tick(&[Some(1_000)], &[], InertialReading::Failed),
        TickStart::Halt
    ));
    assert_eq!(rig.heading_state(), HeadingState::Failed);
    assert_eq!(rig.snapshot(), before);
    // Nothing brings a failed rig back.
    assert!(matches!(
        rig.begin_tick(&[Some(2_000)], &[], InertialReading::Heading(0)),
        TickStart::Halt
    ));
    assert!(matches!(rig.begin_tick(&[None], &[], InertialReading::Heading(0)), TickStart::Halt));
    assert_eq!(rig.heading_state(), HeadingState::Failed);
    let stale = TickPlan {
        raw_heading: 0,
        delta_heading: 0,
        average_heading: 0,
        forward: vec![3_000],
        sideways: vec![],
    };
    assert_eq!(rig.complete_tick(stale, STRAIGHT, 10_000_000, None), TickOutcome::Skipped);
    assert_eq!(rig.snapshot(), before);
}

#[test]
fn rig_halts_when_the_inertial_sensor_fails_and_the_pair_is_useless() {
    // The two wheels sit at the same offset: a pair by their sum, but no track width.
    let mut rig = TrackingRig::new(
        Pose::identity(),
        &[forward_wheel(100_000_000), forward_wheel(100_000_000)],
        &[],
        InertialReading::Heading(0),
    )
    .unwrap();
    assert_eq!(rig.parallel_indices(), Some((1, 0)));
    assert!(matches!(
        rig.begin_tick(&[Some(1_000), Some(2_000)], &[], InertialReading::Failed),
        TickStart::Halt
    ));
    assert_eq!(rig.heading_state(), HeadingState::Failed);
}

#[test]
fn rig_new_with_a_pair_without_track_width_fails() {
    // The two wheels sit at one offset: a pair by their sum, but no heading
    // could ever be taken from it.
    let rig = TrackingRig::new(
        Pose::identity(),
        &[forward_wheel(100_000_000), forward_wheel(100_000_000)],
        &[],
        InertialReading::Absent,
    );
    assert_eq!(rig.err(), Some(ConfigurationError::HeadingUndeterminable));
    // The first pair found decides, also where a later pair would do.
    let rig = TrackingRig::new(
        Pose::identity(),
        &[forward_wheel(100_000_000), forward_wheel(100_000_000), forward_wheel(-100_000_000)],
        &[],
        InertialReading::Absent,
    );
    assert_eq!(rig.err(), Some(ConfigurationError::HeadingUndeterminable));
    // With an inertial sensor the rig is built.
    let rig = TrackingRig::new(
        Pose::identity(),
        &[forward_wheel(100_000_000), forward_wheel(100_000_000)],
        &[],
        InertialReading::Failed,
    );
    assert!(rig.is_ok());
}

#[test]
fn rig_skips_while_the_heading_of_the_pair_cannot_be_stored() {
    // A pair one nanometre apart: a valid pair, whose heading overflows
    // when the wheels are far apart in travel.
    let mut rig = TrackingRig::new(
        Pose::identity(),
        &[forward_wheel(0), forward_wheel(1)],
        &[],
        InertialReading::Absent,
    )
    .unwrap();
    let before = rig.snapshot();
    for _ in 0..3 {
        assert!(matches!(
            rig.begin_tick(&[Some(i64::MIN), Some(i64::MAX)], &[], InertialReading::Absent),
            TickStart::Skip
        ));
        assert_eq!(rig.heading_state(), HeadingState::UsingWheelFallback);
        assert_eq!(rig.snapshot(), before);
    }
    let plan = plan_of(rig.begin_tick(&[Some(0), Some(2)], &[], InertialReading::Absent));
    assert_eq!(plan.raw_heading, 2_000_000_000);
}

#[test]
fn rig_skips_a_tick_with_a_missing_reading() {
    let mut rig = TrackingRig::new(
        Pose::identity(),
        &[forward_wheel(-200_000_000), forward_wheel(200_000_000)],
        &[sideways_wheel(0)],
        InertialReading::Heading(0),
    )
    .unwrap();
    let before = rig.snapshot();
    assert!(matches!(
        rig.begin_tick(&[Some(1), None], &[Some(1)], InertialReading::Heading(0)),
        TickStart::Skip
    ));
    assert!(matches!(
        rig.begin_tick(&[Some(1), Some(1)], &[None], InertialReading::Heading(0)),
        TickStart::Skip
    ));
    assert!(matches!(
        rig.begin_tick(&[Some(1)], &[Some(1)], InertialReading::Heading(0)),
        TickStart::Skip
    ));
    assert!(matches!(
        rig.begin_tick(&[Some(1), Some(1)], &[], InertialReading::Heading(0)),
        TickStart::Skip
    ));
    assert!(matches!(
        rig.begin_tick(&[Some(1), Some(1), Some(1)], &[Some(1)], InertialReading::Heading(0)),
        TickStart::Skip
    ));
    assert_eq!(rig.snapshot(), before);
    assert_eq!(rig.heading_state(), HeadingState::UsingInertial);
}

#[test]
fn rig_skipped_tick_does_not_distrust_the_inertial_sensor() {
    // The wheels could not be read: the tick ends before the heading is resolved.
    let mut rig = differential_rig(InertialReading::Heading(0));
    assert!(matches!(
        rig.begin_tick(&[None, Some(1)], &[], InertialReading::Failed),
        TickStart::Skip
    ));
    assert_eq!(rig.heading_state(), HeadingState::UsingInertial);
}

#[test]
fn rig_skipped_tick_is_made_up_for_by_the_next() {
    let mut rig = differential_rig(InertialReading::Heading(0));
    assert!(matches!(
        rig.begin_tick(&[Some(UNIT), None], &[], InertialReading::Heading(0)),
        TickStart::Skip
    ));
    assert_eq!(rig.pose(), Pose::identity());
    let plan = plan_of(rig.begin_tick(
        &[Some(2 * UNIT), Some(2 * UNIT)],
        &[],
        InertialReading::Heading(0),
    ));
    assert_eq!(rig.complete_tick(plan, STRAIGHT, 20_000_000, None), TickOutcome::Published);
    assert_eq!(rig.pose(), Pose::new(2 * UNIT, 0, 0));
}

#[test]
fn rig_skips_when_the_average_heading_cannot_be_stored() {
    let mut rig = TrackingRig::new(
        Pose::new(0, 0, i64::MAX),
        &[forward_wheel(-200_000_000), forward_wheel(200_000_000)],
        &[],
        InertialReading::Heading(0),
    )
    .unwrap();
    assert!(matches!(
        rig.begin_tick(&[Some(0), Some(0)], &[], InertialReading::Heading(-1)),
        TickStart::Skip
    ));
    assert_eq!(rig.heading_state(), HeadingState::UsingInertial);
    assert_eq!(rig.pose(), Pose::new(0, 0, i64::MAX));
}

#[test]
fn rig_pose_is_idempotent_between_ticks() {
    let mut rig = differential_rig(InertialReading::Absent);
    let plan = plan_of(rig.begin_tick(
        &[Some(50_000_000), Some(70_000_000)],
        &[],
        InertialReading::Absent,
    ));
    // The first step alone publishes nothing.
    assert_eq!(rig.pose(), Pose::identity());
    assert_eq!(rig.pose(), rig.pose());
    let trig = Trig { half_delta_sin: 24_997_396, average_sin: 74_929_707, average_cos: 997_188_818 };
    assert_eq!(rig.complete_tick(plan, trig, 10_000_000, None), TickOutcome::Published);
    let first = rig.pose();
    let second = rig.pose();
    let third = rig.pose();
    assert_eq!(first, second);
    assert_eq!(second, third);
    assert_eq!(rig.snapshot(), rig.snapshot());
    assert_eq!(rig.linear_velocity(), rig.linear_velocity());
    assert_eq!(rig.angular_velocity(), rig.angular_velocity());
}

#[test]
fn rig_without_sideways_wheels_y_stays_at_heading_zero() {
    // Heading held at zero by the inertial sensor: whatever the wheels do,
    // the displacement is along x.
    let mut rig = differential_rig(InertialReading::Heading(0));
    let mut travel = 0i64;
    for step in [UNIT, -3 * UNIT, 250_000_000, 7, -1] {
        travel += step;
        let plan = plan_of(rig.begin_tick(
            &[Some(travel), Some(travel)],
            &[],
            InertialReading::Heading(0),
        ));
        assert_eq!(rig.complete_tick(plan, STRAIGHT, 10_000_000, None), TickOutcome::Published);
        assert_eq!(rig.pose(), Pose::new(travel, 0, 0));
    }
}

#[test]
fn rig_without_sideways_wheels_y_follows_the_heading() {
    // At a heading of a quarter turn, driving forward is driving along y.
    let quarter = 1_570_796_327;
    let mut rig = differential_rig(InertialReading::Heading(-quarter));
    let plan = plan_of(rig.begin_tick(
        &[Some(UNIT), Some(UNIT)],
        &[],
        InertialReading::Heading(-quarter),
    ));
    assert_eq!(plan.delta_heading, 0);
    assert_eq!(plan.average_heading, quarter);
    let trig = Trig { half_delta_sin: 0, average_sin: UNIT, average_cos: 0 };
    assert_eq!(rig.complete_tick(plan, trig, 10_000_000, None), TickOutcome::Published);
    assert_eq!(rig.pose(), Pose::new(0, UNIT, quarter));
}

#[test]
fn rig_pure_rotation_does_not_translate() {
    let mut rig = differential_rig(InertialReading::Absent);
    let plan = plan_of(rig.begin_tick(
        &[Some(-30_000_000), Some(30_000_000)],
        &[],
        InertialReading::Absent,
    ));
    // (0.03 + 0.03) / 0.4 = 0.15 rad
    assert_eq!(plan.delta_heading, 150_000_000);
    let trig = Trig { half_delta_sin: 74_929_707, average_sin: 223_106_362, average_cos: 974_794_107 };
    assert_eq!(rig.complete_tick(plan, trig, 10_000_000, None), TickOutcome::Published);
    assert_eq!(rig.pose(), Pose::new(0, 0, 150_000_000));
    assert_eq!(rig.linear_velocity(), 0);
    assert_eq!(rig.angular_velocity(), 15_000_000_000);
}

#[test]
fn rig_complete_tick_rejects_invalid_trig() {
    let mut rig = differential_rig(InertialReading::Heading(0));
    let before = rig.snapshot();
    for trig in [
        Trig { half_delta_sin: UNIT + 1, average_sin: 0, average_cos: UNIT },
        Trig { half_delta_sin: 0, average_sin: -UNIT - 1, average_cos: UNIT },
        Trig { half_delta_sin: 0, average_sin: 0, average_cos: UNIT + 1 },
    ] {
        let plan = plan_of(rig.begin_tick(
            &[Some(UNIT), Some(UNIT)],
            &[],
            InertialReading::Heading(0),
        ));
        assert_eq!(rig.complete_tick(plan, trig, 10_000_000, None), TickOutcome::Skipped);
        assert_eq!(rig.snapshot(), before);
    }
    let plan = plan_of(rig.begin_tick(&[Some(UNIT), Some(UNIT)], &[], InertialReading::Heading(0)));
    assert_eq!(rig.complete_tick(plan, STRAIGHT, 10_000_000, None), TickOutcome::Published);
    assert_eq!(rig.pose(), Pose::new(UNIT, 0, 0));
}

#[test]
fn rig_complete_tick_rejects_a_plan_of_another_shape() {
    let mut rig = differential_rig(InertialReading::Heading(0));
    let before = rig.snapshot();
    let short = TickPlan {
        raw_heading: 0,
        delta_heading: 0,
        average_heading: 0,
        forward: vec![UNIT],
        sideways: vec![],
    };
    assert_eq!(rig.complete_tick(short, STRAIGHT, 10_000_000, None), TickOutcome::Skipped);
    let wide = TickPlan {
        raw_heading: 0,
        delta_heading: 0,
        average_heading: 0,
        forward: vec![UNIT, UNIT],
        sideways: vec![5],
    };
    assert_eq!(rig.complete_tick(wide, STRAIGHT, 10_000_000, None), TickOutcome::Skipped);
    assert_eq!(rig.snapshot(), before);
}

#[test]
fn rig_complete_tick_skips_what_cannot_be_stored() {
    let mut rig = TrackingRig::new(
        Pose::new(i64::MAX - 5, 0, 0),
        &[forward_wheel(-200_000_000), forward_wheel(200_000_000)],
        &[],
        InertialReading::Heading(0),
    )
    .unwrap();
    let before = rig.snapshot();
    // x would pass the largest stored value.
    let plan = plan_of(rig.begin_tick(&[Some(6), Some(6)], &[], InertialReading::Heading(0)));
    assert_eq!(rig.complete_tick(plan, STRAIGHT, 10_000_000, None), TickOutcome::Skipped);
    assert_eq!(rig.snapshot(), before);
    // The velocity cannot be stored: a metre in a nanosecond.
    let plan = plan_of(rig.begin_tick(
        &[Some(i64::MAX), Some(i64::MAX)],
        &[],
        InertialReading::Heading(0),
    ));
    assert_eq!(rig.complete_tick(plan, STRAIGHT, 1, None), TickOutcome::Skipped);
    assert_eq!(rig.snapshot(), before);
    // The same distances fit once more time has passed: nothing was kept from
    // the skipped ticks.
    let plan = plan_of(rig.begin_tick(&[Some(5), Some(5)], &[], InertialReading::Heading(0)));
    assert_eq!(rig.complete_tick(plan, STRAIGHT, 10_000_000, None), TickOutcome::Published);
    assert_eq!(rig.pose(), Pose::new(i64::MAX, 0, 0));
    assert_eq!(rig.linear_velocity(), 500);
}

#[test]
fn rig_angular_velocity_falls_back_to_the_heading_without_a_gyro_rate() {
    let mut rig = differential_rig(InertialReading::Heading(0));
    let plan = plan_of(rig.begin_tick(
        &[Some(0), Some(0)],
        &[],
        InertialReading::Heading(-50_000_000),
    ));
    let trig = Trig { half_delta_sin: 24_997_396, average_sin: 74_929_707, average_cos: 997_188_818 };
    assert_eq!(rig.complete_tick(plan, trig, 10_000_000, None), TickOutcome::Published);
    assert_eq!(rig.angular_velocity(), 5_000_000_000);
}
