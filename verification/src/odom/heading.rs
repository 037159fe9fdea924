//! Heading resolution: which source the heading of a tick comes from.
//!
//! The inertial sensor is preferred. Two forward wheels mounted on opposite
//! sides of the centre stand in reserve: the difference of their travel over
//! their distance apart is a heading too. Once the inertial sensor has failed
//! it is not asked again.

use vstd::prelude::*;
use crate::util::si::{
    fits_i64, lemma_product_bound, lemma_trunc_div_bound, narrow, trunc_div, UNIT,
};

verus! {

/// How far from zero the sum of two offsets may be for the wheels to count
/// as a parallel pair: half a metre.
pub const OFFSET_TOLERANCE: i64 = 500_000_000;

/// The source the heading is taken from.
#[derive(Debug, Clone, Copy, PartialEq, Eq, Structural)]
pub enum HeadingState {
    /// The inertial sensor is present and trusted.
    UsingInertial,
    /// There is no inertial sensor, or it has failed once: the heading comes
    /// from the parallel pair of forward wheels.
    UsingWheelFallback,
    /// No heading can be had any more.
    Failed,
}

/// What the host read from the inertial sensor for one tick.
#[derive(Debug, Clone, Copy, PartialEq, Eq, Structural)]
pub enum InertialReading {
    /// There is no inertial sensor, or it is no longer asked.
    Absent,
    /// The sensor was asked and the read failed.
    Failed,
    /// The sensor's heading in nanoradians, in the sensor's own polarity.
    Heading(i64),
}

/// Why no heading was resolved.
#[derive(Debug, Clone, Copy, PartialEq, Eq, Structural)]
pub enum HeadingError {
    /// The inertial sensor was asked and its read failed. Carries the heading
    /// of the parallel pair where it yields one to fall back to; without one
    /// the loss is final.
    Imu(Option<i64>),
    /// The wheels are the source of the heading, and they yield none: there
    /// is no parallel pair, its wheels are not apart, or the heading cannot
    /// be stored.
    Rotary,
}

/// Whether two offsets mirror each other about the centre within the
/// tolerance.
pub open spec fn is_parallel(a: i64, b: i64) -> bool {
    -OFFSET_TOLERANCE <= a + b <= OFFSET_TOLERANCE
}

/// A pair of indices ordered so that the wheel with the smaller offset comes
/// first; on equal offsets the later index comes first.
pub open spec fn ordered_pair(offsets: Seq<i64>, i: int, j: int) -> (usize, usize) {
    if offsets[i] < offsets[j] {
        (i as usize, j as usize)
    } else {
        (j as usize, i as usize)
    }
}

/// Whether `(i, j)` is the first parallel pair: parallel, with no parallel
/// pair before it when the pairs are taken row by row.
pub open spec fn is_first_parallel(offsets: Seq<i64>, i: int, j: int) -> bool {
    &&& 0 <= i < j < offsets.len()
    &&& is_parallel(offsets[i], offsets[j])
    &&& forall|a: int, b: int|
        0 <= a < b < offsets.len() && (a < i || (a == i && b < j)) ==> !is_parallel(
            #[trigger] offsets[a],
            #[trigger] offsets[b],
        )
}

/// Whether no two of the offsets form a parallel pair.
pub open spec fn no_parallel_pair(offsets: Seq<i64>) -> bool {
    forall|a: int, b: int|
        0 <= a < b < offsets.len() ==> !is_parallel(#[trigger] offsets[a], #[trigger] offsets[b])
}

/// The parallel pair of a set of forward wheels: the first pair of indices,
/// taken row by row, whose offsets mirror each other within the tolerance, the
/// index of the smaller offset first; `None` where no two wheels do.
pub open spec fn spec_parallel_indices(offsets: Seq<i64>) -> Option<(usize, usize)> {
    if exists|i: int, j: int| is_first_parallel(offsets, i, j) {
        let (i, j) = choose|i: int, j: int| is_first_parallel(offsets, i, j);
        Some(ordered_pair(offsets, i, j))
    } else {
        None
    }
}

/// There is at most one first parallel pair.
pub proof fn lemma_first_parallel_unique(offsets: Seq<i64>, i: int, j: int, a: int, b: int)
    requires
        is_first_parallel(offsets, i, j),
        is_first_parallel(offsets, a, b),
    ensures
        i == a,
        j == b,
{
    if a < i || (a == i && b < j) {
        assert(!is_parallel(offsets[a], offsets[b]));
    }
    if i < a || (i == a && j < b) {
        assert(!is_parallel(offsets[i], offsets[j]));
    }
}

/// What a parallel pair is known to be: two different wheels, the first with
/// the smaller or equal offset, whose offsets mirror each other.
pub proof fn lemma_parallel_indices_shape(offsets: Seq<i64>)
    requires
        offsets.len() <= usize::MAX,
    ensures
        spec_parallel_indices(offsets).is_none() <==> no_parallel_pair(offsets),
        spec_parallel_indices(offsets) matches Some(p) ==> p.0 < offsets.len() && p.1
            < offsets.len() && p.0 != p.1 && offsets[p.0 as int] <= offsets[p.1 as int]
            && is_parallel(offsets[p.0 as int], offsets[p.1 as int]),
{
    if exists|i: int, j: int| is_first_parallel(offsets, i, j) {
        let (i, j) = choose|i: int, j: int| is_first_parallel(offsets, i, j);
        assert(is_parallel(offsets[i], offsets[j]));
    } else {
        if !no_parallel_pair(offsets) {
            let (a, b) = choose|a: int, b: int|
                0 <= a < b < offsets.len() && is_parallel(
                    #[trigger] offsets[a],
                    #[trigger] offsets[b],
                );
            lemma_first_parallel_exists(offsets, a, b);
        }
    }
}

/// Where some pair is parallel, a first one exists.
proof fn lemma_first_parallel_exists(offsets: Seq<i64>, a: int, b: int)
    requires
        0 <= a < b < offsets.len(),
        is_parallel(offsets[a], offsets[b]),
    ensures
        exists|i: int, j: int| is_first_parallel(offsets, i, j),
    decreases a, b,
{
    if is_first_parallel(offsets, a, b) {
    } else {
        let (c, d) = choose|c: int, d: int|
            0 <= c < d < offsets.len() && (c < a || (c == a && d < b)) && is_parallel(
                #[trigger] offsets[c],
                #[trigger] offsets[d],
            );
        lemma_first_parallel_exists(offsets, c, d);
    }
}

/// Scans all unordered index pairs of the forward wheels' offsets, row by
/// row, and returns the first pair whose offsets sum to within
/// [`OFFSET_TOLERANCE`] of zero, the index of the smaller offset first. The
/// first pair found wins; no best fit is searched for.
pub fn find_parallel_forward_indices(offsets: &[i64]) -> (pair: Option<(usize, usize)>)
    ensures
        pair == spec_parallel_indices(offsets@),
        pair.is_none() <==> no_parallel_pair(offsets@),
        pair matches Some(p) ==> p.0 < offsets.len() && p.1 < offsets.len() && p.0 != p.1
            && offsets[p.0 as int] <= offsets[p.1 as int] && is_parallel(
            offsets[p.0 as int],
            offsets[p.1 as int],
        ),
{
    let n = offsets.len();
    proof {
        lemma_parallel_indices_shape(offsets@);
    }
    let mut i: usize = 0;
    while i < n
        invariant
            n == offsets.len(),
            0 <= i <= n,
            forall|a: int, b: int|
                0 <= a < b < n && a < i ==> !is_parallel(
                    #[trigger] offsets[a],
                    #[trigger] offsets[b],
                ),
        decreases n - i,
    {
        let mut j: usize = i + 1;
        while j < n
            invariant
                n == offsets.len(),
                0 <= i < n,
                i < j <= n,
                forall|a: int, b: int|
                    0 <= a < b < n && (a < i || (a == i && b < j)) ==> !is_parallel(
                        #[trigger] offsets[a],
                        #[trigger] offsets[b],
                    ),
            decreases n - j,
        {
            let i_offset = offsets[i];
            let j_offset = offsets[j];
            let sum: i128 = i_offset as i128 + j_offset as i128;
            if -(OFFSET_TOLERANCE as i128) <= sum && sum <= OFFSET_TOLERANCE as i128 {
                proof {
                    assert(is_first_parallel(offsets@, i as int, j as int));
                    let (a, b) = choose|a: int, b: int| is_first_parallel(offsets@, a, b);
                    lemma_first_parallel_unique(offsets@, i as int, j as int, a, b);
                }
                return Some(
                    if i_offset < j_offset {
                        (i, j)
                    } else {
                        (j, i)
                    },
                );
            }
            j = j + 1;
        }
        i = i + 1;
    }
    proof {
        assert(no_parallel_pair(offsets@));
    }
    None
}

/// The distance between two wheels across the robot.
pub open spec fn spec_track_width(left_offset: int, right_offset: int) -> int {
    if right_offset >= left_offset {
        right_offset - left_offset
    } else {
        left_offset - right_offset
    }
}

/// The heading that a pair of wheels stands for: the difference of their
/// travel, right minus left, over their distance apart.
pub open spec fn spec_wheel_heading(
    left_offset: int,
    left_travel: int,
    right_offset: int,
    right_travel: int,
) -> int {
    trunc_div((right_travel - left_travel) * UNIT, spec_track_width(left_offset, right_offset))
}

/// Whether a pair of wheels yields a heading: they are apart, and the heading
/// can be stored.
pub open spec fn wheel_heading_defined(
    left_offset: int,
    left_travel: int,
    right_offset: int,
    right_travel: int,
) -> bool {
    spec_track_width(left_offset, right_offset) != 0 && fits_i64(
        spec_wheel_heading(left_offset, left_travel, right_offset, right_travel),
    )
}

/// The heading from the travel of two wheels on opposite sides of the
/// centre, in nanoradians: `(right_travel - left_travel) / track_width`.
/// `None` where the wheels sit at the same offset, so that the track width is
/// zero, or where the heading cannot be stored.
pub fn wheel_heading(
    left_offset: i64,
    left_travel: i64,
    right_offset: i64,
    right_travel: i64,
) -> (h: Option<i64>)
    ensures
        h.is_some() <==> wheel_heading_defined(
            left_offset as int,
            left_travel as int,
            right_offset as int,
            right_travel as int,
        ),
        h matches Some(v) ==> v == spec_wheel_heading(
            left_offset as int,
            left_travel as int,
            right_offset as int,
            right_travel as int,
        ),
{
    let apart: i128 = right_offset as i128 - left_offset as i128;
    let track_width: i128 = if apart >= 0 {
        apart
    } else {
        -apart
    };
    if track_width == 0 {
        return None;
    }
    let span: i128 = right_travel as i128 - left_travel as i128;
    proof {
        lemma_product_bound(span as int, UNIT as int, 0x1_0000_0000_0000_0000, UNIT as int);
    }
    let difference: i128 = span * (UNIT as i128);
    proof {
        lemma_trunc_div_bound(difference as int, track_width as int);
    }
    narrow(difference / track_width)
}

/// The heading the parallel pair stands for, if there is a pair and it
/// yields one.
pub open spec fn spec_pair_heading(
    parallel_indices: Option<(usize, usize)>,
    travel: Seq<i64>,
    offsets: Seq<i64>,
) -> Option<i64> {
    match parallel_indices {
        Some((l, r)) => if wheel_heading_defined(
            offsets[l as int] as int,
            travel[l as int] as int,
            offsets[r as int] as int,
            travel[r as int] as int,
        ) {
            Some(
                spec_wheel_heading(
                    offsets[l as int] as int,
                    travel[l as int] as int,
                    offsets[r as int] as int,
                    travel[r as int] as int,
                ) as i64,
            )
        } else {
            None
        },
        None => None,
    }
}

/// Whether the parallel pair is valid: there is one, and its two wheels sit
/// at different offsets, so that it has a track width to divide by.
pub open spec fn pair_has_track_width(
    parallel_indices: Option<(usize, usize)>,
    offsets: Seq<i64>,
) -> bool {
    parallel_indices matches Some((l, r)) && offsets[l as int] != offsets[r as int]
}

/// Whether an inertial reading is a heading that can be turned into the
/// global frame: it was read, and its negation can be stored.
pub open spec fn inertial_usable(inertial: InertialReading) -> bool {
    inertial matches InertialReading::Heading(h) && h > i64::MIN
}

/// The raw heading of a tick and its source, as a function of the readings.
///
/// With an inertial sensor in use, its heading with the sign flipped: the
/// sensor's polarity is opposite to the global frame's. If that read failed,
/// an `Imu` error that carries the heading of the parallel pair to fall back
/// to, where it yields one. Without an inertial sensor, the heading of the
/// parallel pair, and `Rotary` where there is no pair or it yields none.
pub open spec fn spec_raw_heading(
    inertial: InertialReading,
    parallel_indices: Option<(usize, usize)>,
    travel: Seq<i64>,
    offsets: Seq<i64>,
) -> Result<i64, HeadingError> {
    match inertial {
        InertialReading::Heading(h) => if h > i64::MIN {
            Ok((-h) as i64)
        } else {
            Err(HeadingError::Imu(spec_pair_heading(parallel_indices, travel, offsets)))
        },
        InertialReading::Failed => Err(
            HeadingError::Imu(spec_pair_heading(parallel_indices, travel, offsets)),
        ),
        InertialReading::Absent => match spec_pair_heading(parallel_indices, travel, offsets) {
            Some(h) => Ok(h),
            None => Err(HeadingError::Rotary),
        },
    }
}

/// Whether the indices of a pair point at two different wheels.
pub open spec fn pair_in_range(parallel_indices: Option<(usize, usize)>, count: int) -> bool {
    parallel_indices matches Some((l, r)) ==> l < count && r < count && l != r
}

/// Resolves the raw heading of a tick from what was read.
///
/// `inertial` is [`InertialReading::Absent`] where there is no inertial
/// sensor or it is no longer trusted. A reading of the smallest integer
/// cannot be negated and counts as a failed read. `Rotary` comes exactly
/// where the inertial sensor is absent and the wheels yield no heading;
/// `Imu` comes exactly where the sensor was asked and its read failed.
pub fn compute_raw_heading(
    inertial: InertialReading,
    parallel_indices: Option<(usize, usize)>,
    travel: &[i64],
    offsets: &[i64],
) -> (heading: Result<i64, HeadingError>)
    requires
        travel.len() == offsets.len(),
        pair_in_range(parallel_indices, travel.len() as int),
    ensures
        heading == spec_raw_heading(inertial, parallel_indices, travel@, offsets@),
        heading == Err::<i64, HeadingError>(HeadingError::Rotary) <==> inertial
            == InertialReading::Absent && spec_pair_heading(
            parallel_indices,
            travel@,
            offsets@,
        ).is_none(),
        heading matches Err(HeadingError::Imu(_)) <==> inertial != InertialReading::Absent
            && !inertial_usable(inertial),
{
    let fallback: Option<i64> = match parallel_indices {
        Some((l, r)) => wheel_heading(offsets[l], travel[l], offsets[r], travel[r]),
        None => None,
    };
    match inertial {
        InertialReading::Heading(h) => {
            if h > i64::MIN {
                Ok(-h)
            } else {
                Err(HeadingError::Imu(fallback))
            }
        },
        InertialReading::Failed => Err(HeadingError::Imu(fallback)),
        InertialReading::Absent => match fallback {
            Some(h) => Ok(h),
            None => Err(HeadingError::Rotary),
        },
    }
}

/// The inertial reading that counts while the sensor is trusted: not having
/// asked it is a failed read.
pub open spec fn spec_trusted_reading(inertial: InertialReading) -> InertialReading {
    if inertial == InertialReading::Absent {
        InertialReading::Failed
    } else {
        inertial
    }
}

/// One step of the heading state machine: the next state and the heading of
/// the tick, or why there is none.
///
/// * While the inertial sensor is trusted, its reading with the sign flipped
///   is the heading. When the read fails the sensor is distrusted for good:
///   the state moves on to the wheels, and the heading of this tick is that
///   of the parallel pair where it yields one. Where it yields none, nothing
///   is left to go by: the error is `Imu(None)` and the state is `Failed`.
/// * Once the wheels are the source, the inertial reading is not looked at.
///   The heading is that of the parallel pair. Where it yields none the
///   error is `Rotary`: for this tick only where the pair is valid and it is
///   the heading that cannot be stored, and for good, with the state
///   `Failed`, where there is no valid pair.
/// * `Failed` stays `Failed`, with the error `Rotary`.
pub open spec fn spec_resolve(
    state: HeadingState,
    inertial: InertialReading,
    parallel_indices: Option<(usize, usize)>,
    travel: Seq<i64>,
    offsets: Seq<i64>,
) -> (HeadingState, Result<i64, HeadingError>) {
    match state {
        HeadingState::UsingInertial => match spec_raw_heading(
            spec_trusted_reading(inertial),
            parallel_indices,
            travel,
            offsets,
        ) {
            Ok(heading) => (HeadingState::UsingInertial, Ok(heading)),
            Err(HeadingError::Imu(Some(fallback))) => (
                HeadingState::UsingWheelFallback,
                Ok(fallback),
            ),
            Err(error) => (HeadingState::Failed, Err(error)),
        },
        HeadingState::UsingWheelFallback => match spec_raw_heading(
            InertialReading::Absent,
            parallel_indices,
            travel,
            offsets,
        ) {
            Ok(heading) => (HeadingState::UsingWheelFallback, Ok(heading)),
            Err(_) => if pair_has_track_width(parallel_indices, offsets) {
                (HeadingState::UsingWheelFallback, Err(HeadingError::Rotary))
            } else {
                (HeadingState::Failed, Err(HeadingError::Rotary))
            },
        },
        HeadingState::Failed => (HeadingState::Failed, Err(HeadingError::Rotary)),
    }
}

/// Resolves the heading of a tick and moves the heading state on.
///
/// `inertial` is what the host read from the inertial sensor; it counts only
/// in the state [`HeadingState::UsingInertial`]. `travel` and `offsets` hold
/// the distance and the offset of each forward wheel.
///
/// A heading never comes with the state [`HeadingState::Failed`]. An error
/// of [`HeadingError::Imu`] comes only from the trusted sensor's failed
/// read, carries no fallback, and is final. An error of
/// [`HeadingError::Rotary`] is final exactly where it comes with the state
/// `Failed`: from the wheels that is where there is no valid pair.
pub fn resolve(
    state: HeadingState,
    inertial: InertialReading,
    parallel_indices: Option<(usize, usize)>,
    travel: &[i64],
    offsets: &[i64],
) -> (resolved: (HeadingState, Result<i64, HeadingError>))
    requires
        travel.len() == offsets.len(),
        pair_in_range(parallel_indices, travel.len() as int),
    ensures
        resolved == spec_resolve(state, inertial, parallel_indices, travel@, offsets@),
        resolved.1 is Ok ==> resolved.0 != HeadingState::Failed,
        resolved.1 matches Err(HeadingError::Imu(fallback)) ==> fallback.is_none() && state
            == HeadingState::UsingInertial && resolved.0 == HeadingState::Failed,
        resolved.0 == HeadingState::Failed <==> state == HeadingState::Failed || (state
            == HeadingState::UsingInertial && resolved.1 is Err) || (state
            == HeadingState::UsingWheelFallback && resolved.1 is Err && !pair_has_track_width(
            parallel_indices,
            offsets@,
        )),
{
    match state {
        HeadingState::UsingInertial => {
            let reading = match inertial {
                InertialReading::Absent => InertialReading::Failed,
                other => other,
            };
            match compute_raw_heading(reading, parallel_indices, travel, offsets) {
                Ok(heading) => (HeadingState::UsingInertial, Ok(heading)),
                Err(HeadingError::Imu(Some(fallback))) => (
                    HeadingState::UsingWheelFallback,
                    Ok(fallback),
                ),
                Err(error) => (HeadingState::Failed, Err(error)),
            }
        },
        HeadingState::UsingWheelFallback => {
            match compute_raw_heading(InertialReading::Absent, parallel_indices, travel, offsets) {
                Ok(heading) => (HeadingState::UsingWheelFallback, Ok(heading)),
                Err(_) => {
                    if has_track_width(parallel_indices, offsets) {
                        (HeadingState::UsingWheelFallback, Err(HeadingError::Rotary))
                    } else {
                        (HeadingState::Failed, Err(HeadingError::Rotary))
                    }
                },
            }
        },
        HeadingState::Failed => (HeadingState::Failed, Err(HeadingError::Rotary)),
    }
}

/// Whether the parallel pair is valid: there is one, and its two wheels sit
/// at different offsets.
pub fn has_track_width(parallel_indices: Option<(usize, usize)>, offsets: &[i64]) -> (valid: bool)
    requires
        pair_in_range(parallel_indices, offsets.len() as int),
    ensures
        valid == pair_has_track_width(parallel_indices, offsets@),
{
    match parallel_indices {
        Some((l, r)) => offsets[l] != offsets[r],
        None => false,
    }
}

} // verus!
