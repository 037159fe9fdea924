//! Tracking wheels: passive wheels with an encoder, used only to measure
//! travel over the ground.
//!
//! A wheel turns the cumulative rotation of its encoder into a distance from
//! the wheel's diameter and gearing. Reading the encoder is the host's part;
//! the rotation is handed in, in nanoradians.

use vstd::prelude::*;
use crate::util::si::{
    fits_i64, lemma_product_bound, lemma_trunc_div_bound, narrow, trunc_div, UNIT,
};
use crate::util::utils::{Orientation, TrackingWheelOrientation};

verus! {

/// Types of omni wheels available for tracking.
///
/// Omni wheels come in different sizes (diameter). The size enters the
/// conversion of encoder rotation into linear distance.
#[derive(Debug, Clone, Copy, PartialEq, Eq, Structural)]
pub enum OmniWheel {
    /// 2.75-inch omni wheel
    Omni275,
    /// 3.25-inch omni wheel
    Omni325,
    /// 4.125-inch omni wheel
    Omni4,
    /// 2.75-inch anti-static wheel
    Anti275,
    /// 3.25-inch anti-static wheel
    Anti325,
    /// 4-inch anti-static wheel
    Anti4,
    /// A wheel of the given diameter in nanometres
    Custom(i64),
}

impl OmniWheel {
    /// The diameter of the wheel in nanometres; an inch is 25 400 000 nm.
    pub open spec fn spec_size(self) -> int {
        match self {
            OmniWheel::Omni275 => 69_850_000,
            OmniWheel::Omni325 => 82_550_000,
            OmniWheel::Omni4 => 104_775_000,
            OmniWheel::Anti275 => 69_850_000,
            OmniWheel::Anti325 => 82_550_000,
            OmniWheel::Anti4 => 101_600_000,
            OmniWheel::Custom(d) => d as int,
        }
    }

    /// Returns the diameter of the wheel in nanometres.
    pub fn size(&self) -> (d: i64)
        ensures
            d == self.spec_size(),
    {
        match *self {
            OmniWheel::Omni275 => 69_850_000,
            OmniWheel::Omni325 => 82_550_000,
            OmniWheel::Omni4 => 104_775_000,
            OmniWheel::Anti275 => 69_850_000,
            OmniWheel::Anti325 => 82_550_000,
            OmniWheel::Anti4 => 101_600_000,
            OmniWheel::Custom(d) => d,
        }
    }
}

/// Why a wheel has no distance to report.
#[derive(Debug, Clone, Copy, PartialEq, Eq, Structural)]
pub enum SensorReadError {
    /// The encoder could not be read.
    Unavailable,
    /// The reading was taken, but the distance it stands for cannot be
    /// stored: the gearing is zero or the value is too large.
    OutOfRange,
}

/// The signed offset that a mounting carries.
pub open spec fn spec_mount_offset(dist: TrackingWheelOrientation) -> i64 {
    match dist {
        TrackingWheelOrientation::Vertical(v) => v,
        TrackingWheelOrientation::Horizontal(v) => v,
    }
}

/// The side a wheel with the given offset is on: right of the centre for a
/// positive offset, left otherwise.
pub open spec fn spec_side(offset: i64) -> Orientation {
    if offset > 0 {
        Orientation::Right
    } else {
        Orientation::Left
    }
}

/// The distance a wheel has rolled after its encoder turned by `rotation`
/// nanoradians: the rotation times the wheel's radius, divided by the gearing
/// ratio (scaled by [`UNIT`]). A negative gearing inverts the polarity.
pub open spec fn spec_wheel_travel(rotation: int, diameter: int, gearing: int) -> int {
    trunc_div(rotation * diameter, 2 * gearing)
}

/// A tracking wheel: an omni wheel on an encoder, mounted at an offset from
/// the robot's centre of rotation.
#[derive(Debug, Clone, Copy)]
pub struct TrackingWheel {
    wheel: OmniWheel,
    dist: TrackingWheelOrientation,
    orientation: Orientation,
    total: i64,
    gearing: i64,
}

impl TrackingWheel {
    /// The side of a wheel is the side its offset is on.
    #[verifier::type_invariant]
    spec fn sided(self) -> bool {
        self.orientation == spec_side(spec_mount_offset(self.dist))
    }

    /// The kind of wheel.
    pub closed spec fn spec_wheel(self) -> OmniWheel {
        self.wheel
    }

    /// The mounting, with the offset.
    pub closed spec fn spec_direction(self) -> TrackingWheelOrientation {
        self.dist
    }

    /// The side of the robot the wheel is on.
    pub closed spec fn spec_orientation(self) -> Orientation {
        self.orientation
    }

    /// The distance last computed by [`TrackingWheel::distance`], zero after
    /// construction and after a reset.
    pub closed spec fn spec_total(self) -> i64 {
        self.total
    }

    /// Encoder turns per wheel turn, scaled by [`UNIT`].
    pub closed spec fn spec_gearing(self) -> i64 {
        self.gearing
    }

    /// The signed offset from the centre of rotation.
    pub open spec fn spec_offset(self) -> i64 {
        spec_mount_offset(self.spec_direction())
    }

    /// The distance that an encoder rotation stands for on this wheel.
    pub open spec fn spec_travel(self, rotation: int) -> int {
        spec_wheel_travel(rotation, self.spec_wheel().spec_size(), self.spec_gearing() as int)
    }

    /// Whether a rotation stands for a distance that can be stored.
    pub open spec fn travel_representable(self, rotation: int) -> bool {
        self.spec_gearing() != 0 && fits_i64(self.spec_travel(rotation))
    }

    /// The wheel as far as it was configured: everything but the cached
    /// distance.
    pub open spec fn same_configuration(self, other: TrackingWheel) -> bool {
        &&& self.spec_wheel() == other.spec_wheel()
        &&& self.spec_direction() == other.spec_direction()
        &&& self.spec_orientation() == other.spec_orientation()
        &&& self.spec_gearing() == other.spec_gearing()
    }

    /// Creates a new tracking wheel.
    ///
    /// * `wheel` - the type of omni wheel being used
    /// * `dist` - the mounting and the signed offset from the robot's centre:
    ///   positive on the right side, negative on the left
    /// * `ratio` - the gearing ratio scaled by [`UNIT`]; `None` is 1:1, and
    ///   `2 * UNIT` means the encoder turns twice per wheel turn
    ///
    /// The cached distance starts at zero.
    #[inline]
    pub fn new(wheel: OmniWheel, dist: TrackingWheelOrientation, ratio: Option<i64>) -> (w: Self)
        ensures
            w.spec_wheel() == wheel,
            w.spec_direction() == dist,
            w.spec_orientation() == spec_side(spec_mount_offset(dist)),
            w.spec_total() == 0,
            w.spec_gearing() == (match ratio {
                Some(g) => g,
                None => UNIT,
            }),
    {
        let gearing: i64 = match ratio {
            Some(g) => g,
            None => UNIT,
        };
        let offset: i64 = match dist {
            TrackingWheelOrientation::Vertical(v) => v,
            TrackingWheelOrientation::Horizontal(v) => v,
        };
        if offset > 0 {
            TrackingWheel { wheel, dist, orientation: Orientation::Right, total: 0, gearing }
        } else {
            TrackingWheel { wheel, dist, orientation: Orientation::Left, total: 0, gearing }
        }
    }

    /// The signed offset from the centre of rotation; constant over the life
    /// of the wheel.
    pub fn offset(&self) -> (o: i64)
        ensures
            o == self.spec_offset(),
    {
        match self.dist {
            TrackingWheelOrientation::Vertical(v) => v,
            TrackingWheelOrientation::Horizontal(v) => v,
        }
    }

    /// The distance that an encoder rotation stands for, without touching the
    /// cached distance. `None` where the gearing is zero or the distance
    /// cannot be stored.
    pub fn travel(&self, rotation: i64) -> (t: Option<i64>)
        ensures
            t.is_some() <==> self.travel_representable(rotation as int),
            t matches Some(v) ==> v == self.spec_travel(rotation as int),
    {
        if self.gearing == 0 {
            return None;
        }
        let diameter: i128 = self.wheel.size() as i128;
        proof {
            let stored = 0x8000_0000_0000_0000int;
            lemma_product_bound(rotation as int, diameter as int, stored, stored);
            lemma_trunc_div_bound(rotation * diameter, 2 * self.gearing);
        }
        narrow((rotation as i128 * diameter) / (2 * (self.gearing as i128)))
    }

    /// The cumulative distance the wheel has rolled, from the encoder's
    /// cumulative rotation; `None` stands for a failed read. On success the
    /// distance is cached. On failure nothing changes and the error says
    /// whether the read failed or the distance cannot be stored.
    pub fn distance(&mut self, rotation: Option<i64>) -> (d: Result<i64, SensorReadError>)
        ensures
            final(self).same_configuration(*old(self)),
            match rotation {
                None => d == Err::<i64, SensorReadError>(SensorReadError::Unavailable),
                Some(r) => if old(self).travel_representable(r as int) {
                    d == Ok::<i64, SensorReadError>(old(self).spec_travel(r as int) as i64)
                } else {
                    d == Err::<i64, SensorReadError>(SensorReadError::OutOfRange)
                },
            },
            final(self).spec_total() == (match d {
                Ok(v) => v,
                Err(_) => old(self).spec_total(),
            }),
    {
        proof {
            use_type_invariant(&*self);
        }
        match rotation {
            None => Err(SensorReadError::Unavailable),
            Some(r) => match self.travel(r) {
                Some(v) => {
                    self.total = v;
                    Ok(v)
                },
                None => Err(SensorReadError::OutOfRange),
            },
        }
    }

    /// Returns the distance traveled since the distance was last computed,
    /// and caches the new distance. On failure nothing changes.
    pub fn delta(&mut self, rotation: Option<i64>) -> (d: Result<i64, SensorReadError>)
        ensures
            final(self).same_configuration(*old(self)),
            match rotation {
                None => d == Err::<i64, SensorReadError>(SensorReadError::Unavailable),
                Some(r) => if old(self).travel_representable(r as int) && fits_i64(
                    old(self).spec_travel(r as int) - old(self).spec_total(),
                ) {
                    d == Ok::<i64, SensorReadError>(
                        (old(self).spec_travel(r as int) - old(self).spec_total()) as i64,
                    )
                } else {
                    d == Err::<i64, SensorReadError>(SensorReadError::OutOfRange)
                },
            },
            final(self).spec_total() == (match (d, rotation) {
                (Ok(_), Some(r)) => old(self).spec_travel(r as int) as i64,
                _ => old(self).spec_total(),
            }),
    {
        proof {
            use_type_invariant(&*self);
        }
        match rotation {
            None => Err(SensorReadError::Unavailable),
            Some(r) => match self.travel(r) {
                Some(current) => match narrow(current as i128 - self.total as i128) {
                    Some(step) => {
                        self.total = current;
                        Ok(step)
                    },
                    None => Err(SensorReadError::OutOfRange),
                },
                None => Err(SensorReadError::OutOfRange),
            },
        }
    }

    /// Zeroes the cached distance. The host resets the encoder and hands in
    /// how that went; the cached distance is zeroed either way, and a failure
    /// of the encoder is passed on.
    pub fn reset(
        &mut self,
        encoder: Result<(), SensorReadError>,
    ) -> (r: Result<(), SensorReadError>)
        ensures
            final(self).same_configuration(*old(self)),
            final(self).spec_total() == 0,
            r == encoder,
    {
        proof {
            use_type_invariant(&*self);
        }
        self.total = 0;
        encoder
    }

    /// The distance last computed, zero after construction and after a reset.
    pub fn total(&self) -> (t: i64)
        ensures
            t == self.spec_total(),
    {
        self.total
    }

    /// The side of the robot the wheel is on: right of the centre for a
    /// positive offset, left otherwise.
    pub fn orientation(&self) -> (o: Orientation)
        ensures
            o == self.spec_orientation(),
            o == spec_side(self.spec_offset()),
    {
        proof {
            use_type_invariant(self);
        }
        self.orientation
    }

    /// The mounting of the wheel, with its offset.
    pub fn direction(&self) -> (d: TrackingWheelOrientation)
        ensures
            d == self.spec_direction(),
    {
        self.dist
    }
}

} // verus!
