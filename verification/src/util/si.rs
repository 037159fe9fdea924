//! Units of measure and the fixed-point arithmetic built on them.
//!
//! Quantities are integers: lengths in nanometres, angles in nanoradians,
//! times in nanoseconds, and sines and cosines scaled by [`UNIT`]. Wide
//! intermediates are computed exactly and narrowed to the stored width at the
//! end, so each result is the value of a formula over the integers.

use std::ops::Neg;
use vstd::prelude::*;
use vstd::std_specs::ops::{AddSpec, AddSpecImpl, NegSpec, NegSpecImpl, SubSpec, SubSpecImpl};

verus! {

/// Resolution of every quantity: one metre, one radian and one second are
/// `UNIT` nanometres, nanoradians and nanoseconds. A sine or cosine of 1 is
/// `UNIT` as well.
pub const UNIT: i64 = 1_000_000_000;

/// A full turn in nanoradians.
pub const TAU: i64 = 6_283_185_307;

/// Half a turn in nanoradians, rounded down: the largest magnitude of a
/// wrapped angle.
pub const HALF_TURN: i64 = 3_141_592_653;

/// The most wheels one axis of a rig may carry.
pub const MAX_WHEELS: usize = 64;

/// Division that rounds toward zero, as the machine divides signed integers.
/// Negating the dividend negates the quotient.
pub open spec fn trunc_div(a: int, b: int) -> int {
    if a >= 0 {
        a / b
    } else {
        -((-a) / b)
    }
}

/// Whether `v` can be stored in an `i64`.
pub open spec fn fits_i64(v: int) -> bool {
    i64::MIN <= v <= i64::MAX
}

/// The representative of `d` modulo a full turn that lies within half a turn
/// of zero: the shortest signed arc from one heading to another.
pub open spec fn wrap_angle(d: int) -> int {
    let m = d % (TAU as int);
    if m > HALF_TURN {
        m - TAU
    } else {
        m
    }
}

/// Whether `v` is a sine or cosine scaled by [`UNIT`]: at most 1 in magnitude.
pub open spec fn is_trig_value(v: int) -> bool {
    -UNIT <= v <= UNIT
}

/// Narrows a wide intermediate to the stored width, or reports that it does
/// not fit.
pub fn narrow(v: i128) -> (r: Option<i64>)
    ensures
        match r {
            Some(n) => n == v,
            None => !fits_i64(v as int),
        },
{
    if v < i64::MIN as i128 || v > i64::MAX as i128 {
        None
    } else {
        Some(v as i64)
    }
}

/// Wraps an angle into the turn around zero: the result differs from `d` by
/// whole turns and is at most half a turn in magnitude.
pub fn wrap(d: i128) -> (r: i64)
    ensures
        r == wrap_angle(d as int),
        -HALF_TURN <= r <= HALF_TURN,
        (r - d) % (TAU as int) == 0,
{
    let turn: i128 = TAU as i128;
    let half: i128 = HALF_TURN as i128;
    let m: i128 = d % turn;
    let w: i128 = if m > half {
        m - turn
    } else if m < -half {
        m + turn
    } else {
        m
    };
    w as i64
}

/// What truncating division is: the quotient times the divisor falls short
/// of the dividend by a remainder that is smaller in magnitude than the
/// divisor and has the sign of the dividend.
pub proof fn trunc_div_rounds_toward_zero(a: int, b: int)
    requires
        b != 0,
    ensures
        a >= 0 ==> 0 <= a - b * trunc_div(a, b),
        a <= 0 ==> a - b * trunc_div(a, b) <= 0,
        b > 0 ==> -b < a - b * trunc_div(a, b) < b,
        b < 0 ==> b < a - b * trunc_div(a, b) < -b,
{
    if a > 0 {
        lemma_div_remainder(a, b);
    } else if a == 0 {
        lemma_div_magnitude(0, b);
        assert(b * 0 == 0) by (nonlinear_arith);
    } else {
        lemma_div_remainder(-a, b);
        assert(b * (-((-a) / b)) == -(b * ((-a) / b))) by (nonlinear_arith);
    }
}

/// The same for a dividend that is not negative.
proof fn lemma_div_remainder(a: int, b: int)
    by (nonlinear_arith)
    requires
        a >= 0,
        b != 0,
    ensures
        0 <= a - b * (a / b),
        b > 0 ==> a - b * (a / b) < b,
        b < 0 ==> a - b * (a / b) < -b,
{
}

/// A quotient is no larger in magnitude than its dividend.
pub proof fn lemma_trunc_div_bound(a: int, b: int)
    requires
        b != 0,
    ensures
        a >= 0 ==> -a <= trunc_div(a, b) <= a,
        a <= 0 ==> a <= trunc_div(a, b) <= -a,
{
    if a >= 0 {
        lemma_div_magnitude(a, b);
    } else {
        lemma_div_magnitude(-a, b);
    }
}

/// The same for a dividend that is not negative.
proof fn lemma_div_magnitude(a: int, b: int)
    by (nonlinear_arith)
    requires
        a >= 0,
        b != 0,
    ensures
        -a <= a / b <= a,
{
}

/// Dividing by a positive number keeps a bound that is a multiple of it:
/// if `|a| <= bound * b` then `|a / b| <= bound`.
pub proof fn lemma_trunc_div_scaled_bound(a: int, b: int, bound: int)
    requires
        b > 0,
        bound >= 0,
        -(bound * b) <= a <= bound * b,
    ensures
        -bound <= trunc_div(a, b) <= bound,
{
    if a >= 0 {
        lemma_div_scaled(a, b, bound);
    } else {
        lemma_div_scaled(-a, b, bound);
    }
}

/// The same for a dividend that is not negative.
proof fn lemma_div_scaled(a: int, b: int, bound: int)
    by (nonlinear_arith)
    requires
        b > 0,
        bound >= 0,
        0 <= a <= bound * b,
    ensures
        0 <= a / b <= bound,
{
}

/// The product of two bounded numbers is bounded by the product of the bounds.
pub proof fn lemma_product_bound(a: int, b: int, a_bound: int, b_bound: int)
    by (nonlinear_arith)
    requires
        -a_bound <= a <= a_bound,
        -b_bound <= b <= b_bound,
    ensures
        -(a_bound * b_bound) <= a * b <= a_bound * b_bound,
{
}

/// Truncating division is odd in its dividend.
pub proof fn lemma_trunc_div_neg(a: int, b: int)
    requires
        b != 0,
    ensures
        trunc_div(-a, b) == -trunc_div(a, b),
{
    if a == 0 {
        lemma_div_magnitude(0, b);
    }
}

/// A 2D vector with generic component type.
#[derive(Debug, Clone, Copy, PartialEq)]
pub struct Vector2<T> {
    pub x: T,
    pub y: T,
}

impl<T> Vector2<T> {
    /// The vector with the given components.
    #[inline]
    pub fn new(x: T, y: T) -> (v: Self)
        ensures
            v.x == x,
            v.y == y,
    {
        Self { x, y }
    }

    /// The components as a pair, `x` first.
    #[inline]
    pub fn as_tuple(&self) -> (t: (T, T)) where T: Copy
        ensures
            t.0 == self.x,
            t.1 == self.y,
    {
        (self.x, self.y)
    }
}

/// Component-wise sum.
impl<T: std::ops::Add<Output = T>> std::ops::Add for Vector2<T> {
    type Output = Self;

    fn add(self, rhs: Self) -> (sum: Self) {
        Self { x: self.x + rhs.x, y: self.y + rhs.y }
    }
}

impl<T: std::ops::Add<Output = T>> AddSpecImpl for Vector2<T> {
    open spec fn obeys_add_spec() -> bool {
        T::obeys_add_spec()
    }

    open spec fn add_req(self, rhs: Self) -> bool {
        self.x.add_req(rhs.x) && self.y.add_req(rhs.y)
    }

    open spec fn add_spec(self, rhs: Self) -> Self {
        Vector2 { x: self.x.add_spec(rhs.x), y: self.y.add_spec(rhs.y) }
    }
}

/// Component-wise difference.
impl<T: std::ops::Sub<Output = T>> std::ops::Sub for Vector2<T> {
    type Output = Self;

    fn sub(self, rhs: Self) -> (difference: Self) {
        Self { x: self.x - rhs.x, y: self.y - rhs.y }
    }
}

impl<T: std::ops::Sub<Output = T>> SubSpecImpl for Vector2<T> {
    open spec fn obeys_sub_spec() -> bool {
        T::obeys_sub_spec()
    }

    open spec fn sub_req(self, rhs: Self) -> bool {
        self.x.sub_req(rhs.x) && self.y.sub_req(rhs.y)
    }

    open spec fn sub_spec(self, rhs: Self) -> Self {
        Vector2 { x: self.x.sub_spec(rhs.x), y: self.y.sub_spec(rhs.y) }
    }
}

/// Component-wise negation.
impl<T: std::ops::Neg<Output = T>> std::ops::Neg for Vector2<T> {
    type Output = Self;

    fn neg(self) -> (negated: Self) {
        Self { x: self.x.neg(), y: self.y.neg() }
    }
}

impl<T: std::ops::Neg<Output = T>> NegSpecImpl for Vector2<T> {
    open spec fn obeys_neg_spec() -> bool {
        T::obeys_neg_spec()
    }

    open spec fn neg_req(self) -> bool {
        self.x.neg_req() && self.y.neg_req()
    }

    open spec fn neg_spec(self) -> Self {
        Vector2 { x: self.x.neg_spec(), y: self.y.neg_spec() }
    }
}

/// The first component of a displacement turned by the angle whose scaled
/// sine and cosine are given.
pub open spec fn spec_rotate_x(x: int, y: int, sin: int, cos: int) -> int {
    trunc_div(x * cos - y * sin, UNIT as int)
}

/// The second component of a displacement turned by the angle whose scaled
/// sine and cosine are given.
pub open spec fn spec_rotate_y(x: int, y: int, sin: int, cos: int) -> int {
    trunc_div(x * sin + y * cos, UNIT as int)
}

impl Vector2<i64> {
    /// The zero vector.
    #[inline]
    pub fn zero() -> (v: Self)
        ensures
            v.x == 0,
            v.y == 0,
    {
        Self { x: 0, y: 0 }
    }

    /// The vector turned a quarter turn counter-clockwise: `(-y, x)`.
    #[inline]
    pub fn perp(self) -> (v: Self)
        requires
            self.y > i64::MIN,
        ensures
            v.x == -self.y,
            v.y == self.x,
    {
        Self { x: -self.y, y: self.x }
    }

    /// The vector turned by the angle whose sine and cosine, scaled by
    /// [`UNIT`], are given: a displacement in the robot's frame projected into
    /// the global frame at that heading. `None` where a trigonometric value is
    /// larger than 1 in magnitude or a component cannot be stored.
    pub fn rotate(self, sin: i64, cos: i64) -> (v: Option<Self>)
        ensures
            v.is_some() <==> is_trig_value(sin as int) && is_trig_value(cos as int) && fits_i64(
                spec_rotate_x(self.x as int, self.y as int, sin as int, cos as int),
            ) && fits_i64(spec_rotate_y(self.x as int, self.y as int, sin as int, cos as int)),
            v matches Some(r) ==> r.x == spec_rotate_x(
                self.x as int,
                self.y as int,
                sin as int,
                cos as int,
            ) && r.y == spec_rotate_y(self.x as int, self.y as int, sin as int, cos as int),
    {
        if sin < -UNIT || sin > UNIT || cos < -UNIT || cos > UNIT {
            return None;
        }
        let x: i128 = self.x as i128;
        let y: i128 = self.y as i128;
        let s: i128 = sin as i128;
        let c: i128 = cos as i128;
        proof {
            let wide = 0x8000_0000_0000_0000int;
            lemma_product_bound(x as int, c as int, wide, UNIT as int);
            lemma_product_bound(y as int, s as int, wide, UNIT as int);
            lemma_product_bound(x as int, s as int, wide, UNIT as int);
            lemma_product_bound(y as int, c as int, wide, UNIT as int);
        }
        let gx = narrow((x * c - y * s) / (UNIT as i128));
        let gy = narrow((x * s + y * c) / (UNIT as i128));
        match (gx, gy) {
            (Some(rx), Some(ry)) => Some(Self { x: rx, y: ry }),
            _ => None,
        }
    }
}

} // verus!
