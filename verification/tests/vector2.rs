use kernelvex::util::si::{Vector2, UNIT};

#[test]
fn test_vector2_add_sub() {
    let a = Vector2::<f64>::new(1.0, 2.0);
    let b = Vector2::<f64>::new(3.0, 4.0);
    let c = a + b;
    let d = c - a;

    assert!((c.x - 4.0).abs() < 1e-9);
    assert!((c.y - 6.0).abs() < 1e-9);
    assert!((d.x - 3.0).abs() < 1e-9);
    assert!((d.y - 4.0).abs() < 1e-9);
}

#[test]
fn vector2_neg_of_floats() {
    let v = -Vector2::<f64>::new(1.25, -2.5);
    assert_eq!(v.x, -1.25);
    assert_eq!(v.y, 2.5);
    assert_eq!(v.as_tuple(), (-1.25, 2.5));
}

#[test]
fn vector2_new_and_as_tuple() {
    let v = Vector2::new(-5i64, 12i64);
    assert_eq!(v.x, -5);
    assert_eq!(v.y, 12);
    assert_eq!(v.as_tuple(), (-5, 12));
}

#[test]
fn vector2_integer_add_sub_neg() {
    let a = Vector2::<i64>::new(1, 2);
    let b = Vector2::<i64>::new(30, -40);
    assert_eq!(a + b, Vector2::new(31, -38));
    assert_eq!(a - b, Vector2::new(-29, 42));
    assert_eq!(-b, Vector2::new(-30, 40));
}

#[test]
fn vector2_zero_is_origin() {
    assert_eq!(Vector2::<i64>::zero(), Vector2::new(0, 0));
}

#[test]
fn vector2_perp_quarter_turn() {
    assert_eq!(Vector2::<i64>::new(3, 4).perp(), Vector2::new(-4, 3));
    assert_eq!(Vector2::<i64>::new(0, 0).perp(), Vector2::new(0, 0));
    assert_eq!(Vector2::<i64>::new(i64::MIN, i64::MAX).perp(), Vector2::new(-i64::MAX, i64::MIN));
}

#[test]
fn vector2_perp_four_times_is_identity() {
    let v = Vector2::<i64>::new(7, -9);
    assert_eq!(v.perp().perp().perp().perp(), v);
}

#[test]
fn vector2_rotate_quarter_turn_matches_perp() {
    let v = Vector2::<i64>::new(3, 4);
    assert_eq!(v.rotate(UNIT, 0), Some(v.perp()));
}

#[test]
fn vector2_rotate_by_zero_is_identity() {
    let v = Vector2::<i64>::new(123_456_789, -987_654_321);
    assert_eq!(v.rotate(0, UNIT), Some(v));
}

#[test]
fn vector2_rotate_thirty_degrees() {
    // One metre along x, turned by 30 degrees: (cos 30, sin 30) metres.
    let v = Vector2::<i64>::new(UNIT, 0);
    assert_eq!(v.rotate(500_000_000, 866_025_404), Some(Vector2::new(866_025_404, 500_000_000)));
}

#[test]
fn vector2_rotate_truncates_toward_zero() {
    // (-7, 2) by sin 0.6, cos 0.8: x = -5.6 - 1.2 = -6.8, y = -4.2 + 1.6 = -2.6.
    assert_eq!(
        Vector2::<i64>::new(-7, 2).rotate(600_000_000, 800_000_000),
        Some(Vector2::new(-6, -2))
    );
    assert_eq!(
        Vector2::<i64>::new(7, -2).rotate(600_000_000, 800_000_000),
        Some(Vector2::new(6, 2))
    );
}

#[test]
fn vector2_rotate_rejects_invalid_trig() {
    let v = Vector2::<i64>::new(1, 1);
    assert_eq!(v.rotate(UNIT + 1, 0), None);
    assert_eq!(v.rotate(0, UNIT + 1), None);
    assert_eq!(v.rotate(-UNIT - 1, 0), None);
    assert_eq!(v.rotate(0, -UNIT - 1), None);
    assert_eq!(v.rotate(-UNIT, -UNIT), Some(Vector2::new(0, -2)));
}

#[test]
fn vector2_rotate_unrepresentable() {
    // x*cos - y*sin = 2 * i64::MAX metres cannot be stored.
    let v = Vector2::<i64>::new(i64::MAX, i64::MIN);
    assert_eq!(v.rotate(UNIT, UNIT), None);
    assert_eq!(
        Vector2::<i64>::new(i64::MAX, 0).rotate(0, UNIT),
        Some(Vector2::new(i64::MAX, 0))
    );
}
