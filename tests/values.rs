use smufl::{Coord, StaffSpaces};

fn ss(v: f64) -> StaffSpaces {
    StaffSpaces(v.to_bits())
}

#[test]
fn x() {
    assert_eq!(Coord(ss(1.0), ss(2.0)).x(), ss(1.0));
}

#[test]
fn y() {
    assert_eq!(Coord(ss(1.0), ss(2.0)).y(), ss(2.0));
}

#[test]
fn zero() {
    assert_eq!(StaffSpaces::zero(), ss(0.0));
}

#[test]
fn abs() {
    assert_eq!(ss(0.0).abs(), ss(0.0));
    assert_eq!(ss(1.0).abs(), ss(1.0));
    assert_eq!(ss(-1.0).abs(), ss(1.0));
    assert_eq!(ss(-0.0).abs(), ss(0.0));
    assert_eq!(ss(-2.5).abs(), ss(2.5));
}
