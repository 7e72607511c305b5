use dodge_the_creeps::geom::isqrt;
use dodge_the_creeps::geom::Vec2;

#[test]
fn isqrt_exact_squares() {
    assert_eq!(isqrt(0), 0);
    assert_eq!(isqrt(1), 1);
    assert_eq!(isqrt(4), 2);
    assert_eq!(isqrt(1_000_000), 1000);
    assert_eq!(isqrt(4_000_000), 2000);
}

#[test]
fn isqrt_rounds_down() {
    assert_eq!(isqrt(2), 1);
    assert_eq!(isqrt(3), 1);
    assert_eq!(isqrt(8), 2);
    assert_eq!(isqrt(2_000_000), 1414);
    assert_eq!(isqrt(3_999_999), 1999);
}

#[test]
fn clamp_inside_box_is_identity() {
    let v = Vec2::new(10, 20);
    let r = v.clamp(Vec2::zero(), Vec2::new(480, 720));
    assert_eq!(r, Vec2::new(10, 20));
}

#[test]
fn clamp_cuts_each_component() {
    let lo = Vec2::zero();
    let hi = Vec2::new(480, 720);
    assert_eq!(Vec2::new(-5, 100).clamp(lo, hi), Vec2::new(0, 100));
    assert_eq!(Vec2::new(500, -1).clamp(lo, hi), Vec2::new(480, 0));
    assert_eq!(Vec2::new(481, 721).clamp(lo, hi), Vec2::new(480, 720));
}
