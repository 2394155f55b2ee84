use simple_game::common::{
    c_destroy_entites_without_match, cs_restrict_players_to_bounds, s_update_and_destroy_lifetimes, Bounds, DestroyIfNoMatchWithin,
    Lifetime, MatchOutcome, Position, Vec2,
};
use simple_game::float::{minus_one, one, zero, Float};

fn f(x: f32) -> Float {
    Float::new(x.to_bits())
}

#[test]
fn comparisons_agree_with_f32() {
    let values = [
        0.0f32, -0.0, 1.0, -1.0, 0.5, -0.5, 2.0, 1e-40, -1e-40, 3.0e38, -3.0e38,
        f32::INFINITY, f32::NEG_INFINITY, f32::NAN, -f32::NAN, f32::MIN_POSITIVE, f32::MAX, f32::MIN,
    ];
    for a in values {
        for b in values {
            assert_eq!(f(a).less_than(&f(b)), a < b, "{a} < {b}");
            assert_eq!(f(a).less_or_equal(&f(b)), a <= b, "{a} <= {b}");
            assert_eq!(f(a).equals(&f(b)), a == b, "{a} == {b}");
        }
        assert_eq!(f(a).neg().bits, (-a).to_bits());
        assert_eq!(f(a).is_nan(), a.is_nan());
        assert_eq!(f(a).is_sign_negative(), a.is_sign_negative());
    }
}

#[test]
fn constants() {
    assert_eq!(zero().bits, 0.0f32.to_bits());
    assert_eq!(one().bits, 1.0f32.to_bits());
    assert_eq!(minus_one().bits, (-1.0f32).to_bits());
}

#[test]
fn lifetimes_and_match_waits() {
    let t = |x: f32| Float::new(x.to_bits());
    assert!(!s_update_and_destroy_lifetimes(&Lifetime(t(0.1))));
    assert!(s_update_and_destroy_lifetimes(&Lifetime(t(0.0))));
    assert!(s_update_and_destroy_lifetimes(&Lifetime(t(-0.0))));
    assert!(s_update_and_destroy_lifetimes(&Lifetime(t(-1.0))));
    assert!(s_update_and_destroy_lifetimes(&Lifetime(t(f32::NAN))));
    let wait = |x: f32| DestroyIfNoMatchWithin { remaining_time: t(x) };
    assert_eq!(c_destroy_entites_without_match(&wait(-1.0), true), MatchOutcome::Matched);
    assert_eq!(c_destroy_entites_without_match(&wait(0.0), false), MatchOutcome::Expired);
    assert_eq!(c_destroy_entites_without_match(&wait(0.05), false), MatchOutcome::Waiting);
    assert_eq!(c_destroy_entites_without_match(&wait(f32::NAN), false), MatchOutcome::Waiting);
    assert_eq!(DestroyIfNoMatchWithin::default().remaining_time.bits, 0.15f32.to_bits());
}

#[test]
fn max_and_min_ignore_nan() {
    let cases = [(1.0f32, 2.0f32), (-3.0, 0.5), (f32::NAN, 4.0), (4.0, f32::NAN), (f32::INFINITY, 1.0), (-0.0, -1.0)];
    for (a, b) in cases {
        assert_eq!(f(a).max(&f(b)).bits, a.max(b).to_bits(), "max of {a} and {b}");
        assert_eq!(f(a).min(&f(b)).bits, a.min(b).to_bits(), "min of {a} and {b}");
    }
    assert!(f(f32::NAN).max(&f(f32::NAN)).is_nan());
}

#[test]
fn players_stay_inside_the_bounds() {
    let bounds = Bounds { min: Vec2 { x: f(-100.0), y: f(-50.0) }, max: Vec2 { x: f(100.0), y: f(50.0) } };
    let mut p = Position(Vec2 { x: f(150.0), y: f(-70.0) });
    cs_restrict_players_to_bounds(&mut p, &bounds);
    assert_eq!((p.0.x.bits, p.0.y.bits), (100.0f32.to_bits(), (-50.0f32).to_bits()));
    let mut inside = Position(Vec2 { x: f(3.0), y: f(-4.0) });
    cs_restrict_players_to_bounds(&mut inside, &bounds);
    assert_eq!((inside.0.x.bits, inside.0.y.bits), (3.0f32.to_bits(), (-4.0f32).to_bits()));
    let mut lost = Position(Vec2 { x: f(f32::NAN), y: f(0.0) });
    cs_restrict_players_to_bounds(&mut lost, &bounds);
    assert_eq!(lost.0.x.bits, (-100.0f32).to_bits());
}
