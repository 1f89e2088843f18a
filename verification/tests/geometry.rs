use physics_game::geometry::{saturating_sub, Pose, Vector2, UNIT};

#[test]
fn one_unit_is_a_thousand_thousandths() {
    assert_eq!(UNIT, 1000);
}

#[test]
fn vector_constructors_keep_their_arguments() {
    assert_eq!(Vector2::new(3, -4), Vector2 { x: 3, y: -4 });
    assert_eq!(Vector2::zero(), Vector2 { x: 0, y: 0 });
}

#[test]
fn a_translation_is_not_rotated() {
    assert_eq!(
        Pose::translation(50_000, 200_000),
        Pose { translation: Vector2 { x: 50_000, y: 200_000 }, rotation: 0 }
    );
}

#[test]
fn saturating_sub_is_plain_subtraction_in_range() {
    assert_eq!(saturating_sub(50_000, 15_000), 35_000);
    assert_eq!(saturating_sub(-5, 10), -15);
    assert_eq!(saturating_sub(0, i64::MAX), -i64::MAX);
    assert_eq!(saturating_sub(-1, i64::MIN), i64::MAX);
}

#[test]
fn saturating_sub_stops_at_the_ends_of_the_range() {
    assert_eq!(saturating_sub(i64::MIN, 1), i64::MIN);
    assert_eq!(saturating_sub(i64::MIN + 14_999, 15_000), i64::MIN);
    assert_eq!(saturating_sub(i64::MIN + 15_000, 15_000), i64::MIN);
    assert_eq!(saturating_sub(i64::MIN + 15_001, 15_000), i64::MIN + 1);
    assert_eq!(saturating_sub(i64::MAX, -1), i64::MAX);
    assert_eq!(saturating_sub(0, i64::MIN), i64::MAX);
}
