use breakout::geometry::{half, reflected, saturating};
use breakout::{Rect, Vec2};

fn rect(x: i64, y: i64, width: i64, height: i64) -> Rect {
    Rect { x, y, width, height }
}

#[test]
fn from_vec_takes_corner_and_size() {
    let r = Rect::from_vec(Vec2 { x: 3, y: -4 }, Vec2 { x: 50, y: 15 });
    assert_eq!(r, rect(3, -4, 50, 15));
}

#[test]
fn overlapping_rects_intersect() {
    let a = rect(0, 0, 10, 10);
    let b = rect(9, 9, 10, 10);
    assert!(a.intersects(&b));
    assert!(b.intersects(&a));
}

#[test]
fn rects_sharing_a_vertical_edge_do_not_intersect() {
    let a = rect(0, 0, 10, 10);
    let b = rect(10, 0, 10, 10);
    assert_eq!(a.x + a.width, b.x);
    assert!(!a.intersects(&b));
    assert!(!b.intersects(&a));
}

#[test]
fn rects_sharing_a_horizontal_edge_do_not_intersect() {
    let a = rect(0, 0, 10, 10);
    let b = rect(0, 10, 10, 10);
    assert!(!a.intersects(&b));
    assert!(!b.intersects(&a));
}

#[test]
fn rects_sharing_a_corner_do_not_intersect() {
    let a = rect(0, 0, 10, 10);
    let b = rect(10, 10, 10, 10);
    assert!(!a.intersects(&b));
}

#[test]
fn one_unit_of_overlap_is_enough() {
    let a = rect(0, 0, 10, 10);
    let b = rect(9, 0, 10, 10);
    assert!(a.intersects(&b));
}

#[test]
fn separate_rects_do_not_intersect() {
    let a = rect(0, 0, 10, 10);
    assert!(!a.intersects(&rect(20, 0, 10, 10)));
    assert!(!a.intersects(&rect(0, 20, 10, 10)));
    assert!(!a.intersects(&rect(-20, 0, 10, 10)));
    assert!(!a.intersects(&rect(0, -20, 10, 10)));
}

#[test]
fn contained_rect_intersects() {
    let a = rect(0, 0, 100, 100);
    let b = rect(40, 40, 5, 5);
    assert!(a.intersects(&b));
    assert!(b.intersects(&a));
}

#[test]
fn empty_rect_inside_another_intersects_it() {
    let a = rect(0, 0, 10, 10);
    let point = rect(5, 5, 0, 0);
    assert!(a.intersects(&point));
    assert!(!point.intersects(&point));
}

#[test]
fn intersects_at_the_ends_of_the_range() {
    let far = rect(i64::MAX, i64::MAX, i64::MAX, i64::MAX);
    let near = rect(i64::MAX - 1, i64::MAX - 1, 2, 2);
    assert!(far.intersects(&near));
    let low = rect(i64::MIN, i64::MIN, i64::MAX, i64::MAX);
    assert!(!low.intersects(&far));
    assert!(low.intersects(&rect(i64::MIN, i64::MIN, 1, 1)));
}

#[test]
fn saturating_keeps_what_fits() {
    assert_eq!(saturating(0), 0);
    assert_eq!(saturating(-17), -17);
    assert_eq!(saturating(i64::MAX as i128), i64::MAX);
    assert_eq!(saturating(i64::MIN as i128), i64::MIN);
}

#[test]
fn saturating_stops_at_the_ends() {
    assert_eq!(saturating(i64::MAX as i128 + 1), i64::MAX);
    assert_eq!(saturating(i64::MIN as i128 - 1), i64::MIN);
    assert_eq!(saturating(i128::MAX), i64::MAX);
    assert_eq!(saturating(i128::MIN), i64::MIN);
}

#[test]
fn reflected_changes_the_sign() {
    assert_eq!(reflected(500), -500);
    assert_eq!(reflected(-500), 500);
    assert_eq!(reflected(0), 0);
    assert_eq!(reflected(i64::MAX), -i64::MAX);
}

#[test]
fn reflected_smallest_speed_is_the_largest() {
    assert_eq!(reflected(i64::MIN), i64::MAX);
}

#[test]
fn reflected_twice_is_the_speed_itself() {
    for v in [1, -1, 500, -500, i64::MAX, i64::MIN + 1] {
        assert_eq!(reflected(reflected(v)), v);
    }
}

#[test]
fn half_rounds_down() {
    assert_eq!(half(10), 5);
    assert_eq!(half(11), 5);
    assert_eq!(half(0), 0);
    assert_eq!(half(-10), -5);
    assert_eq!(half(-11), -6);
    assert_eq!(half(-1), -1);
    assert_eq!(half(i64::MAX), i64::MAX / 2);
    assert_eq!(half(i64::MIN), i64::MIN / 2);
}
