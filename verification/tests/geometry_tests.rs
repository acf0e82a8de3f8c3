use winmove::geometry::{ScreenInsets, ScreenPoint, ScreenRect, ScreenSize};

fn rect(x: i64, y: i64, w: i64, h: i64) -> ScreenRect {
    ScreenRect::new(ScreenPoint::new(x, y), ScreenSize::new(w, h))
}

#[test]
fn intersection_is_commutative_and_bounded() {
    let a = rect(0, 0, 1920, 1080);
    let b = rect(1000, 500, 1920, 1080);
    let ab = a.intersection(&b).unwrap();
    let ba = b.intersection(&a).unwrap();
    assert_eq!(ab, ba);
    assert_eq!(ab, rect(1000, 500, 920, 580));
    assert!(ab.area() <= a.area());
    assert!(ab.area() <= b.area());
}

#[test]
fn intersection_of_disjoint_rects_is_none() {
    let a = rect(0, 0, 100, 100);
    let b = rect(200, 200, 50, 50);
    assert!(a.intersection(&b).is_none());
    assert!(b.intersection(&a).is_none());
}

#[test]
fn touching_edges_do_not_intersect() {
    // Zero overlap on the x axis: a shared edge is not an
    // intersection, not a degenerate zero-area rectangle.
    let a = rect(0, 0, 100, 100);
    let b = rect(100, 0, 100, 100);
    assert!(a.intersection(&b).is_none());
}

#[test]
fn area_of_rect() {
    assert_eq!(rect(5, 7, 1920, 1080).area(), 1920 * 1080);
    assert_eq!(rect(5, 7, 0, 1080).area(), 0);
}

#[test]
fn center_of_rect() {
    let c = rect(100, 200, 300, 401).center();
    assert_eq!(c, ScreenPoint::new(250, 400));
}

#[test]
fn translate_moves_origin_only() {
    let r = rect(10, 20, 30, 40).translate(-15, 5);
    assert_eq!(r, rect(-5, 25, 30, 40));
}

#[test]
fn inner_and_outer_rect_invert_each_other() {
    let insets = ScreenInsets::new(30, 2, 3, 4);
    let r = rect(100, 100, 800, 600);
    let outer = r.outer_rect(insets);
    assert_eq!(outer, rect(96, 70, 806, 633));
    assert_eq!(outer.inner_rect(insets), r);
}

#[test]
fn zero_insets_change_nothing() {
    let r = rect(1, 2, 3, 4);
    assert_eq!(r.inner_rect(ScreenInsets::zero()), r);
    assert_eq!(r.outer_rect(ScreenInsets::zero()), r);
}
