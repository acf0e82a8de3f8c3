use winmove::geometry::{ScreenPoint, ScreenRect, ScreenSize};
use winmove::registry::DisplayFrame;
use winmove::strut::{apply_strut, apply_struts, StrutSpec};

fn rect(x: i64, y: i64, w: i64, h: i64) -> ScreenRect {
    ScreenRect::new(ScreenPoint::new(x, y), ScreenSize::new(w, h))
}

fn display(x: i64, y: i64, w: i64, h: i64) -> DisplayFrame {
    DisplayFrame { rect: rect(x, y, w, h), inset_by_struts: false }
}

fn top_strut(top: i64, start_x: i64, end_x: i64) -> StrutSpec {
    StrutSpec {
        left: 0,
        right: 0,
        top,
        bottom: 0,
        left_start_y: 0,
        left_end_y: 0,
        right_start_y: 0,
        right_end_y: 0,
        top_start_x: start_x,
        top_end_x: end_x,
        bottom_start_x: 0,
        bottom_end_x: 0,
    }
}

#[test]
fn full_span_top_strut_shrinks_the_frame() {
    let out = apply_struts(&display(0, 0, 1920, 1080), &vec![top_strut(30, 0, 1920)]);
    assert_eq!(out.rect, rect(0, 30, 1920, 1050));
    assert!(out.inset_by_struts);
}

#[test]
fn partial_span_top_strut_is_ignored() {
    // The declared span sticks out past the frame's right edge, so it
    // only partially overlaps the frame: the reservation belongs to a
    // neighboring display and is ignored entirely for this one.
    let out = apply_struts(&display(0, 0, 1920, 1080), &vec![top_strut(30, 1800, 2000)]);
    assert_eq!(out.rect, rect(0, 0, 1920, 1080));
    assert!(out.inset_by_struts);
}

#[test]
fn contained_span_top_strut_applies_even_when_narrow() {
    // A span fully contained in the frame applies, however narrow.
    let out = apply_struts(&display(0, 0, 1920, 1080), &vec![top_strut(30, 0, 100)]);
    assert_eq!(out.rect, rect(0, 30, 1920, 1050));
}

#[test]
fn strut_outside_the_frame_is_ignored() {
    // A panel on the display left of this one: its top edge at y=30
    // is inside, but its span 0..1920 is not contained in 1920..3840.
    let out = apply_struts(&display(1920, 0, 1920, 1080), &vec![top_strut(30, 0, 1920)]);
    assert_eq!(out.rect, rect(1920, 0, 1920, 1080));
}

#[test]
fn struts_compose_by_sequential_shrink() {
    let bottom_dock = StrutSpec {
        left: 0,
        right: 0,
        top: 0,
        bottom: 1030,
        left_start_y: 0,
        left_end_y: 0,
        right_start_y: 0,
        right_end_y: 0,
        top_start_x: 0,
        top_end_x: 0,
        bottom_start_x: 0,
        bottom_end_x: 1920,
    };
    let out = apply_struts(
        &display(0, 0, 1920, 1080),
        &vec![top_strut(30, 0, 1920), bottom_dock],
    );
    assert_eq!(out.rect, rect(0, 30, 1920, 1000));
}

#[test]
fn two_top_struts_accumulate() {
    // The second panel is evaluated against the already-shrunk frame.
    let out = apply_struts(
        &display(0, 0, 1920, 1080),
        &vec![top_strut(30, 0, 1920), top_strut(50, 0, 1920)],
    );
    assert_eq!(out.rect, rect(0, 50, 1920, 1030));
}

#[test]
fn left_and_right_struts_shrink_horizontally() {
    let s = StrutSpec {
        left: 40,
        right: 1900,
        top: 0,
        bottom: 0,
        left_start_y: 0,
        left_end_y: 1080,
        right_start_y: 0,
        right_end_y: 1080,
        top_start_x: 0,
        top_end_x: 0,
        bottom_start_x: 0,
        bottom_end_x: 0,
    };
    let out = apply_strut(&rect(0, 0, 1920, 1080), &s);
    assert_eq!(out, rect(40, 0, 1860, 1080));
}

#[test]
fn from_values_accepts_exactly_twelve_in_range_values() {
    let values: Vec<i64> = vec![0, 0, 30, 0, 0, 0, 0, 0, 0, 1920, 0, 0];
    let s = StrutSpec::from_values(&values).unwrap();
    assert_eq!(s, top_strut(30, 0, 1920));
}

#[test]
fn from_values_rejects_wrong_length_or_range() {
    assert!(StrutSpec::from_values(&vec![]).is_none());
    assert!(StrutSpec::from_values(&vec![0, 0, 30]).is_none());
    let negative: Vec<i64> = vec![0, 0, -1, 0, 0, 0, 0, 0, 0, 1920, 0, 0];
    assert!(StrutSpec::from_values(&negative).is_none());
    let huge: Vec<i64> = vec![0, 0, 0x1_0000_0000, 0, 0, 0, 0, 0, 0, 1920, 0, 0];
    assert!(StrutSpec::from_values(&huge).is_none());
}
