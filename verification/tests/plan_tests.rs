use winmove::errors::PlanError;
use winmove::geometry::{ScreenInsets, ScreenPoint, ScreenRect, ScreenSize};
use winmove::percent::{Fraction, PercentPoint, PercentRect, PercentSize};
use winmove::plan::{
    containing_inset_frame, insets_from_values, plan_absolute, plan_directional, WindowFrame,
};
use winmove::registry::DisplayFrame;
use winmove::select::Direction;
use winmove::strut::StrutSpec;

fn rect(x: i64, y: i64, w: i64, h: i64) -> ScreenRect {
    ScreenRect::new(ScreenPoint::new(x, y), ScreenSize::new(w, h))
}

fn display(x: i64, y: i64, w: i64, h: i64) -> DisplayFrame {
    DisplayFrame { rect: rect(x, y, w, h), inset_by_struts: false }
}

fn top_strut(top: i64, start_x: i64, end_x: i64) -> StrutSpec {
    StrutSpec {
        left: 0,
        right: 0,
        top,
        bottom: 0,
        left_start_y: 0,
        left_end_y: 0,
        right_start_y: 0,
        right_end_y: 0,
        top_start_x: start_x,
        top_end_x: end_x,
        bottom_start_x: 0,
        bottom_end_x: 0,
    }
}

#[test]
fn directional_move_carries_the_window_across_displays() {
    // Decorated frame (100,100) 800x600 on the left display, insets
    // of a 30px titlebar; moving east onto an identical display must
    // request the bare content rect (2020,130) 800x570.
    let window = WindowFrame {
        content: rect(100, 130, 800, 570),
        insets: ScreenInsets::new(30, 0, 0, 0),
    };
    let displays = vec![display(0, 0, 1920, 1080), display(1920, 0, 1920, 1080)];
    let target = plan_directional(&window, &displays, &vec![], Direction::East).unwrap();
    assert_eq!(target, rect(2020, 130, 800, 570));
}

#[test]
fn directional_move_respects_struts_on_both_displays() {
    // A 30px panel on the left display only (its span is not
    // contained in the right display, so it does not shrink it): the
    // window fills the top half of the left usable area, so it lands
    // as the top half of the right display's full area.
    let window = WindowFrame { content: rect(0, 30, 960, 525), insets: ScreenInsets::zero() };
    let displays = vec![display(0, 0, 1920, 1080), display(1920, 0, 1920, 1080)];
    let struts = vec![top_strut(30, 0, 1920)];
    let target = plan_directional(&window, &displays, &struts, Direction::East).unwrap();
    assert_eq!(target, rect(1920, 0, 960, 540));
}

#[test]
fn directional_move_with_no_containing_display_errors() {
    let window = WindowFrame { content: rect(9000, 9000, 10, 10), insets: ScreenInsets::zero() };
    let displays = vec![display(0, 0, 1920, 1080)];
    assert_eq!(
        plan_directional(&window, &displays, &vec![], Direction::East).unwrap_err(),
        PlanError::NoContainingDisplay
    );
}

#[test]
fn directional_move_with_no_neighbor_errors() {
    let window = WindowFrame { content: rect(100, 100, 800, 600), insets: ScreenInsets::zero() };
    let displays = vec![display(0, 0, 1920, 1080)];
    assert_eq!(
        plan_directional(&window, &displays, &vec![], Direction::East).unwrap_err(),
        PlanError::NoDisplayInDirection
    );
}

#[test]
fn absolute_placement_maps_percentages_onto_the_inset_frame() {
    // Right half of the display, with a 30px titlebar: the decorated
    // frame is the right half, the content rect is requested.
    let pct = PercentRect {
        origin: PercentPoint { x: Fraction::new(1, 2), y: Fraction::new(0, 1) },
        size: PercentSize { width: Fraction::new(1, 2), height: Fraction::new(1, 1) },
    };
    let usable = DisplayFrame { rect: rect(0, 0, 1920, 1080), inset_by_struts: true };
    let insets = ScreenInsets::new(30, 0, 0, 0);
    let target = plan_absolute(&pct, &usable, &insets);
    assert_eq!(target, rect(960, 30, 960, 1050));
}

#[test]
fn containing_inset_frame_returns_the_shrunk_current_display() {
    let displays = vec![display(0, 0, 1920, 1080), display(1920, 0, 1920, 1080)];
    let struts = vec![top_strut(30, 0, 1920)];
    let window = rect(100, 100, 800, 600);
    let usable = containing_inset_frame(&window, &displays, &struts).unwrap();
    assert_eq!(usable.rect, rect(0, 30, 1920, 1050));
    assert!(usable.inset_by_struts);
    assert_eq!(
        containing_inset_frame(&rect(9000, 0, 10, 10), &displays, &struts).unwrap_err(),
        PlanError::NoContainingDisplay
    );
}

#[test]
fn fetch_and_sink_error_kinds_are_distinct() {
    let fetch = PlanError::Fetch(winmove::cache::FetchError);
    assert_ne!(fetch, PlanError::UnsupportedBySink);
    assert_ne!(fetch, PlanError::NoContainingDisplay);
    assert!(matches!(fetch, PlanError::Fetch(_)));
}

#[test]
fn insets_decode_from_left_right_top_bottom_order() {
    let insets = insets_from_values(&vec![4, 2, 30, 3]);
    assert_eq!(insets, ScreenInsets::new(30, 2, 3, 4));
    // Absent or malformed declarations mean no decorations.
    assert_eq!(insets_from_values(&vec![]), ScreenInsets::zero());
    assert_eq!(insets_from_values(&vec![1, 2, 3]), ScreenInsets::zero());
    assert_eq!(insets_from_values(&vec![1, 2, 3, -4]), ScreenInsets::zero());
}
