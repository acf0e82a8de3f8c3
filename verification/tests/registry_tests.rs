use winmove::cache::FetchError;
use winmove::geometry::{ScreenPoint, ScreenRect, ScreenSize};
use winmove::registry::{
    ConnectionState, CrtcGeometry, FixedOutputProvider, OutputEntry, OutputInfo, OutputProvider,
    Registry, ScreenLayoutable,
};
use winmove::registry::DisplayFrame;

fn rect(x: i64, y: i64, w: i64, h: i64) -> ScreenRect {
    ScreenRect::new(ScreenPoint::new(x, y), ScreenSize::new(w, h))
}

fn sample_provider() -> FixedOutputProvider {
    FixedOutputProvider {
        // Output 1 is healthy, 2 is disconnected, 3 has no metadata,
        // 4 is connected but its CRTC cannot be queried.
        outputs: vec![1, 2, 3, 4],
        infos: vec![
            (1, OutputInfo { state: ConnectionState::Connected, crtc: 10 }),
            (2, OutputInfo { state: ConnectionState::Disconnected, crtc: 20 }),
            (4, OutputInfo { state: ConnectionState::Connected, crtc: 40 }),
        ],
        crtcs: vec![(10, CrtcGeometry { x: 0, y: 0, width: 1920, height: 1080 })],
    }
}

/// A transport whose every query fails, as when the display server
/// connection has gone away.
struct FailingProvider;

impl OutputProvider for FailingProvider {
    fn list_outputs(&self) -> Result<Vec<u32>, FetchError> {
        Err(FetchError)
    }

    fn output_info(&self, _output: u32) -> Result<OutputInfo, FetchError> {
        Err(FetchError)
    }

    fn crtc_geometry(&self, _crtc: u32) -> Result<CrtcGeometry, FetchError> {
        Err(FetchError)
    }
}

#[test]
fn listing_excludes_every_kind_of_bad_output() {
    let provider = sample_provider();
    let mut registry = Registry::from_provider(&provider).unwrap();
    let frames = registry.connected_display_frames(&provider);
    assert_eq!(frames.len(), 1);
    assert_eq!(frames[0].rect, rect(0, 0, 1920, 1080));
    assert!(!frames[0].inset_by_struts);
}

#[test]
fn a_second_listing_returns_the_same_frames() {
    let provider = sample_provider();
    let mut registry = Registry::from_provider(&provider).unwrap();
    let first = registry.connected_display_frames(&provider);
    let second = registry.connected_display_frames(&provider);
    assert_eq!(first, second);
}

#[test]
fn retained_frames_are_listed_even_through_a_dead_transport() {
    // After one successful listing the healthy output's stages hold
    // successes; a later listing must still carry its frame even when
    // every fresh query fails.
    let provider = sample_provider();
    let mut registry = Registry::from_provider(&provider).unwrap();
    let first = registry.connected_display_frames(&provider);
    let second = registry.connected_display_frames(&FailingProvider);
    assert_eq!(first, second);
    assert_eq!(second.len(), 1);
    assert_eq!(second[0].rect, rect(0, 0, 1920, 1080));
}

#[test]
fn from_provider_fails_when_the_listing_cannot_be_fetched() {
    assert!(Registry::from_provider(&FailingProvider).is_err());
}

#[test]
fn entry_chain_retries_only_the_failing_stage_and_keeps_success() {
    let mut entry = OutputEntry::new(1);

    // No metadata at all: the first stage fails and the error is the
    // access's result.
    assert_eq!(entry.get_frame(&FailingProvider), Err(FetchError));

    // Metadata appears, but the CRTC still cannot be queried: the
    // metadata stage succeeds and is retained, the chain still fails.
    let without_crtc = FixedOutputProvider {
        outputs: vec![1],
        infos: vec![(1, OutputInfo { state: ConnectionState::Connected, crtc: 10 })],
        crtcs: vec![],
    };
    assert_eq!(entry.get_frame(&without_crtc), Err(FetchError));

    // The CRTC answers: the remaining stages fill in.
    let complete = FixedOutputProvider {
        outputs: vec![1],
        infos: vec![(1, OutputInfo { state: ConnectionState::Connected, crtc: 10 })],
        crtcs: vec![(10, CrtcGeometry { x: 1920, y: 0, width: 1920, height: 1080 })],
    };
    assert_eq!(entry.get_frame(&complete), Ok(rect(1920, 0, 1920, 1080)));

    // Once every stage holds a success, even a dead transport cannot
    // disturb the retained frame: nothing is refetched.
    assert_eq!(entry.get_frame(&FailingProvider), Ok(rect(1920, 0, 1920, 1080)));
}

#[test]
fn negative_crtc_positions_are_preserved() {
    let provider = FixedOutputProvider {
        outputs: vec![1],
        infos: vec![(1, OutputInfo { state: ConnectionState::Connected, crtc: 10 })],
        crtcs: vec![(10, CrtcGeometry { x: -1920, y: -32, width: 1920, height: 1080 })],
    };
    let mut entry = OutputEntry::new(1);
    assert_eq!(entry.get_frame(&provider), Ok(rect(-1920, -32, 1920, 1080)));
}

#[test]
fn screen_layoutable_reads_and_moves_a_display_frame() {
    let mut frame = DisplayFrame { rect: rect(0, 0, 100, 100), inset_by_struts: true };
    assert_eq!(frame.get_screen_box(), rect(0, 0, 100, 100));
    frame.set_screen_box(rect(5, 5, 50, 50));
    assert_eq!(frame.rect, rect(5, 5, 50, 50));
    assert!(!frame.inset_by_struts);
}
