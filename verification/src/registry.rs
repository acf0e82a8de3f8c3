//! The display registry: resolves the set of outputs the display
//! server reports into absolute-pixel display frames. Each output's
//! metadata, CRTC geometry and derived frame are fetched lazily
//! through stale-tolerant cache cells, so a stage that failed is
//! retried on the next access while a stage that succeeded is never
//! fetched again. Outputs that are disconnected, or whose fetches
//! fail, are silently excluded from the listing: one bad output never
//! aborts the whole listing.
use vstd::prelude::*;

use crate::cache::{FetchError, StaleTolerantCache};
use crate::geometry::{ScreenPoint, ScreenRect, ScreenSize};

verus! {

/// The display server's identifier for one output.
pub type OutputHandle = u32;

/// The display server's identifier for one CRTC, the hardware path
/// that produces an output's pixels.
pub type CrtcHandle = u32;

/// Whether an output currently drives a monitor.
#[derive(Clone, Copy, PartialEq, Eq, Structural, Debug)]
pub enum ConnectionState {
    Connected,
    Disconnected,
}

/// Identity metadata of one output: its connection state and the
/// CRTC that produces its pixels.
#[derive(Clone, Copy, PartialEq, Eq, Structural, Debug)]
pub struct OutputInfo {
    pub state: ConnectionState,
    pub crtc: CrtcHandle,
}

/// Raw CRTC geometry in the value ranges the display server uses:
/// a signed 16-bit position and an unsigned 16-bit extent.
#[derive(Clone, Copy, PartialEq, Eq, Structural, Debug)]
pub struct CrtcGeometry {
    pub x: i16,
    pub y: i16,
    pub width: u16,
    pub height: u16,
}

/// One display's absolute pixel frame, together with whether strut
/// reservations have already been subtracted from it. Owned by the
/// registry for the duration of one planning operation.
#[derive(Clone, Copy, PartialEq, Eq, Structural, Debug)]
pub struct DisplayFrame {
    pub rect: ScreenRect,
    pub inset_by_struts: bool,
}

impl DisplayFrame {
    pub open spec fn wf(self) -> bool {
        self.rect.wf()
    }
}

/// Something that occupies an absolute rectangle on the desktop and
/// can be moved to another one.
pub trait ScreenLayoutable {
    /// The rectangle currently occupied.
    spec fn screen_box_spec(&self) -> ScreenRect;

    /// Reads the occupied rectangle.
    fn get_screen_box(&self) -> (r: ScreenRect)
        ensures
            r == self.screen_box_spec(),
    ;

    /// Moves the occupant to a new rectangle.
    fn set_screen_box(&mut self, new: ScreenRect)
        ensures
            final(self).screen_box_spec() == new,
    ;
}

impl ScreenLayoutable for DisplayFrame {
    open spec fn screen_box_spec(&self) -> ScreenRect {
        self.rect
    }

    fn get_screen_box(&self) -> (r: ScreenRect) {
        self.rect
    }

    /// Replacing the frame's rectangle forgets any strut insetting
    /// already applied: the new rectangle's provenance is unknown.
    fn set_screen_box(&mut self, new: ScreenRect) {
        self.rect = new;
        self.inset_by_struts = false;
    }
}

/// The absolute pixel rectangle a CRTC's raw geometry denotes.
pub open spec fn crtc_rect_spec(geometry: CrtcGeometry) -> ScreenRect {
    ScreenRect {
        origin: ScreenPoint { x: geometry.x as i64, y: geometry.y as i64 },
        size: ScreenSize { width: geometry.width as i64, height: geometry.height as i64 },
    }
}

/// Converts raw CRTC geometry to an absolute frame. Well-formedness
/// comes for free from the 16-bit value ranges.
pub fn crtc_rect(geometry: &CrtcGeometry) -> (r: ScreenRect)
    ensures
        r == crtc_rect_spec(*geometry),
        r.wf(),
{
    ScreenRect {
        origin: ScreenPoint { x: geometry.x as i64, y: geometry.y as i64 },
        size: ScreenSize { width: geometry.width as i64, height: geometry.height as i64 },
    }
}

/// The queries the display-server transport answers for the registry.
/// Implementations perform one remote call per method; any call may
/// fail independently, and two calls with the same argument may
/// answer differently (an output may connect or move between calls),
/// so nothing is promised of the results.
pub trait OutputProvider {
    /// The outputs the server currently reports.
    fn list_outputs(&self) -> Result<Vec<OutputHandle>, FetchError>;

    /// Identity metadata for one output.
    fn output_info(&self, output: OutputHandle) -> Result<OutputInfo, FetchError>;

    /// Geometry of one CRTC.
    fn crtc_geometry(&self, crtc: CrtcHandle) -> Result<CrtcGeometry, FetchError>;
}

/// One output's registry entry: its handle and the three dependent
/// cache stages — identity metadata, CRTC geometry, pixel frame.
/// A stage that failed leaves the later stages untouched ("no value
/// yet"), so a later access retries from the failing stage onward.
#[derive(Clone, Copy)]
pub struct OutputEntry {
    handle: OutputHandle,
    info: StaleTolerantCache<OutputInfo>,
    crtc: StaleTolerantCache<CrtcGeometry>,
    frame: StaleTolerantCache<ScreenRect>,
}

impl OutputEntry {
    pub closed spec fn handle_spec(self) -> OutputHandle {
        self.handle
    }

    pub closed spec fn info_entry(self) -> Option<Result<OutputInfo, FetchError>> {
        self.info.entry()
    }

    pub closed spec fn crtc_entry(self) -> Option<Result<CrtcGeometry, FetchError>> {
        self.crtc.entry()
    }

    pub closed spec fn frame_entry(self) -> Option<Result<ScreenRect, FetchError>> {
        self.frame.entry()
    }

    /// Whether the metadata stage holds a success that reports the
    /// output connected.
    pub open spec fn is_connected(self) -> bool {
        match self.info_entry() {
            Some(Ok(info)) => info.state is Connected,
            _ => false,
        }
    }

    /// Internal invariant: the frame stage only ever stores frames
    /// derived from raw 16-bit CRTC geometry, so any retained frame
    /// is well formed.
    pub open spec fn wf(self) -> bool {
        match self.frame_entry() {
            Some(Ok(v)) => v.wf(),
            _ => true,
        }
    }

    /// A fresh entry with all three stages unfetched.
    pub fn new(handle: OutputHandle) -> (r: OutputEntry)
        ensures
            r.handle_spec() == handle,
            r.info_entry() is None,
            r.crtc_entry() is None,
            r.frame_entry() is None,
            r.wf(),
    {
        OutputEntry {
            handle,
            info: StaleTolerantCache::empty(),
            crtc: StaleTolerantCache::empty(),
            frame: StaleTolerantCache::empty(),
        }
    }

    /// The output's identity metadata: cached on success, refetched
    /// while absent or failing. The later stages are never touched.
    pub fn get_info<P: OutputProvider>(&mut self, provider: &P) -> (r: Result<
        OutputInfo,
        FetchError,
    >)
        ensures
            final(self).handle_spec() == old(self).handle_spec(),
            final(self).crtc_entry() == old(self).crtc_entry(),
            final(self).frame_entry() == old(self).frame_entry(),
            final(self).info_entry() == Some(r),
            old(self).wf() ==> final(self).wf(),
            old(self).info_entry() matches Some(Ok(v)) ==> *final(self) == *old(self) && r
                == Ok::<OutputInfo, FetchError>(v),
    {
        let handle = self.handle;
        self.info.get_or_fetch(|| provider.output_info(handle))
    }

    /// The output's CRTC geometry, fetched through the metadata
    /// stage: while this stage holds no success, a fresh access asks
    /// the metadata stage first and, only if that succeeds, fetches
    /// the geometry of the CRTC it names. A metadata failure
    /// propagates as the result without poisoning this stage, and a
    /// failed access never installs a new success, so the next access
    /// retries.
    pub fn get_crtc<P: OutputProvider>(&mut self, provider: &P) -> (r: Result<
        CrtcGeometry,
        FetchError,
    >)
        ensures
            final(self).handle_spec() == old(self).handle_spec(),
            final(self).frame_entry() == old(self).frame_entry(),
            old(self).wf() ==> final(self).wf(),
            old(self).info_entry() matches Some(Ok(v)) ==> final(self).info_entry() == old(
                self,
            ).info_entry(),
            old(self).crtc_entry() matches Some(Ok(v)) ==> *final(self) == *old(self) && r
                == Ok::<CrtcGeometry, FetchError>(v),
            r matches Ok(v) ==> final(self).crtc_entry() == Some(Ok::<
                CrtcGeometry,
                FetchError,
            >(v)),
            r is Err ==> final(self).crtc_entry() == old(self).crtc_entry()
                || final(self).crtc_entry() == Some(r),
    {
        match self.crtc.cached() {
            Some(Ok(geometry)) => Ok(geometry),
            _ => match self.get_info(provider) {
                Err(e) => Err(e),
                Ok(info) => self.crtc.get_or_fetch(|| provider.crtc_geometry(info.crtc)),
            },
        }
    }

    /// The output's absolute pixel frame, derived from the CRTC
    /// stage: a frame obtained fresh is exactly the rectangle of the
    /// geometry the CRTC stage retains. Every frame this returns is
    /// well formed, and a failed access never installs a new success,
    /// so the next access retries.
    pub fn get_frame<P: OutputProvider>(&mut self, provider: &P) -> (r: Result<
        ScreenRect,
        FetchError,
    >)
        requires
            old(self).wf(),
        ensures
            final(self).wf(),
            final(self).handle_spec() == old(self).handle_spec(),
            old(self).info_entry() matches Some(Ok(v)) ==> final(self).info_entry() == old(
                self,
            ).info_entry(),
            old(self).frame_entry() matches Some(Ok(v)) ==> *final(self) == *old(self) && r
                == Ok::<ScreenRect, FetchError>(v),
            r matches Ok(v) ==> final(self).frame_entry() == Some(Ok::<ScreenRect, FetchError>(v))
                && v.wf(),
            r is Err ==> final(self).frame_entry() == old(self).frame_entry()
                || final(self).frame_entry() == Some(r),
            !(old(self).frame_entry() matches Some(Ok(_))) ==> (r matches Ok(v) ==> (
            final(self).crtc_entry() matches Some(Ok(g)) && v == crtc_rect_spec(g))),
    {
        match self.frame.cached() {
            Some(Ok(rect)) => Ok(rect),
            _ => match self.get_crtc(provider) {
                Err(e) => Err(e),
                Ok(geometry) => {
                    let derive_frame = || -> (res: Result<ScreenRect, FetchError>)
                        ensures
                            res == Ok::<ScreenRect, FetchError>(crtc_rect_spec(geometry)),
                        {
                            Ok(crtc_rect(&geometry))
                        };
                    self.frame.get_or_fetch(derive_frame)
                },
            },
        }
    }
}

/// Whether some entry's caches vouch for this rectangle: an entry
/// whose metadata stage reports the output connected and whose frame
/// stage retains exactly this frame.
pub open spec fn backed_by_entry(entries: Seq<OutputEntry>, rect: ScreenRect) -> bool {
    exists|j: int|
        0 <= j < entries.len() && (#[trigger] entries[j]).is_connected()
            && entries[j].frame_entry() == Some(Ok::<ScreenRect, FetchError>(rect))
}

/// A vouched-for rectangle stays vouched for when one entry changes,
/// as long as a connected entry with a retained frame is never
/// disturbed.
proof fn lemma_backed_after_update(
    pre: Seq<OutputEntry>,
    now: Seq<OutputEntry>,
    i: int,
    rect: ScreenRect,
)
    requires
        backed_by_entry(pre, rect),
        now.len() == pre.len(),
        0 <= i < now.len(),
        forall|j: int| 0 <= j < pre.len() && j != i ==> now[j] == pre[j],
        pre[i].is_connected() && (pre[i].frame_entry() matches Some(Ok(_))) ==> now[i] == pre[i],
    ensures
        backed_by_entry(now, rect),
{
    let j = choose|j: int|
        0 <= j < pre.len() && (#[trigger] pre[j]).is_connected() && pre[j].frame_entry() == Some(
            Ok::<ScreenRect, FetchError>(rect),
        );
    assert(now[j].is_connected() && now[j].frame_entry() == Some(Ok::<ScreenRect, FetchError>(
        rect,
    )));
}

/// Whether the listing carries this rectangle.
pub open spec fn listed(frames: Seq<DisplayFrame>, rect: ScreenRect) -> bool {
    exists|k: int| 0 <= k < frames.len() && (#[trigger] frames[k]).rect == rect
}

/// A listed rectangle stays listed when the listing only grows at the
/// end.
proof fn lemma_listed_extends(pre: Seq<DisplayFrame>, now: Seq<DisplayFrame>, rect: ScreenRect)
    requires
        listed(pre, rect),
        pre.len() <= now.len(),
        forall|k: int| 0 <= k < pre.len() ==> now[k] == pre[k],
    ensures
        listed(now, rect),
{
    let k = choose|k: int| 0 <= k < pre.len() && (#[trigger] pre[k]).rect == rect;
    assert(now[k].rect == rect);
}

/// The registry: one entry per output the display server reported.
pub struct Registry {
    outputs: Vec<OutputEntry>,
}

impl Registry {
    /// The registry's entries, in the order the outputs were listed.
    pub closed spec fn entries(self) -> Seq<OutputEntry> {
        self.outputs@
    }

    pub open spec fn wf(self) -> bool {
        forall|i: int| 0 <= i < self.entries().len() ==> (#[trigger] self.entries()[i]).wf()
    }

    /// One fresh, unfetched entry per listed output.
    pub fn new(handles: &Vec<OutputHandle>) -> (r: Registry)
        ensures
            r.entries().len() == handles@.len(),
            forall|i: int|
                0 <= i < handles@.len() ==> (#[trigger] r.entries()[i]).handle_spec()
                    == handles@[i] && r.entries()[i].info_entry() is None
                    && r.entries()[i].crtc_entry() is None && r.entries()[i].frame_entry() is None,
            r.wf(),
    {
        let mut outputs: Vec<OutputEntry> = Vec::new();
        let mut i: usize = 0;
        while i < handles.len()
            invariant
                i <= handles@.len(),
                outputs@.len() == i,
                forall|j: int|
                    0 <= j < i as int ==> (#[trigger] outputs@[j]).handle_spec() == handles@[j]
                        && outputs@[j].info_entry() is None && outputs@[j].crtc_entry() is None
                        && outputs@[j].frame_entry() is None && outputs@[j].wf(),
            decreases handles@.len() - i,
        {
            outputs.push(OutputEntry::new(handles[i]));
            i += 1;
        }
        Registry { outputs }
    }

    /// Builds a registry from the provider's current output listing.
    /// Fails only when the listing itself cannot be fetched; nothing
    /// is fetched per output yet.
    pub fn from_provider<P: OutputProvider>(provider: &P) -> (r: Result<Registry, FetchError>)
        ensures
            r matches Ok(reg) ==> reg.wf() && forall|i: int|
                0 <= i < reg.entries().len() ==> (#[trigger] reg.entries()[i]).info_entry() is None
                    && reg.entries()[i].crtc_entry() is None && reg.entries()[i].frame_entry() is None,
    {
        match provider.list_outputs() {
            Ok(handles) => Ok(Registry::new(&handles)),
            Err(e) => Err(e),
        }
    }

    /// One absolute frame per output that currently reports itself
    /// connected and whose metadata and CRTC fetches succeed: every
    /// entry left holding a connected metadata success and a retained
    /// frame — whether served from cache or fetched during this
    /// listing — appears in the result. Outputs that are disconnected
    /// or keep failing are silently excluded rather than aborting the
    /// listing; their cache cells stay ready to retry. Callers must
    /// not rely on the order of the result. Frames already retained
    /// from an earlier listing are kept as they are, never refetched.
    pub fn connected_display_frames<P: OutputProvider>(&mut self, provider: &P) -> (frames: Vec<
        DisplayFrame,
    >)
        requires
            old(self).wf(),
        ensures
            final(self).wf(),
            final(self).entries().len() == old(self).entries().len(),
            forall|i: int|
                0 <= i < old(self).entries().len() ==> (#[trigger] final(self).entries()[i]).handle_spec()
                    == old(self).entries()[i].handle_spec(),
            forall|i: int|
                0 <= i < old(self).entries().len() && (old(self).entries()[i].frame_entry() matches Some(Ok(_)))
                    ==> (#[trigger] final(self).entries()[i]).frame_entry()
                        == old(self).entries()[i].frame_entry(),
            forall|k: int|
                0 <= k < frames@.len() ==> (#[trigger] frames@[k]).wf()
                    && !frames@[k].inset_by_struts,
            forall|k: int|
                0 <= k < frames@.len() ==> backed_by_entry(
                    final(self).entries(),
                    (#[trigger] frames@[k]).rect,
                ),
            forall|i: int|
                0 <= i < final(self).entries().len() ==> ((#[trigger] final(self).entries()[i]).is_connected()
                    ==> (final(self).entries()[i].frame_entry() matches Some(Ok(rect))
                        ==> listed(frames@, rect))),
            frames@.len() <= old(self).entries().len(),
    {
        let mut frames: Vec<DisplayFrame> = Vec::new();
        let ghost orig = self.outputs@;
        let mut i: usize = 0;
        while i < self.outputs.len()
            invariant
                i <= self.outputs@.len(),
                self.outputs@.len() == orig.len(),
                forall|j: int| 0 <= j < orig.len() ==> (#[trigger] self.outputs@[j]).wf(),
                forall|j: int|
                    0 <= j < orig.len() ==> (#[trigger] self.outputs@[j]).handle_spec()
                        == orig[j].handle_spec(),
                forall|j: int| i as int <= j < orig.len() ==> self.outputs@[j] == orig[j],
                forall|j: int|
                    0 <= j < orig.len() && (orig[j].frame_entry() matches Some(Ok(_))) ==> (
                    #[trigger] self.outputs@[j]).frame_entry() == orig[j].frame_entry(),
                forall|k: int|
                    0 <= k < frames@.len() ==> (#[trigger] frames@[k]).wf()
                        && !frames@[k].inset_by_struts,
                forall|k: int|
                    0 <= k < frames@.len() ==> backed_by_entry(
                        self.outputs@,
                        (#[trigger] frames@[k]).rect,
                    ),
                forall|j: int|
                    0 <= j < i as int ==> ((#[trigger] self.outputs@[j]).is_connected()
                        ==> (self.outputs@[j].frame_entry() matches Some(Ok(rect))
                            ==> listed(frames@, rect))),
                frames@.len() <= i,
            decreases self.outputs@.len() - i,
        {
            let ghost pre_outputs = self.outputs@;
            let ghost pre_frames = frames@;
            let mut entry = self.outputs[i];
            let connected = match entry.get_info(provider) {
                Ok(info) => matches!(info.state, ConnectionState::Connected),
                Err(_) => false,
            };
            if connected {
                match entry.get_frame(provider) {
                    Ok(rect) => frames.push(DisplayFrame { rect, inset_by_struts: false }),
                    Err(_) => (),
                }
            }
            self.outputs[i] = entry;
            proof {
                assert forall|k: int|
                    0 <= k < frames@.len() implies backed_by_entry(
                        self.outputs@,
                        (#[trigger] frames@[k]).rect,
                    ) by {
                    if k < pre_frames.len() {
                        assert(backed_by_entry(pre_outputs, pre_frames[k].rect));
                        assert(pre_outputs[i as int].is_connected() && (pre_outputs[i as int].frame_entry() matches Some(Ok(_)))
                            ==> self.outputs@[i as int] == pre_outputs[i as int]);
                        lemma_backed_after_update(
                            pre_outputs,
                            self.outputs@,
                            i as int,
                            pre_frames[k].rect,
                        );
                        assert(frames@[k] == pre_frames[k]);
                    } else {
                        assert(self.outputs@[i as int].is_connected()
                            && self.outputs@[i as int].frame_entry() == Some(Ok::<
                            ScreenRect,
                            FetchError,
                        >(frames@[k].rect)));
                    }
                }
                assert forall|j: int|
                    0 <= j < i as int + 1 implies ((#[trigger] self.outputs@[j]).is_connected()
                        ==> (self.outputs@[j].frame_entry() matches Some(Ok(rect))
                            ==> listed(frames@, rect))) by {
                    if self.outputs@[j].is_connected() {
                        match self.outputs@[j].frame_entry() {
                            Some(Ok(rect)) => {
                                if j < i as int {
                                    assert(self.outputs@[j] == pre_outputs[j]);
                                    assert(listed(pre_frames, rect));
                                    lemma_listed_extends(pre_frames, frames@, rect);
                                } else {
                                    assert(self.outputs@[j] == entry);
                                    assert(0 <= pre_frames.len() < frames@.len()
                                        && frames@[pre_frames.len() as int].rect == rect);
                                    assert(listed(frames@, rect));
                                }
                            },
                            _ => (),
                        }
                    }
                }
            }
            i += 1;
        }
        frames
    }
}

/// An in-memory provider over fixed tables: the swappable stand-in
/// for the display-server transport that makes the selection and
/// planning scenarios runnable without a display server. A handle
/// missing from a table plays a query that fails.
pub struct FixedOutputProvider {
    pub outputs: Vec<OutputHandle>,
    pub infos: Vec<(OutputHandle, OutputInfo)>,
    pub crtcs: Vec<(CrtcHandle, CrtcGeometry)>,
}

impl OutputProvider for FixedOutputProvider {
    fn list_outputs(&self) -> Result<Vec<OutputHandle>, FetchError> {
        let mut handles: Vec<OutputHandle> = Vec::new();
        let mut i: usize = 0;
        while i < self.outputs.len()
            invariant
                i <= self.outputs@.len(),
            decreases self.outputs@.len() - i,
        {
            handles.push(self.outputs[i]);
            i += 1;
        }
        Ok(handles)
    }

    fn output_info(&self, output: OutputHandle) -> Result<OutputInfo, FetchError> {
        let mut i: usize = 0;
        while i < self.infos.len()
            invariant
                i <= self.infos@.len(),
            decreases self.infos@.len() - i,
        {
            let pair = self.infos[i];
            if pair.0 == output {
                return Ok(pair.1);
            }
            i += 1;
        }
        Err(FetchError)
    }

    fn crtc_geometry(&self, crtc: CrtcHandle) -> Result<CrtcGeometry, FetchError> {
        let mut i: usize = 0;
        while i < self.crtcs.len()
            invariant
                i <= self.crtcs@.len(),
            decreases self.crtcs@.len() - i,
        {
            let pair = self.crtcs[i];
            if pair.0 == crtc {
                return Ok(pair.1);
            }
            i += 1;
        }
        Err(FetchError)
    }
}

} // verus!
