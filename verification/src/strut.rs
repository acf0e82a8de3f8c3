//! The strut inset calculator. A strut is a reservation a window
//! (typically a panel or dock) declares along one desktop edge; this
//! module shrinks a candidate display frame by every reservation that
//! actually belongs to it. An edge's reservation applies only when the
//! edge's absolute coordinate falls strictly inside the frame's extent
//! on the perpendicular axis and the declared span is fully contained
//! within the frame's span on that axis; a strut that only partially
//! overlaps the frame belongs to another display and is ignored for
//! that edge. Struts compose by sequential shrink, so overlapping
//! reservations accumulate.
use vstd::prelude::*;

use crate::geometry::{ScreenPoint, ScreenRect, ScreenSize};
use crate::registry::DisplayFrame;

verus! {

/// Largest value a declared reservation field may carry: the range of
/// the 32-bit cardinals reservations are declared in.
pub const STRUT_VALUE_LIMIT: i64 = 0xFFFF_FFFF;

/// One window's declared edge reservation: a thickness per desktop
/// edge, and per edge the start and end coordinate of the span the
/// reservation covers along that edge.
#[derive(Clone, Copy, PartialEq, Eq, Structural, Debug)]
pub struct StrutSpec {
    pub left: i64,
    pub right: i64,
    pub top: i64,
    pub bottom: i64,
    pub left_start_y: i64,
    pub left_end_y: i64,
    pub right_start_y: i64,
    pub right_end_y: i64,
    pub top_start_x: i64,
    pub top_end_x: i64,
    pub bottom_start_x: i64,
    pub bottom_end_x: i64,
}

/// The strut fields in declaration order: four thicknesses, then the
/// per-edge spans.
pub open spec fn strut_from_seq(values: Seq<i64>) -> StrutSpec {
    StrutSpec {
        left: values[0],
        right: values[1],
        top: values[2],
        bottom: values[3],
        left_start_y: values[4],
        left_end_y: values[5],
        right_start_y: values[6],
        right_end_y: values[7],
        top_start_x: values[8],
        top_end_x: values[9],
        bottom_start_x: values[10],
        bottom_end_x: values[11],
    }
}

impl StrutSpec {
    pub open spec fn wf(self) -> bool {
        &&& 0 <= self.left <= STRUT_VALUE_LIMIT
        &&& 0 <= self.right <= STRUT_VALUE_LIMIT
        &&& 0 <= self.top <= STRUT_VALUE_LIMIT
        &&& 0 <= self.bottom <= STRUT_VALUE_LIMIT
        &&& 0 <= self.left_start_y <= STRUT_VALUE_LIMIT
        &&& 0 <= self.left_end_y <= STRUT_VALUE_LIMIT
        &&& 0 <= self.right_start_y <= STRUT_VALUE_LIMIT
        &&& 0 <= self.right_end_y <= STRUT_VALUE_LIMIT
        &&& 0 <= self.top_start_x <= STRUT_VALUE_LIMIT
        &&& 0 <= self.top_end_x <= STRUT_VALUE_LIMIT
        &&& 0 <= self.bottom_start_x <= STRUT_VALUE_LIMIT
        &&& 0 <= self.bottom_end_x <= STRUT_VALUE_LIMIT
    }

    /// Decodes one window's declared reservation from the raw
    /// property value. Exactly twelve in-range values make a strut;
    /// an absent, truncated or out-of-range declaration yields `None`
    /// and contributes no reservation.
    pub fn from_values(values: &Vec<i64>) -> (r: Option<StrutSpec>)
        ensures
            r is Some <==> values@.len() == 12 && (forall|i: int|
                0 <= i < 12 ==> 0 <= #[trigger] values@[i] <= STRUT_VALUE_LIMIT),
            r matches Some(s) ==> s == strut_from_seq(values@) && s.wf(),
    {
        if values.len() != 12 {
            return None;
        }
        let mut i: usize = 0;
        while i < 12
            invariant
                values@.len() == 12,
                i <= 12,
                forall|j: int| 0 <= j < i as int ==> 0 <= #[trigger] values@[j] <= STRUT_VALUE_LIMIT,
            decreases 12 - i,
        {
            let v = values[i];
            if v < 0 || v > STRUT_VALUE_LIMIT {
                return None;
            }
            i += 1;
        }
        Some(StrutSpec {
            left: values[0],
            right: values[1],
            top: values[2],
            bottom: values[3],
            left_start_y: values[4],
            left_end_y: values[5],
            right_start_y: values[6],
            right_end_y: values[7],
            top_start_x: values[8],
            top_end_x: values[9],
            bottom_start_x: values[10],
            bottom_end_x: values[11],
        })
    }
}

/// The frame after the strut's top reservation, which applies only
/// when the reserved edge lies strictly inside the frame vertically
/// and the declared span is contained in the frame horizontally.
pub open spec fn apply_top_spec(f: ScreenRect, s: StrutSpec) -> ScreenRect {
    if s.top > f.top() && s.top < f.bottom() && s.top_start_x >= f.left() && s.top_end_x
        <= f.right() {
        ScreenRect {
            origin: ScreenPoint { x: f.origin.x, y: s.top },
            size: ScreenSize { width: f.size.width, height: (f.bottom() - s.top) as i64 },
        }
    } else {
        f
    }
}

/// The frame after the strut's left reservation.
pub open spec fn apply_left_spec(f: ScreenRect, s: StrutSpec) -> ScreenRect {
    if s.left > f.left() && s.left < f.right() && s.left_start_y >= f.top() && s.left_end_y
        <= f.bottom() {
        ScreenRect {
            origin: ScreenPoint { x: s.left, y: f.origin.y },
            size: ScreenSize { width: (f.right() - s.left) as i64, height: f.size.height },
        }
    } else {
        f
    }
}

/// The frame after the strut's bottom reservation.
pub open spec fn apply_bottom_spec(f: ScreenRect, s: StrutSpec) -> ScreenRect {
    if s.bottom < f.bottom() && s.bottom > f.top() && s.bottom_start_x >= f.left()
        && s.bottom_end_x <= f.right() {
        ScreenRect {
            origin: f.origin,
            size: ScreenSize { width: f.size.width, height: (s.bottom - f.top()) as i64 },
        }
    } else {
        f
    }
}

/// The frame after the strut's right reservation.
pub open spec fn apply_right_spec(f: ScreenRect, s: StrutSpec) -> ScreenRect {
    if s.right < f.right() && s.right > f.left() && s.right_start_y >= f.top() && s.right_end_y
        <= f.bottom() {
        ScreenRect {
            origin: f.origin,
            size: ScreenSize { width: (s.right - f.left()) as i64, height: f.size.height },
        }
    } else {
        f
    }
}

/// One strut's four edge reservations applied in turn: top, left,
/// bottom, right.
pub open spec fn apply_strut_spec(f: ScreenRect, s: StrutSpec) -> ScreenRect {
    apply_right_spec(apply_bottom_spec(apply_left_spec(apply_top_spec(f, s), s), s), s)
}

/// A sequence of struts applied by sequential shrink: each strut is
/// evaluated against the already-shrunk frame.
pub open spec fn struts_applied(f: ScreenRect, struts: Seq<StrutSpec>) -> ScreenRect
    decreases struts.len(),
{
    if struts.len() == 0 {
        f
    } else {
        struts_applied(apply_strut_spec(f, struts.first()), struts.drop_first())
    }
}

/// Applying one strut only shrinks: the result stays inside the
/// frame, stays well formed, and keeps a positive extent positive —
/// a reservation never empties the frame, because each edge applies
/// only when it lands strictly inside.
pub proof fn lemma_apply_strut_preserves(f: ScreenRect, s: StrutSpec)
    requires
        f.wf(),
    ensures
        apply_strut_spec(f, s).wf(),
        1 <= f.size.width ==> 1 <= apply_strut_spec(f, s).size.width,
        1 <= f.size.height ==> 1 <= apply_strut_spec(f, s).size.height,
        f.left() <= apply_strut_spec(f, s).left(),
        apply_strut_spec(f, s).right() <= f.right(),
        f.top() <= apply_strut_spec(f, s).top(),
        apply_strut_spec(f, s).bottom() <= f.bottom(),
{
}

/// `struts_applied` over a sequence extended by one strut is the
/// one-strut application of the fold over the prefix.
pub proof fn lemma_struts_applied_push(f: ScreenRect, struts: Seq<StrutSpec>, s: StrutSpec)
    ensures
        struts_applied(f, struts.push(s)) == apply_strut_spec(struts_applied(f, struts), s),
    decreases struts.len(),
{
    reveal_with_fuel(struts_applied, 3);
    if struts.len() == 0 {
        assert(struts.push(s).drop_first() =~= Seq::<StrutSpec>::empty());
    } else {
        assert(struts.push(s).drop_first() =~= struts.drop_first().push(s));
        lemma_struts_applied_push(apply_strut_spec(f, struts.first()), struts.drop_first(), s);
    }
}

/// The fold of any strut sequence only shrinks the frame, keeps it
/// well formed, and keeps a positive extent positive.
pub proof fn lemma_struts_applied_preserves(f: ScreenRect, struts: Seq<StrutSpec>)
    requires
        f.wf(),
    ensures
        struts_applied(f, struts).wf(),
        1 <= f.size.width ==> 1 <= struts_applied(f, struts).size.width,
        1 <= f.size.height ==> 1 <= struts_applied(f, struts).size.height,
        f.left() <= struts_applied(f, struts).left(),
        struts_applied(f, struts).right() <= f.right(),
        f.top() <= struts_applied(f, struts).top(),
        struts_applied(f, struts).bottom() <= f.bottom(),
    decreases struts.len(),
{
    if struts.len() > 0 {
        lemma_apply_strut_preserves(f, struts.first());
        lemma_struts_applied_preserves(apply_strut_spec(f, struts.first()), struts.drop_first());
    }
}

/// Shrinks a frame by one strut's reservations, edge by edge.
pub fn apply_strut(frame: &ScreenRect, strut: &StrutSpec) -> (r: ScreenRect)
    requires
        frame.wf(),
        strut.wf(),
    ensures
        r == apply_strut_spec(*frame, *strut),
        r.wf(),
{
    let mut f = *frame;
    if strut.top > f.origin.y && strut.top < f.origin.y + f.size.height && strut.top_start_x
        >= f.origin.x && strut.top_end_x <= f.origin.x + f.size.width {
        let overlap = strut.top - f.origin.y;
        f.origin.y = f.origin.y + overlap;
        f.size.height = f.size.height - overlap;
    }
    if strut.left > f.origin.x && strut.left < f.origin.x + f.size.width && strut.left_start_y
        >= f.origin.y && strut.left_end_y <= f.origin.y + f.size.height {
        let overlap = strut.left - f.origin.x;
        f.origin.x = f.origin.x + overlap;
        f.size.width = f.size.width - overlap;
    }
    if strut.bottom < f.origin.y + f.size.height && strut.bottom > f.origin.y
        && strut.bottom_start_x >= f.origin.x && strut.bottom_end_x <= f.origin.x + f.size.width {
        let overlap = f.origin.y + f.size.height - strut.bottom;
        f.size.height = f.size.height - overlap;
    }
    if strut.right < f.origin.x + f.size.width && strut.right > f.origin.x && strut.right_start_y
        >= f.origin.y && strut.right_end_y <= f.origin.y + f.size.height {
        let overlap = f.origin.x + f.size.width - strut.right;
        f.size.width = f.size.width - overlap;
    }
    f
}

/// Shrinks a candidate display frame by every reservation in turn.
/// Later struts are evaluated against the already-shrunk frame, so
/// overlapping reservations accumulate rather than overwrite. The
/// result is marked as inset.
pub fn apply_struts(display: &DisplayFrame, struts: &Vec<StrutSpec>) -> (r: DisplayFrame)
    requires
        display.wf(),
        forall|i: int| 0 <= i < struts@.len() ==> (#[trigger] struts@[i]).wf(),
    ensures
        r.rect == struts_applied(display.rect, struts@),
        r.inset_by_struts,
        r.wf(),
        1 <= display.rect.size.width ==> 1 <= r.rect.size.width,
        1 <= display.rect.size.height ==> 1 <= r.rect.size.height,
{
    let mut f = display.rect;
    let mut i: usize = 0;
    while i < struts.len()
        invariant
            i <= struts@.len(),
            display.rect.wf(),
            forall|j: int| 0 <= j < struts@.len() ==> (#[trigger] struts@[j]).wf(),
            f == struts_applied(display.rect, struts@.subrange(0, i as int)),
            f.wf(),
        decreases struts@.len() - i,
    {
        let ghost prefix = struts@.subrange(0, i as int);
        f = apply_strut(&f, &struts[i]);
        proof {
            lemma_struts_applied_push(display.rect, prefix, struts@[i as int]);
            assert(struts@.subrange(0, i as int + 1) =~= prefix.push(struts@[i as int]));
        }
        i += 1;
    }
    proof {
        assert(struts@.subrange(0, struts@.len() as int) =~= struts@);
        lemma_struts_applied_preserves(display.rect, struts@);
    }
    DisplayFrame { rect: f, inset_by_struts: true }
}

} // verus!
