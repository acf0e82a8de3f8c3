//! The placement planner: turns a user intent — "put the window at
//! these percentages of its display" or "move it to the next display
//! in that direction" — into the one absolute rectangle to request
//! from the window manager, accounting for the decoration insets the
//! window manager owns. Either a single rectangle comes out, or a
//! reported error naming the query that failed; there is no partial
//! application of a plan.
use vstd::prelude::*;

use crate::errors::PlanError;
use crate::geometry::{COORD_LIMIT, ScreenInsets, ScreenRect};
use crate::percent::{
    to_absolute, to_absolute_spec, to_percent, to_percent_spec, PercentRect,
};
use crate::registry::{DisplayFrame, ScreenLayoutable};
use crate::select::{
    center_projection, containing, is_containing_choice, is_neighbor_choice,
    lemma_containing_choice_unique, neighbor, Direction,
};
use crate::strut::{apply_struts, struts_applied, StrutSpec};

verus! {

/// A window as the planner sees it: the absolute rectangle of its
/// content box, and the decoration insets the window manager draws
/// around that box.
#[derive(Clone, Copy, PartialEq, Eq, Structural, Debug)]
pub struct WindowFrame {
    pub content: ScreenRect,
    pub insets: ScreenInsets,
}

impl WindowFrame {
    pub open spec fn wf(self) -> bool {
        &&& self.content.wf()
        &&& self.insets.wf()
    }

    /// The rectangle the window actually occupies on screen: the
    /// content box grown by its decorations.
    pub open spec fn decorated_spec(self) -> ScreenRect {
        self.content.outer_rect_spec(self.insets)
    }

    /// The decorated frame, the rectangle selections and percentage
    /// mappings work on.
    pub fn decorated(&self) -> (r: ScreenRect)
        requires
            self.wf(),
        ensures
            r == self.decorated_spec(),
    {
        self.content.outer_rect(self.insets)
    }
}

impl ScreenLayoutable for WindowFrame {
    open spec fn screen_box_spec(&self) -> ScreenRect {
        self.content
    }

    fn get_screen_box(&self) -> (r: ScreenRect) {
        self.content
    }

    /// Moves the content box; the decorations travel with the window.
    fn set_screen_box(&mut self, new: ScreenRect) {
        self.content = new;
    }
}

/// Decodes decoration insets from a raw property value declared as
/// left, right, top, bottom. An absent, truncated or out-of-range
/// declaration counts as no decorations: zero insets.
pub open spec fn insets_from_values_spec(values: Seq<i64>) -> ScreenInsets {
    if values.len() == 4 && (forall|i: int| 0 <= i < 4 ==> 0 <= #[trigger] values[i] <= COORD_LIMIT) {
        ScreenInsets { top: values[2], right: values[1], bottom: values[3], left: values[0] }
    } else {
        ScreenInsets { top: 0, right: 0, bottom: 0, left: 0 }
    }
}

/// Decodes decoration insets from a raw property value.
pub fn insets_from_values(values: &Vec<i64>) -> (r: ScreenInsets)
    ensures
        r == insets_from_values_spec(values@),
        r.wf(),
{
    if values.len() == 4 {
        let mut i: usize = 0;
        let mut in_range = true;
        while i < 4
            invariant
                values@.len() == 4,
                i <= 4,
                in_range <==> (forall|j: int| 0 <= j < i as int ==> 0 <= #[trigger] values@[j] <= COORD_LIMIT),
            decreases 4 - i,
        {
            let v = values[i];
            if v < 0 || v > COORD_LIMIT {
                in_range = false;
            }
            i += 1;
        }
        if in_range {
            return ScreenInsets { top: values[2], right: values[1], bottom: values[3], left: values[0] };
        }
    }
    ScreenInsets { top: 0, right: 0, bottom: 0, left: 0 }
}

/// The frame of display `i` after every strut reservation has been
/// subtracted: its usable area.
pub open spec fn inset_frame(displays: Seq<DisplayFrame>, struts: Seq<StrutSpec>, i: int) -> ScreenRect {
    struts_applied(displays[i].rect, struts)
}

/// The rectangle a directional relocation requests, given the
/// selected current display `ci` and destination display `ni`: the
/// decorated frame's percentage position within the current usable
/// area, mapped onto the destination usable area, shrunk back by the
/// decorations.
pub open spec fn directional_target(
    displays: Seq<DisplayFrame>,
    struts: Seq<StrutSpec>,
    window: WindowFrame,
    ci: int,
    ni: int,
) -> ScreenRect {
    to_absolute_spec(
        to_percent_spec(window.decorated_spec(), inset_frame(displays, struts, ci)),
        inset_frame(displays, struts, ni),
    ).inner_rect_spec(window.insets)
}

/// The usable area a window currently lives on: the display
/// containing the window — the one sharing the most pixels with its
/// frame — shrunk by every strut reservation that belongs to it.
/// Errors exactly when no display overlaps the window.
pub fn containing_inset_frame(
    window: &ScreenRect,
    displays: &Vec<DisplayFrame>,
    struts: &Vec<StrutSpec>,
) -> (r: Result<DisplayFrame, PlanError>)
    requires
        window.wf(),
        forall|i: int| 0 <= i < displays@.len() ==> (#[trigger] displays@[i]).wf(),
        forall|i: int| 0 <= i < struts@.len() ==> (#[trigger] struts@[i]).wf(),
    ensures
        r matches Ok(frame) ==> exists|ci: int|
            #[trigger] is_containing_choice(displays@, *window, ci) && frame.rect == inset_frame(
                displays@,
                struts@,
                ci,
            ) && frame.inset_by_struts && frame.wf(),
        r is Err <==> (forall|j: int|
            0 <= j < displays@.len() ==> (#[trigger] displays@[j].rect.overlap_area(*window))
                == 0),
        r is Err ==> r == Err::<DisplayFrame, PlanError>(PlanError::NoContainingDisplay),
{
    let index = match containing(window, displays) {
        Ok(i) => i,
        Err(e) => {
            return Err(e);
        },
    };
    Ok(apply_struts(&displays[index], struts))
}

/// Absolute-percentage placement: maps the target percentages onto
/// the destination display's usable (strut-inset) frame, then shrinks
/// by the window's decoration insets to obtain the bare content
/// rectangle to request. No source display is consulted.
pub fn plan_absolute(pct: &PercentRect, display: &DisplayFrame, insets: &ScreenInsets) -> (r:
    ScreenRect)
    requires
        pct.wf(),
        display.wf(),
        display.inset_by_struts,
        insets.wf(),
    ensures
        r == to_absolute_spec(*pct, display.rect).inner_rect_spec(*insets),
{
    let target = to_absolute(pct, &display.rect);
    target.inner_rect(*insets)
}

/// Directional relocation: selects the display containing the window
/// and the nearest display in the requested direction, both taken by
/// their usable (strut-inset) areas for the mapping, and carries the
/// window's decorated frame across by its exact percentage position.
/// Errors exactly when no display overlaps the window
/// (`NoContainingDisplay`) or none lies in the requested direction
/// from the current one (`NoDisplayInDirection`).
pub fn plan_directional(
    window: &WindowFrame,
    displays: &Vec<DisplayFrame>,
    struts: &Vec<StrutSpec>,
    direction: Direction,
) -> (r: Result<ScreenRect, PlanError>)
    requires
        window.wf(),
        forall|i: int| 0 <= i < displays@.len() ==> (#[trigger] displays@[i]).wf(),
        forall|i: int| 0 <= i < struts@.len() ==> (#[trigger] struts@[i]).wf(),
    ensures
        r == Err::<ScreenRect, PlanError>(PlanError::NoContainingDisplay) <==> (forall|j: int|
            0 <= j < displays@.len() ==> (#[trigger] displays@[j].rect.overlap_area(
                window.content,
            )) == 0),
        r == Err::<ScreenRect, PlanError>(PlanError::NoDisplayInDirection) <==> (exists|ci: int|
            #[trigger] is_containing_choice(displays@, window.content, ci) && (forall|j: int|
                0 <= j < displays@.len() ==> #[trigger] center_projection(
                    displays@,
                    inset_frame(displays@, struts@, ci).center_spec(),
                    direction,
                    j,
                ) <= 0)),
        r is Err ==> r == Err::<ScreenRect, PlanError>(PlanError::NoContainingDisplay) || r
            == Err::<ScreenRect, PlanError>(PlanError::NoDisplayInDirection),
        r matches Ok(rect) ==> exists|ci: int, ni: int|
            #[trigger] is_containing_choice(displays@, window.content, ci)
                && #[trigger] is_neighbor_choice(
                displays@,
                inset_frame(displays@, struts@, ci).center_spec(),
                direction,
                ni,
            ) && rect == directional_target(displays@, struts@, *window, ci, ni),
{
    let current_index = match containing(&window.content, displays) {
        Ok(i) => i,
        Err(e) => {
            return Err(e);
        },
    };
    let ghost ci = current_index as int;
    let current = apply_struts(&displays[current_index], struts);
    proof {
        // The selected display shares pixels with the window, so its
        // extent is positive, and struts keep a positive extent.
        assert(displays@[ci].rect.overlaps(window.content));
    }
    let neighbor_index = match neighbor(&current, displays, direction) {
        Ok(i) => i,
        Err(e) => {
            proof {
                assert(is_containing_choice(displays@, window.content, ci) && (forall|j: int|
                    0 <= j < displays@.len() ==> #[trigger] center_projection(
                        displays@,
                        inset_frame(displays@, struts@, ci).center_spec(),
                        direction,
                        j,
                    ) <= 0));
            }
            return Err(e);
        },
    };
    let ghost ni = neighbor_index as int;
    let destination = apply_struts(&displays[neighbor_index], struts);
    let decorated = window.decorated();
    let pct = to_percent(&decorated, &current.rect);
    let target = to_absolute(&pct, &destination.rect);
    let bare = target.inner_rect(window.insets);
    proof {
        if exists|c: int|
            #[trigger] is_containing_choice(displays@, window.content, c) && (forall|j: int|
                0 <= j < displays@.len() ==> #[trigger] center_projection(
                    displays@,
                    inset_frame(displays@, struts@, c).center_spec(),
                    direction,
                    j,
                ) <= 0) {
            let c = choose|c: int|
                #[trigger] is_containing_choice(displays@, window.content, c) && (forall|j: int|
                    0 <= j < displays@.len() ==> #[trigger] center_projection(
                        displays@,
                        inset_frame(displays@, struts@, c).center_spec(),
                        direction,
                        j,
                    ) <= 0);
            lemma_containing_choice_unique(displays@, window.content, c, ci);
        }
        assert(is_containing_choice(displays@, window.content, ci) && is_neighbor_choice(
            displays@,
            inset_frame(displays@, struts@, ci).center_spec(),
            direction,
            ni,
        ) && bare == directional_target(displays@, struts@, *window, ci, ni));
    }
    Ok(bare)
}

} // verus!
