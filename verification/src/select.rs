//! The output selector: which display currently contains a window,
//! and which display lies in a requested compass direction from the
//! current one. Both selections are deterministic for a fixed input
//! order, but the order of the display list itself is unspecified, so
//! callers must not read anything into which of several equally good
//! candidates wins.
use vstd::prelude::*;

use crate::errors::PlanError;
use crate::geometry::{ScreenPoint, ScreenRect};
use crate::registry::DisplayFrame;

verus! {

/// One of the four compass unit vectors. Off-axis directions are not
/// supported by the selector.
#[derive(Clone, Copy, PartialEq, Eq, Structural, Debug)]
pub enum Direction {
    North,
    South,
    East,
    West,
}

impl Direction {
    /// x component of the unit vector, with east positive.
    pub open spec fn dx(self) -> int {
        match self {
            Direction::East => 1,
            Direction::West => -1,
            _ => 0,
        }
    }

    /// y component of the unit vector, with south positive (y grows
    /// downward on the desktop).
    pub open spec fn dy(self) -> int {
        match self {
            Direction::South => 1,
            Direction::North => -1,
            _ => 0,
        }
    }
}

/// The scalar projection of the vector from `from` to `to` onto the
/// direction's unit vector: how far `to` lies in that direction.
pub open spec fn projection_spec(direction: Direction, from: ScreenPoint, to: ScreenPoint) -> int {
    direction.dx() * (to.x - from.x) + direction.dy() * (to.y - from.y)
}

/// How far the center of `displays[j]` lies from `center` in the
/// given direction.
pub open spec fn center_projection(
    displays: Seq<DisplayFrame>,
    center: ScreenPoint,
    direction: Direction,
    j: int,
) -> int {
    projection_spec(direction, center, displays[j].rect.center_spec())
}

/// Index `i` names the display a containment query selects: its frame
/// shares pixels with the window, no candidate shares more, and no
/// earlier candidate shares as many — ties go to whichever candidate
/// was evaluated first.
pub open spec fn is_containing_choice(displays: Seq<DisplayFrame>, window: ScreenRect, i: int) -> bool {
    &&& 0 <= i < displays.len()
    &&& displays[i].rect.overlap_area(window) > 0
    &&& forall|j: int|
        0 <= j < displays.len() ==> (#[trigger] displays[j].rect.overlap_area(window))
            <= displays[i].rect.overlap_area(window)
    &&& forall|j: int|
        0 <= j < i ==> (#[trigger] displays[j].rect.overlap_area(window))
            < displays[i].rect.overlap_area(window)
}

/// Index `i` names the display a directional query selects: its
/// center lies strictly in the requested direction from `center`, no
/// candidate in that direction is nearer, and no earlier candidate is
/// as near — ties go to whichever candidate was evaluated first.
pub open spec fn is_neighbor_choice(
    displays: Seq<DisplayFrame>,
    center: ScreenPoint,
    direction: Direction,
    i: int,
) -> bool {
    &&& 0 <= i < displays.len()
    &&& center_projection(displays, center, direction, i) > 0
    &&& forall|j: int|
        0 <= j < displays.len() && #[trigger] center_projection(displays, center, direction, j)
            > 0 ==> center_projection(displays, center, direction, i) <= center_projection(
            displays,
            center,
            direction,
            j,
        )
    &&& forall|j: int|
        0 <= j < i && #[trigger] center_projection(displays, center, direction, j) > 0
            ==> center_projection(displays, center, direction, i) < center_projection(
            displays,
            center,
            direction,
            j,
        )
}

/// For a fixed display order the containment selection is
/// deterministic: at most one index can satisfy the choice predicate.
pub proof fn lemma_containing_choice_unique(
    displays: Seq<DisplayFrame>,
    window: ScreenRect,
    i1: int,
    i2: int,
)
    requires
        is_containing_choice(displays, window, i1),
        is_containing_choice(displays, window, i2),
    ensures
        i1 == i2,
{
    if i1 < i2 {
        assert(displays[i1].rect.overlap_area(window) < displays[i2].rect.overlap_area(window));
        assert(displays[i2].rect.overlap_area(window) <= displays[i1].rect.overlap_area(window));
    }
    if i2 < i1 {
        assert(displays[i2].rect.overlap_area(window) < displays[i1].rect.overlap_area(window));
        assert(displays[i1].rect.overlap_area(window) <= displays[i2].rect.overlap_area(window));
    }
}

/// For a fixed display order the directional selection is
/// deterministic: at most one index can satisfy the choice predicate.
pub proof fn lemma_neighbor_choice_unique(
    displays: Seq<DisplayFrame>,
    center: ScreenPoint,
    direction: Direction,
    i1: int,
    i2: int,
)
    requires
        is_neighbor_choice(displays, center, direction, i1),
        is_neighbor_choice(displays, center, direction, i2),
    ensures
        i1 == i2,
{
    if i1 < i2 {
        assert(center_projection(displays, center, direction, i2) < center_projection(
            displays,
            center,
            direction,
            i1,
        ));
        assert(center_projection(displays, center, direction, i1) <= center_projection(
            displays,
            center,
            direction,
            i2,
        ));
    }
    if i2 < i1 {
        assert(center_projection(displays, center, direction, i1) < center_projection(
            displays,
            center,
            direction,
            i2,
        ));
        assert(center_projection(displays, center, direction, i2) <= center_projection(
            displays,
            center,
            direction,
            i1,
        ));
    }
}

/// The display whose frame has the largest-area intersection with the
/// window's frame, as an index into `displays`. Equal maximal areas
/// resolve to the candidate evaluated first. A window that overlaps
/// no display at all is a `NoContainingDisplay` error; that is the
/// only error.
pub fn containing(window: &ScreenRect, displays: &Vec<DisplayFrame>) -> (r: Result<
    usize,
    PlanError,
>)
    requires
        window.wf(),
        forall|i: int| 0 <= i < displays@.len() ==> (#[trigger] displays@[i]).wf(),
    ensures
        r matches Ok(i) ==> is_containing_choice(displays@, *window, i as int),
        r is Err <==> (forall|j: int|
            0 <= j < displays@.len() ==> (#[trigger] displays@[j].rect.overlap_area(*window))
                == 0),
        r is Err ==> r == Err::<usize, PlanError>(PlanError::NoContainingDisplay),
{
    let mut best_index: usize = 0;
    let mut best_area: i64 = 0;
    let mut found = false;
    let mut i: usize = 0;
    while i < displays.len()
        invariant
            window.wf(),
            forall|k: int| 0 <= k < displays@.len() ==> (#[trigger] displays@[k]).wf(),
            i <= displays@.len(),
            !found ==> forall|j: int|
                0 <= j < i as int ==> (#[trigger] displays@[j].rect.overlap_area(*window)) == 0,
            found ==> 0 <= best_index < i as int,
            found ==> best_area == displays@[best_index as int].rect.overlap_area(*window)
                && best_area > 0,
            found ==> forall|j: int|
                0 <= j < i as int ==> (#[trigger] displays@[j].rect.overlap_area(*window))
                    <= best_area,
            found ==> forall|j: int|
                0 <= j < best_index as int ==> (#[trigger] displays@[j].rect.overlap_area(
                    *window,
                )) < best_area,
        decreases displays@.len() - i,
    {
        let candidate = &displays[i];
        let area: i64 = match candidate.rect.intersection(window) {
            Some(overlap) => overlap.area(),
            None => 0,
        };
        proof {
            if candidate.rect.overlaps(*window) {
                crate::geometry::lemma_area_bounds(
                    candidate.rect.intersection_spec(*window),
                );
            }
        }
        if area > 0 && (!found || area > best_area) {
            best_index = i;
            best_area = area;
            found = true;
        }
        i += 1;
    }
    if found {
        Ok(best_index)
    } else {
        Err(PlanError::NoContainingDisplay)
    }
}

/// Among the candidates, the display nearest in the requested compass
/// direction from `current`: project each candidate's center against
/// `current`'s center onto the direction, keep only strictly positive
/// projections — candidates genuinely in that direction, not behind
/// or exactly beside — and select the smallest. Equal projections
/// resolve to the candidate evaluated first. No qualifying candidate
/// is a `NoDisplayInDirection` error; that is the only error.
pub fn neighbor(current: &DisplayFrame, displays: &Vec<DisplayFrame>, direction: Direction) -> (r:
    Result<usize, PlanError>)
    requires
        current.wf(),
        forall|i: int| 0 <= i < displays@.len() ==> (#[trigger] displays@[i]).wf(),
    ensures
        r matches Ok(i) ==> is_neighbor_choice(
            displays@,
            current.rect.center_spec(),
            direction,
            i as int,
        ),
        r is Err <==> (forall|j: int|
            0 <= j < displays@.len() ==> #[trigger] center_projection(
                displays@,
                current.rect.center_spec(),
                direction,
                j,
            ) <= 0),
        r is Err ==> r == Err::<usize, PlanError>(PlanError::NoDisplayInDirection),
{
    let here = current.rect.center();
    let ghost c = current.rect.center_spec();
    let mut best_index: usize = 0;
    let mut best_projection: i64 = 0;
    let mut found = false;
    let mut i: usize = 0;
    while i < displays.len()
        invariant
            current.wf(),
            forall|k: int| 0 <= k < displays@.len() ==> (#[trigger] displays@[k]).wf(),
            here == c,
            c == current.rect.center_spec(),
            i <= displays@.len(),
            !found ==> forall|j: int|
                0 <= j < i as int ==> #[trigger] center_projection(displays@, c, direction, j)
                    <= 0,
            found ==> 0 <= best_index < i as int,
            found ==> best_projection == center_projection(
                displays@,
                c,
                direction,
                best_index as int,
            ) && best_projection > 0,
            found ==> forall|j: int|
                0 <= j < i as int && #[trigger] center_projection(displays@, c, direction, j) > 0
                    ==> best_projection <= center_projection(displays@, c, direction, j),
            found ==> forall|j: int|
                0 <= j < best_index as int && #[trigger] center_projection(
                    displays@,
                    c,
                    direction,
                    j,
                ) > 0 ==> best_projection < center_projection(displays@, c, direction, j),
        decreases displays@.len() - i,
    {
        let there = displays[i].rect.center();
        let shift_x = there.x - here.x;
        let shift_y = there.y - here.y;
        let projection: i64 = match direction {
            Direction::East => shift_x,
            Direction::West => -shift_x,
            Direction::South => shift_y,
            Direction::North => -shift_y,
        };
        if projection > 0 && (!found || projection < best_projection) {
            best_index = i;
            best_projection = projection;
            found = true;
        }
        i += 1;
    }
    if found {
        Ok(best_index)
    } else {
        Err(PlanError::NoDisplayInDirection)
    }
}

} // verus!
