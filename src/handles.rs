use vstd::prelude::*;

use crate::geometry::{Extents, Rect, fits_i32};
use crate::selection::{RectangleSelection, SelectionModifier, SelectionState};

verus! {

/// The number of resize handles on a rectangle.
pub const HANDLE_COUNT: usize = 8;

/// The handle tested `k`-th; earlier handles win ties.
pub open spec fn handle_modifier(k: int) -> SelectionModifier {
    if k == 0 {
        SelectionModifier::Left
    } else if k == 1 {
        SelectionModifier::Right
    } else if k == 2 {
        SelectionModifier::Top
    } else if k == 3 {
        SelectionModifier::Bottom
    } else if k == 4 {
        SelectionModifier::TopRight
    } else if k == 5 {
        SelectionModifier::BottomRight
    } else if k == 6 {
        SelectionModifier::BottomLeft
    } else {
        SelectionModifier::TopLeft
    }
}

/// Where the `k`-th handle sits on `r`: a corner or the middle of an edge.
pub open spec fn handle_anchor(r: Rect<i32>, k: int) -> (int, int) {
    let mid_x = r.x + r.width / 2;
    let mid_y = r.y + r.height / 2;
    if k == 0 {
        (r.x as int, mid_y)
    } else if k == 1 {
        (r.right(), mid_y)
    } else if k == 2 {
        (mid_x, r.y as int)
    } else if k == 3 {
        (mid_x, r.bottom())
    } else if k == 4 {
        (r.right(), r.y as int)
    } else if k == 5 {
        (r.right(), r.bottom())
    } else if k == 6 {
        (r.x as int, r.bottom())
    } else {
        (r.x as int, r.y as int)
    }
}

/// The Euclidean distance from `p` to `a` is at most `radius`.
pub open spec fn within_radius(p: (i32, i32), a: (int, int), radius: int) -> bool {
    radius >= 0 && (p.0 - a.0) * (p.0 - a.0) + (p.1 - a.1) * (p.1 - a.1) <= radius * radius
}

/// The first handle, from the `k`-th on, within `radius` of `p`.
pub open spec fn first_hit_from(r: Rect<i32>, p: (i32, i32), radius: int, k: int) -> Option<
    SelectionModifier,
>
    decreases 8 - k,
{
    if k >= 8 || k < 0 {
        None
    } else if within_radius(p, handle_anchor(r, k), radius) {
        Some(handle_modifier(k))
    } else {
        first_hit_from(r, p, radius, k + 1)
    }
}

/// The handle that a press at `p` grabs on `r`: the first in order within `radius`.
pub open spec fn first_hit(r: Rect<i32>, p: (i32, i32), radius: int) -> Option<SelectionModifier> {
    first_hit_from(r, p, radius, 0)
}

fn handle_modifier_at(k: usize) -> (m: SelectionModifier)
    requires
        k < HANDLE_COUNT,
    ensures
        m == handle_modifier(k as int),
{
    if k == 0 {
        SelectionModifier::Left
    } else if k == 1 {
        SelectionModifier::Right
    } else if k == 2 {
        SelectionModifier::Top
    } else if k == 3 {
        SelectionModifier::Bottom
    } else if k == 4 {
        SelectionModifier::TopRight
    } else if k == 5 {
        SelectionModifier::BottomRight
    } else if k == 6 {
        SelectionModifier::BottomLeft
    } else {
        SelectionModifier::TopLeft
    }
}

fn handle_anchor_at(r: Rect<i32>, k: usize) -> (a: (i64, i64))
    requires
        k < HANDLE_COUNT,
        r.is_normal(),
    ensures
        a.0 == handle_anchor(r, k as int).0,
        a.1 == handle_anchor(r, k as int).1,
{
    let left = r.x as i64;
    let top = r.y as i64;
    let right = r.x as i64 + r.width as i64;
    let bottom = r.y as i64 + r.height as i64;
    let mid_x = r.x as i64 + (r.width as u32 / 2) as i64;
    let mid_y = r.y as i64 + (r.height as u32 / 2) as i64;
    if k == 0 {
        (left, mid_y)
    } else if k == 1 {
        (right, mid_y)
    } else if k == 2 {
        (mid_x, top)
    } else if k == 3 {
        (mid_x, bottom)
    } else if k == 4 {
        (right, top)
    } else if k == 5 {
        (right, bottom)
    } else if k == 6 {
        (left, bottom)
    } else {
        (left, top)
    }
}

fn square(v: i128) -> (r: i128)
    requires
        -0x1_0000_0000_0000 < v < 0x1_0000_0000_0000,
    ensures
        r == v * v,
        0 <= r < 0x1_0000_0000_0000_0000_0000_0000,
{
    proof {
        assert(0 <= v * v < 0x1_0000_0000_0000_0000_0000_0000) by (nonlinear_arith)
            requires
                -0x1_0000_0000_0000 < v < 0x1_0000_0000_0000,
        ;
    }
    v * v
}

/// The Euclidean distance from `p` to `a` is at most `radius`.
fn is_within_radius(p: (i32, i32), a: (i64, i64), radius: i32) -> (r: bool)
    requires
        -0x1_0000_0000 <= a.0 <= 0x1_0000_0000,
        -0x1_0000_0000 <= a.1 <= 0x1_0000_0000,
    ensures
        r == within_radius(p, (a.0 as int, a.1 as int), radius as int),
{
    if radius < 0 {
        return false;
    }
    let dx = square(p.0 as i128 - a.0 as i128);
    let dy = square(p.1 as i128 - a.1 as i128);
    let rr = square(radius as i128);
    dx + dy <= rr
}

/// The handle of `r` that a press at `p` grabs: the first, in the order
/// Left, Right, Top, Bottom, TopRight, BottomRight, BottomLeft, TopLeft,
/// whose anchor is within `radius` of `p`.
pub fn grabbed_handle(r: Rect<i32>, p: (i32, i32), radius: i32) -> (m: Option<SelectionModifier>)
    requires
        r.is_normal(),
    ensures
        m == first_hit(r, p, radius as int),
{
    let mut k: usize = 0;
    while k < HANDLE_COUNT
        invariant
            0 <= k <= HANDLE_COUNT,
            r.is_normal(),
            first_hit_from(r, p, radius as int, 0) == first_hit_from(r, p, radius as int, k as int),
        decreases HANDLE_COUNT - k,
    {
        let a = handle_anchor_at(r, k);
        if is_within_radius(p, a, radius) {
            return Some(handle_modifier_at(k));
        }
        k += 1;
    }
    None
}

/// The extents after the pointer moved to `p` during a drag; a move of the
/// whole rectangle is clamped into `area`.
pub open spec fn dragged(s: RectangleSelection, p: (i32, i32), area: Rect<i32>) -> Extents {
    let e = s.extents;
    match s.modifier {
        None => Extents { end_x: p.0, end_y: p.1, ..e },
        Some(SelectionModifier::Left) => Extents { start_x: p.0, ..e },
        Some(SelectionModifier::Right) => Extents { end_x: p.0, ..e },
        Some(SelectionModifier::Top) => Extents { start_y: p.1, ..e },
        Some(SelectionModifier::Bottom) => Extents { end_y: p.1, ..e },
        Some(SelectionModifier::TopRight) => Extents { end_x: p.0, start_y: p.1, ..e },
        Some(SelectionModifier::BottomRight) => Extents { end_x: p.0, end_y: p.1, ..e },
        Some(SelectionModifier::BottomLeft) => Extents { start_x: p.0, end_y: p.1, ..e },
        Some(SelectionModifier::TopLeft) => Extents { start_x: p.0, start_y: p.1, ..e },
        Some(SelectionModifier::Center(ox, oy, snapshot)) => snapshot.translated(
            p.0 - ox,
            p.1 - oy,
        ).clamped_into(area).spec_to_extents(),
    }
}

/// `drag` can compute a move of the whole rectangle in `i32`.
pub open spec fn drag_fits(s: RectangleSelection, p: (i32, i32), area: Rect<i32>) -> bool {
    match s.modifier {
        Some(SelectionModifier::Center(ox, oy, snapshot)) => {
            let dx = p.0 - ox;
            let dy = p.1 - oy;
            &&& fits_i32(snapshot.start_x + dx)
            &&& fits_i32(snapshot.end_x + dx)
            &&& fits_i32(snapshot.start_y + dy)
            &&& fits_i32(snapshot.end_y + dy)
            &&& snapshot.translated(dx, dy).clamp_fits(area)
            &&& snapshot.translated(dx, dy).clamped_into(area).edges_fit()
        },
        _ => true,
    }
}

/// Follows the pointer to `p`: an edge handle moves one coordinate, a corner
/// handle two, a fresh drag its end corner, and a move of the whole rectangle
/// translates the extents it started from and clamps them into `area`.
pub fn drag(s: &mut RectangleSelection, p: (i32, i32), area: &Rect<i32>)
    requires
        drag_fits(*old(s), p, *area),
    ensures
        final(s).extents == dragged(*old(s), p, *area),
        final(s).modifier == old(s).modifier,
        final(s).active == old(s).active,
{
    match s.modifier {
        None => {
            s.extents.end_x = p.0;
            s.extents.end_y = p.1;
        },
        Some(SelectionModifier::Left) => {
            s.extents.start_x = p.0;
        },
        Some(SelectionModifier::Right) => {
            s.extents.end_x = p.0;
        },
        Some(SelectionModifier::Top) => {
            s.extents.start_y = p.1;
        },
        Some(SelectionModifier::Bottom) => {
            s.extents.end_y = p.1;
        },
        Some(SelectionModifier::TopRight) => {
            s.extents.end_x = p.0;
            s.extents.start_y = p.1;
        },
        Some(SelectionModifier::BottomRight) => {
            s.extents.end_x = p.0;
            s.extents.end_y = p.1;
        },
        Some(SelectionModifier::BottomLeft) => {
            s.extents.start_x = p.0;
            s.extents.end_y = p.1;
        },
        Some(SelectionModifier::TopLeft) => {
            s.extents.start_x = p.0;
            s.extents.start_y = p.1;
        },
        Some(SelectionModifier::Center(x, y, snapshot)) => {
            let dx = p.0 as i64 - x as i64;
            let dy = p.1 as i64 - y as i64;
            let moved = Extents {
                start_x: (snapshot.start_x as i64 + dx) as i32,
                start_y: (snapshot.start_y as i64 + dy) as i32,
                end_x: (snapshot.end_x as i64 + dx) as i32,
                end_y: (snapshot.end_y as i64 + dy) as i32,
            };
            s.extents = moved.to_rect_clamped(area).to_extents();
        },
    }
}

/// Ties go to the earlier handle: whenever the left edge's handle is within
/// reach, it is the one grabbed, whichever corner handles are within reach too.
pub proof fn lemma_left_wins_ties(r: Rect<i32>, p: (i32, i32), radius: int)
    requires
        within_radius(p, handle_anchor(r, 0), radius),
    ensures
        first_hit(r, p, radius) == Some(SelectionModifier::Left),
{
}

/// A grabbed handle is never a move of the whole rectangle.
pub proof fn lemma_first_hit_is_handle(r: Rect<i32>, p: (i32, i32), radius: int, k: int)
    ensures
        !(first_hit_from(r, p, radius, k) matches Some(SelectionModifier::Center(..))),
    decreases 8 - k,
{
    if 0 <= k < 8 && !within_radius(p, handle_anchor(r, k), radius) {
        lemma_first_hit_is_handle(r, p, radius, k + 1);
    }
}

/// What a press at `p` does to a rectangle selection: grab the first handle
/// within `radius`, else start a move when `p` is inside the rect, else
/// nothing.
pub open spec fn hit_test(sel: Option<RectangleSelection>, p: (i32, i32), radius: int) -> (
    Option<RectangleSelection>,
    SelectionState,
) {
    match sel {
        None => (None, SelectionState::Unchanged),
        Some(s) => {
            let r = s.extents.normalized();
            match first_hit(r, p, radius) {
                Some(m) => (
                    Some(RectangleSelection { modifier: Some(m), active: true, ..s }),
                    SelectionState::HandlesChanged,
                ),
                None => if r.contains_point(p) {
                    (
                        Some(
                            RectangleSelection {
                                modifier: Some(SelectionModifier::Center(p.0, p.1, s.extents)),
                                active: true,
                                ..s
                            },
                        ),
                        SelectionState::CenterChanged,
                    )
                } else {
                    (sel, SelectionState::Unchanged)
                },
            }
        },
    }
}

} // verus!
