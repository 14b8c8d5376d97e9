use vstd::prelude::*;

use crate::geometry::{Extents, Rect};

verus! {

/// Which part of a rectangle selection a drag moves.
#[derive(Debug, Clone, Copy, PartialEq, Eq, Structural)]
pub enum SelectionModifier {
    Left,
    Right,
    Top,
    Bottom,
    TopRight,
    BottomRight,
    BottomLeft,
    TopLeft,
    /// A move of the whole rectangle: the point where the drag started and the
    /// extents at that moment.
    Center(i32, i32, Extents),
}

/// A free-form rectangle, with the drag acting on it.
#[derive(Debug, Clone, Copy, PartialEq, Eq, Structural)]
pub struct RectangleSelection {
    pub extents: Extents,
    pub modifier: Option<SelectionModifier>,
    /// A button is held and a drag is in progress.
    pub active: bool,
}

impl RectangleSelection {
    /// A fresh drag anchored at `(x, y)`.
    pub fn new(x: i32, y: i32) -> (r: Self)
        ensures
            r.extents == (Extents { start_x: x, start_y: y, end_x: x, end_y: y }),
            r.modifier.is_none(),
            r.active,
    {
        Self { extents: Extents { start_x: x, start_y: y, end_x: x, end_y: y }, modifier: None, active: true }
    }
}

/// A whole monitor, named by its index in the session's monitor list.
#[derive(Debug, Clone, Copy, PartialEq, Eq, Structural)]
pub struct DisplaySelection {
    pub monitor: usize,
}

impl DisplaySelection {
    pub fn new(monitor: usize) -> (r: Self)
        ensures
            r.monitor == monitor,
    {
        Self { monitor }
    }
}

/// A window reported by the compositor: its rect in global coordinates and
/// the compositor's identifier for it.
#[derive(Debug, Clone, Copy, PartialEq, Eq, Structural)]
pub struct WindowDescriptor {
    pub rect: Rect<i32>,
    pub id: u64,
}

/// What is currently selected, in one of three modes.
#[derive(Debug, Clone, Copy, PartialEq, Eq, Structural)]
pub enum Selection {
    Rectangle(Option<RectangleSelection>),
    Display(Option<DisplaySelection>),
    Window(Option<WindowDescriptor>),
}

impl Default for Selection {
    fn default() -> (r: Self)
        ensures
            r == Selection::Rectangle(None),
    {
        Selection::Rectangle(None)
    }
}

impl Selection {
    /// `flattened` can turn a picked window's rect into extents.
    pub open spec fn flatten_fits(self) -> bool {
        match self {
            Selection::Window(Some(w)) => w.rect.edges_fit(),
            _ => true,
        }
    }

    /// A window selection as the equivalent rectangle selection; the other
    /// modes unchanged.
    pub open spec fn spec_flattened(self) -> Selection {
        match self {
            Selection::Window(Some(w)) => Selection::Rectangle(
                Some(
                    RectangleSelection {
                        extents: Extents {
                            start_x: w.rect.x,
                            start_y: w.rect.y,
                            end_x: w.rect.right() as i32,
                            end_y: w.rect.bottom() as i32,
                        },
                        modifier: None,
                        active: false,
                    },
                ),
            ),
            Selection::Window(None) => Selection::Rectangle(None),
            _ => self,
        }
    }

    pub fn flattened(&self) -> (r: Selection)
        requires
            self.flatten_fits(),
        ensures
            r == self.spec_flattened(),
    {
        match self {
            Selection::Window(Some(window)) => Selection::Rectangle(
                Some(
                    RectangleSelection {
                        extents: window.rect.to_extents(),
                        modifier: None,
                        active: false,
                    },
                ),
            ),
            Selection::Window(None) => Selection::Rectangle(None),
            Selection::Rectangle(r) => Selection::Rectangle(*r),
            Selection::Display(d) => Selection::Display(*d),
        }
    }

    pub fn from_window(window: Option<WindowDescriptor>) -> (r: Self)
        ensures
            r == (match window {
                Some(w) => Selection::Window(Some(w)),
                None => Selection::Rectangle(None),
            }),
    {
        match window {
            Some(window) => Selection::Window(Some(window)),
            None => Selection::Rectangle(None),
        }
    }
}

/// Flattening twice is flattening once; a picked window flattens to a
/// rectangle selection whose normalized rect is the window's rect.
pub proof fn lemma_flatten_idempotent(s: Selection)
    requires
        s.flatten_fits(),
    ensures
        s.spec_flattened().flatten_fits(),
        s.spec_flattened().spec_flattened() == s.spec_flattened(),
        s.spec_flattened() is Rectangle || s.spec_flattened() is Display,
        (s is Rectangle || s is Display) ==> s.spec_flattened() == s,
        match s {
            Selection::Window(Some(w)) => w.rect.is_normal() ==> match s.spec_flattened() {
                Selection::Rectangle(Some(sel)) => sel.extents.spans_fit()
                    && sel.extents.normalized() == w.rect,
                _ => false,
            },
            _ => true,
        },
{
}

/// What a press did to an existing rectangle selection.
#[derive(Debug, Clone, Copy, PartialEq, Eq, Structural)]
pub enum SelectionState {
    CenterChanged,
    HandlesChanged,
    Unchanged,
}

/// Whether the session ends, and with what.
#[derive(Debug, Clone, Copy, PartialEq, Eq, Structural)]
pub enum ExitState {
    /// Not going to exit
    Running,
    /// Only exit
    ExitOnly,
    /// Exit and perform actions on the selection
    ExitWithSelection(Rect<i32>),
}

} // verus!
