//! The selection core of an interactive screenshot tool: rectangle, display
//! and window selections over a multi-monitor desktop, the handle and drag
//! engine that edits them, and the session that turns key and pointer events
//! into a final rectangle.
use vstd::prelude::*;

pub mod args;
pub mod geometry;
pub mod handles;
pub mod selection;
pub mod session;

pub use args::{Args, Preselection, SaveLocation};
pub use geometry::{COORD_LIMIT, Extents, Rect, monitor_area};
pub use selection::{
    DisplaySelection, ExitState, RectangleSelection, Selection, SelectionModifier, SelectionState,
    WindowDescriptor,
};
pub use session::{Key, POINT_LIMIT, RuntimeData, to_global};

verus! {

} // verus!
