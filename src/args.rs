use vstd::prelude::*;

verus! {

/// Where the capture is written besides the clipboard or standard output.
#[derive(Debug, Clone)]
pub enum SaveLocation {
    /// The path to save the image to
    Path { path: String },
    /// The directory to save the image to with a generated name
    Directory { path: String },
}

/// The options a session is started with.
#[derive(Debug, Clone)]
pub struct Args {
    /// Copy the screenshot after exit
    pub copy: bool,
    /// Output the screenshot into stdout in PNG format
    pub stdout: bool,
    /// Save the image into a file
    pub save: Option<SaveLocation>,
    /// Pre-selects a window by its class, title or initial versions of the two.
    /// The pattern is matched by the compositor backend.
    pub window_search: Option<String>,
    /// Pre-selects the window under the mouse cursor.
    pub window_under_cursor: bool,
    /// Pre-selects the currently-focused window.
    pub active_window: bool,
    /// Automatically captures the pre-selected window, skipping interactive mode.
    pub auto_capture: bool,
}

/// How the window that starts the session is found.
#[derive(Debug, Clone, Copy, PartialEq, Eq, Structural)]
pub enum Preselection {
    /// By the search pattern.
    Search,
    /// Under the mouse cursor.
    UnderCursor,
    /// The focused window.
    Focused,
    /// No window is picked in advance.
    Nothing,
}

impl Args {
    /// The way a window is picked in advance: a search pattern comes first,
    /// then the window under the cursor, then the focused window.
    pub open spec fn spec_preselection(&self) -> Preselection {
        if self.window_search is Some {
            Preselection::Search
        } else if self.window_under_cursor {
            Preselection::UnderCursor
        } else if self.active_window {
            Preselection::Focused
        } else {
            Preselection::Nothing
        }
    }

    /// The way a window is picked in advance: a search pattern comes first,
    /// then the window under the cursor, then the focused window.
    pub fn preselection(&self) -> (r: Preselection)
        ensures
            r == self.spec_preselection(),
            self.window_search.is_some() ==> r == Preselection::Search,
            self.window_search.is_none() && self.window_under_cursor ==> r
                == Preselection::UnderCursor,
            self.window_search.is_none() && !self.window_under_cursor && self.active_window ==> r
                == Preselection::Focused,
            self.window_search.is_none() && !self.window_under_cursor && !self.active_window ==> r
                == Preselection::Nothing,
    {
        match &self.window_search {
            Some(_) => Preselection::Search,
            None => if self.window_under_cursor {
                Preselection::UnderCursor
            } else if self.active_window {
                Preselection::Focused
            } else {
                Preselection::Nothing
            },
        }
    }
}

} // verus!
