use vstd::prelude::*;

use crate::args::{Args, Preselection};
use crate::geometry::{
    Extents, Rect, bounded, fits_i32, fold_extend, in_envelope, lemma_clamped_inside,
    lemma_bounded_unions_fit, lemma_fold_is_bounding_box, lemma_translation_keeps_size,
    monitor_area,
};
use crate::handles::{dragged, drag, drag_fits, grabbed_handle, hit_test, lemma_first_hit_is_handle};
use crate::selection::{
    lemma_flatten_idempotent, DisplaySelection, ExitState, RectangleSelection, Selection, SelectionModifier, SelectionState,
    WindowDescriptor,
};

verus! {

/// A key the session reacts to.
#[derive(Debug, Clone, Copy, PartialEq, Eq, Structural)]
pub enum Key {
    /// Leave without a result.
    Escape,
    /// Switch to the next selection mode.
    Tab,
    /// Leave with the current selection.
    Return,
    Other,
}

/// Bound on every coordinate the session stores or is handed: pointer
/// positions, drag corners, and window edges. It keeps every sum and
/// difference the session forms inside `i32`.
pub const POINT_LIMIT: i32 = 0x2000_0000;

/// Both coordinates of `p` lie within the supported range.
pub open spec fn point_bounded(p: (i32, i32)) -> bool {
    -POINT_LIMIT <= p.0 <= POINT_LIMIT && -POINT_LIMIT <= p.1 <= POINT_LIMIT
}

/// Both corners of `e` lie within the supported range.
pub open spec fn extents_bounded(e: Extents) -> bool {
    point_bounded((e.start_x, e.start_y)) && point_bounded((e.end_x, e.end_y))
}

/// A rectangle selection, and the move it may be in, lie within the
/// supported range.
pub open spec fn rect_sel_bounded(s: RectangleSelection) -> bool {
    extents_bounded(s.extents) && match s.modifier {
        Some(SelectionModifier::Center(ox, oy, snapshot)) => point_bounded((ox, oy))
            && extents_bounded(snapshot),
        _ => true,
    }
}

/// A window with a normal rect whose edges lie within the supported range.
pub open spec fn window_bounded(w: WindowDescriptor) -> bool {
    &&& w.rect.is_normal()
    &&& -POINT_LIMIT <= w.rect.x && w.rect.right() <= POINT_LIMIT
    &&& -POINT_LIMIT <= w.rect.y && w.rect.bottom() <= POINT_LIMIT
}

/// `w`, where present, is a window within the supported range.
pub open spec fn opt_window_bounded(w: Option<WindowDescriptor>) -> bool {
    match w {
        Some(w) => window_bounded(w),
        None => true,
    }
}

/// The first window of `ws`, from the `k`-th on, whose rect holds `p`.
pub open spec fn window_at_from(ws: Seq<WindowDescriptor>, p: (i32, i32), k: int) -> Option<
    WindowDescriptor,
>
    decreases ws.len() - k,
{
    if k >= ws.len() || k < 0 {
        None
    } else if ws[k].rect.contains_point(p) {
        Some(ws[k])
    } else {
        window_at_from(ws, p, k + 1)
    }
}

/// `Selection::from_window`: a window selection where there is a window, an
/// empty rectangle selection otherwise.
pub open spec fn from_window_spec(window: Option<WindowDescriptor>) -> Selection {
    match window {
        Some(w) => Selection::Window(Some(w)),
        None => Selection::Rectangle(None),
    }
}

/// The window a session starts on: the one the search pattern matched, the
/// first listed one under the mouse, or the focused one, as `pick` says.
pub open spec fn initial_window(
    windows: Seq<WindowDescriptor>,
    pick: Preselection,
    search_match: Option<WindowDescriptor>,
    focused: Option<WindowDescriptor>,
    mouse_position: (i32, i32),
) -> Option<WindowDescriptor> {
    match pick {
        Preselection::Search => search_match,
        Preselection::UnderCursor => window_at_from(windows, mouse_position, 0),
        Preselection::Focused => focused,
        Preselection::Nothing => None,
    }
}

/// The mode that the mode switch leads to; the selection of the mode left
/// behind is dropped.
pub open spec fn next_mode(sel: Selection, window_backend: bool) -> Selection {
    match sel {
        Selection::Rectangle(_) => Selection::Display(None),
        Selection::Display(_) => if window_backend {
            Selection::Window(None)
        } else {
            Selection::Rectangle(None)
        },
        Selection::Window(_) => Selection::Rectangle(None),
    }
}

/// `r` moved by minus the origin of `area`, into the coordinates of the
/// captured image.
pub open spec fn image_local(r: Rect<i32>, area: Rect<i32>) -> Rect<i32> {
    Rect { x: (r.x - area.x) as i32, y: (r.y - area.y) as i32, ..r }
}

/// The state of one selection session: the monitors, the windows that can be
/// picked, what is selected, and whether the session ends.
pub struct RuntimeData {
    /// Combined area of all monitors
    pub area: Rect<i32>,
    pub monitors: Vec<Rect<i32>>,
    pub windows: Vec<WindowDescriptor>,
    /// A compositor that lists windows is present, so window mode is offered.
    pub window_backend: bool,
    pub handle_radius: i32,
    pub selection: Selection,
    pub exit: ExitState,
}

impl RuntimeData {
    /// `sel` fits this session: its coordinates lie within range, a
    /// display index names a monitor, and window mode is only used with a
    /// window backend.
    pub open spec fn selection_ok(self, sel: Selection) -> bool {
        match sel {
            Selection::Rectangle(Some(s)) => rect_sel_bounded(s),
            Selection::Rectangle(None) => true,
            Selection::Display(Some(d)) => d.monitor < self.monitors@.len(),
            Selection::Display(None) => true,
            Selection::Window(w) => self.window_backend && match w {
                Some(w) => window_bounded(w),
                None => true,
            },
        }
    }

    pub open spec fn wf(self) -> bool {
        &&& in_envelope(self.area)
        &&& forall|i: int|
            0 <= i < self.monitors@.len() ==> (#[trigger] self.monitors@[i]).is_normal()
                && self.area.contains_rect(self.monitors@[i])
        &&& forall|i: int|
            0 <= i < self.windows@.len() ==> window_bounded(#[trigger] self.windows@[i])
        &&& self.selection_ok(self.selection)
    }

    /// What the session exits with on confirm: the flattened selection's
    /// rect, or the chosen monitor's, in image coordinates; no result when
    /// nothing is selected.
    pub open spec fn confirmed(self) -> ExitState {
        match self.selection.spec_flattened() {
            Selection::Rectangle(Some(s)) => ExitState::ExitWithSelection(
                image_local(s.extents.normalized(), self.area),
            ),
            Selection::Display(Some(d)) => ExitState::ExitWithSelection(
                image_local(self.monitors@[d.monitor as int], self.area),
            ),
            _ => ExitState::ExitOnly,
        }
    }

    /// The selection after a press at `p` on monitor `monitor`.
    pub open spec fn pressed(self, monitor: usize, p: (i32, i32)) -> Selection {
        let radius = self.handle_radius as int;
        match self.selection {
            Selection::Rectangle(sel) => {
                let (after, state) = hit_test(sel, p, radius);
                if state == SelectionState::Unchanged {
                    Selection::Rectangle(
                        Some(
                            RectangleSelection {
                                extents: Extents { start_x: p.0, start_y: p.1, end_x: p.0, end_y: p.1 },
                                modifier: None,
                                active: true,
                            },
                        ),
                    )
                } else {
                    Selection::Rectangle(after)
                }
            },
            Selection::Display(_) => Selection::Display(Some(DisplaySelection { monitor })),
            Selection::Window(_) => {
                let flat = match self.selection.spec_flattened() {
                    Selection::Rectangle(sel) => sel,
                    _ => None,
                };
                let (after, state) = hit_test(flat, p, radius);
                if state == SelectionState::HandlesChanged {
                    Selection::Rectangle(after)
                } else {
                    match window_at_from(self.windows@, p, 0) {
                        Some(w) => Selection::Window(Some(w)),
                        None => self.selection,
                    }
                }
            },
        }
    }

    /// The selection after the pointer moved to `p`.
    pub open spec fn moved(self, p: (i32, i32)) -> Selection {
        match self.selection {
            Selection::Rectangle(Some(s)) => if s.active {
                Selection::Rectangle(
                    Some(RectangleSelection { extents: dragged(s, p, self.area), ..s }),
                )
            } else {
                self.selection
            },
            _ => self.selection,
        }
    }

    /// A move of the whole rectangle to `p` lands within range; any other
    /// motion always does.
    pub open spec fn move_stays_bounded(self, p: (i32, i32)) -> bool {
        match self.selection {
            Selection::Rectangle(Some(s)) => (s.active && s.modifier matches Some(
                SelectionModifier::Center(..),
            )) ==> extents_bounded(dragged(s, p, self.area)),
            _ => true,
        }
    }

    /// The selection after the button was released.
    pub open spec fn released(self) -> Selection {
        match self.selection {
            Selection::Rectangle(Some(s)) => Selection::Rectangle(
                Some(RectangleSelection { active: false, ..s }),
            ),
            _ => self.selection,
        }
    }

    /// `other` differs from `self` in the selection and the exit state at most.
    pub open spec fn same_setup(self, other: Self) -> bool {
        &&& other.area == self.area
        &&& other.monitors@ == self.monitors@
        &&& other.windows@ == self.windows@
        &&& other.window_backend == self.window_backend
        &&& other.handle_radius == self.handle_radius
    }
}

impl RuntimeData {
    /// Hit-tests a press at `global_pos` against the selection's handles and
    /// body: a handle within `handle_radius` is grabbed (the first in order),
    /// else a press inside the rect starts a move; the selection is activated
    /// in both cases. Otherwise nothing changes.
    pub fn process_selection_handles(
        rect_sel: &mut Option<RectangleSelection>,
        global_pos: (i32, i32),
        handle_radius: i32,
    ) -> (r: SelectionState)
        requires
            match *old(rect_sel) {
                Some(s) => s.extents.spans_fit(),
                None => true,
            },
        ensures
            (*final(rect_sel), r) == hit_test(*old(rect_sel), global_pos, handle_radius as int),
    {
        match rect_sel {
            Some(selection) => {
                let rect = selection.extents.to_rect();
                match grabbed_handle(rect, global_pos, handle_radius) {
                    Some(modifier) => {
                        selection.modifier = Some(modifier);
                        selection.active = true;
                        SelectionState::HandlesChanged
                    },
                    None => {
                        if rect.contains(&global_pos) {
                            selection.modifier = Some(
                                SelectionModifier::Center(global_pos.0, global_pos.1, selection.extents),
                            );
                            selection.active = true;
                            SelectionState::CenterChanged
                        } else {
                            SelectionState::Unchanged
                        }
                    },
                }
            },
            None => SelectionState::Unchanged,
        }
    }

    /// The first window whose rect holds `p`.
    pub fn window_at(&self, p: (i32, i32)) -> (r: Option<WindowDescriptor>)
        ensures
            r == window_at_from(self.windows@, p, 0),
    {
        let mut k: usize = 0;
        while k < self.windows.len()
            invariant
                0 <= k <= self.windows@.len(),
                window_at_from(self.windows@, p, 0) == window_at_from(self.windows@, p, k as int),
            decreases self.windows@.len() - k,
        {
            if self.windows[k].rect.contains(&p) {
                return Some(self.windows[k]);
            }
            k += 1;
        }
        None
    }
}

/// A drag to a point within range has its arithmetic in `i32`; a drag that
/// is not a move of the whole rectangle keeps the selection within range.
proof fn lemma_drag_bounded(s: RectangleSelection, p: (i32, i32), area: Rect<i32>)
    requires
        in_envelope(area),
        rect_sel_bounded(s),
        point_bounded(p),
    ensures
        drag_fits(s, p, area),
        !(s.modifier matches Some(SelectionModifier::Center(..))) ==> rect_sel_bounded(
            RectangleSelection { extents: dragged(s, p, area), ..s },
        ),
        extents_bounded(dragged(s, p, area)) ==> rect_sel_bounded(
            RectangleSelection { extents: dragged(s, p, area), ..s },
        ),
{
    match s.modifier {
        Some(SelectionModifier::Center(ox, oy, snapshot)) => {
            let dx = p.0 - ox;
            let dy = p.1 - oy;
            lemma_translation_keeps_size(snapshot, dx, dy, area);
        },
        _ => {},
    }
}

/// A press within range keeps a rectangle selection within range.
proof fn lemma_hit_test_bounded(sel: Option<RectangleSelection>, p: (i32, i32), radius: int)
    requires
        point_bounded(p),
        match sel {
            Some(s) => extents_bounded(s.extents) && !(s.modifier matches Some(
                SelectionModifier::Center(..),
            )) || rect_sel_bounded(s),
            None => true,
        },
    ensures
        match hit_test(sel, p, radius).0 {
            Some(s) => rect_sel_bounded(s),
            None => true,
        },
{
    assert((p.0, p.1) == p);
    if let Some(s) = sel {
        lemma_first_hit_is_handle(s.extents.normalized(), p, radius, 0);
    }
}

impl RuntimeData {
    /// A session over `monitors` and the compositor's `windows`. The combined
    /// area is `extend` folded over the monitors. Where a window backend is
    /// present, the window that `args` asks for is selected in advance: the
    /// one the search pattern matched, the one under the mouse, or the focused
    /// one; with `auto_capture` it is confirmed at once.
    pub fn new(
        monitors: Vec<Rect<i32>>,
        windows: Vec<WindowDescriptor>,
        window_backend: bool,
        handle_radius: i32,
        args: &Args,
        search_match: Option<WindowDescriptor>,
        focused: Option<WindowDescriptor>,
        mouse_position: (i32, i32),
    ) -> (r: Self)
        requires
            forall|i: int|
                0 <= i < monitors@.len() ==> bounded(#[trigger] monitors@[i])
                    && !monitors@[i].is_zero(),
            forall|i: int| 0 <= i < windows@.len() ==> window_bounded(#[trigger] windows@[i]),
            opt_window_bounded(search_match),
            opt_window_bounded(focused),
        ensures
            r.wf(),
            r.area == fold_extend(monitors@),
            r.monitors@ == monitors@,
            r.windows@ == windows@,
            r.window_backend == window_backend,
            r.handle_radius == handle_radius,
            ({
                let pick = initial_window(
                    windows@,
                    args.spec_preselection(),
                    search_match,
                    focused,
                    mouse_position,
                );
                &&& r.selection == if window_backend {
                    from_window_spec(pick)
                } else {
                    Selection::Rectangle(None)
                }
                &&& r.exit == match pick {
                    Some(w) => if window_backend && args.auto_capture {
                        ExitState::ExitWithSelection(image_local(w.rect, r.area))
                    } else {
                        ExitState::Running
                    },
                    None => ExitState::Running,
                }
            }),
    {
        let area = monitor_area(&monitors);
        proof {
            if monitors@.len() > 0 {
                lemma_bounded_unions_fit(monitors@);
                lemma_fold_is_bounding_box(monitors@);
            }
        }
        let mut session = RuntimeData {
            area,
            monitors,
            windows,
            window_backend,
            handle_radius,
            selection: Selection::Rectangle(None),
            exit: ExitState::Running,
        };
        if window_backend {
            let pick = match args.preselection() {
                Preselection::Search => search_match,
                Preselection::UnderCursor => session.window_at(mouse_position),
                Preselection::Focused => focused,
                Preselection::Nothing => None,
            };
            proof {
                lemma_window_at_in_list(session.windows@, mouse_position, 0);
            }
            session.preselect(pick, args.auto_capture);
        }
        session
    }

    /// Switches to the next mode: Rectangle, Display, then Window where a
    /// window backend is present, then Rectangle again.
    pub fn cycle_mode(&mut self)
        requires
            old(self).wf(),
        ensures
            final(self).wf(),
            old(self).same_setup(*final(self)),
            final(self).selection == next_mode(old(self).selection, old(self).window_backend),
            final(self).exit == old(self).exit,
    {
        self.selection = match self.selection {
            Selection::Rectangle(_) => Selection::Display(None),
            Selection::Display(_) => if self.window_backend {
                Selection::Window(None)
            } else {
                Selection::Rectangle(None)
            },
            Selection::Window(_) => Selection::Rectangle(None),
        };
    }

    /// Ends the session without a result.
    pub fn cancel(&mut self)
        requires
            old(self).wf(),
        ensures
            final(self).wf(),
            old(self).same_setup(*final(self)),
            final(self).selection == old(self).selection,
            final(self).exit == ExitState::ExitOnly,
    {
        self.exit = ExitState::ExitOnly;
    }

    /// Ends the session with the flattened selection's rect, or the chosen
    /// monitor's, in image coordinates; without a result when nothing is
    /// selected.
    pub fn confirm(&mut self)
        requires
            old(self).wf(),
        ensures
            final(self).wf(),
            old(self).same_setup(*final(self)),
            final(self).selection == old(self).selection,
            final(self).exit == old(self).confirmed(),
    {
        let flattened = self.selection.flattened();
        match flattened {
            Selection::Rectangle(Some(selection)) => {
                let mut rect = selection.extents.to_rect();
                rect.x = rect.x - self.area.x;
                rect.y = rect.y - self.area.y;
                self.exit = ExitState::ExitWithSelection(rect);
            },
            Selection::Display(Some(selection)) => {
                let mut rect = self.monitors[selection.monitor];
                rect.x = rect.x - self.area.x;
                rect.y = rect.y - self.area.y;
                self.exit = ExitState::ExitWithSelection(rect);
            },
            _ => {
                self.exit = ExitState::ExitOnly;
            },
        }
    }

    /// Reacts to a key: Escape cancels, Tab switches mode, Return confirms.
    pub fn press_key(&mut self, key: Key)
        requires
            old(self).wf(),
        ensures
            final(self).wf(),
            old(self).same_setup(*final(self)),
            key == Key::Escape ==> final(self).selection == old(self).selection,
            key == Key::Escape ==> final(self).exit == ExitState::ExitOnly,
            key == Key::Tab ==> final(self).selection == next_mode(old(self).selection, old(self).window_backend),
            key == Key::Tab ==> final(self).exit == old(self).exit,
            key == Key::Return ==> final(self).selection == old(self).selection,
            key == Key::Return ==> final(self).exit == old(self).confirmed(),
            key == Key::Other ==> final(self).selection == old(self).selection,
            key == Key::Other ==> final(self).exit == old(self).exit,
    {
        match key {
            Key::Escape => self.cancel(),
            Key::Tab => self.cycle_mode(),
            Key::Return => self.confirm(),
            Key::Other => {},
        }
    }

    /// A button press at global position `p` on monitor `monitor`. In
    /// rectangle mode it grabs a handle or starts a move of the current
    /// rectangle, else starts a new one at `p`; in display mode it picks the
    /// monitor; in window mode a grabbed handle turns the picked window into a
    /// rectangle selection, else the window under `p`, if any, is picked.
    pub fn press(&mut self, monitor: usize, p: (i32, i32))
        requires
            old(self).wf(),
            monitor < old(self).monitors@.len(),
            point_bounded(p),
        ensures
            final(self).wf(),
            old(self).same_setup(*final(self)),
            final(self).selection == old(self).pressed(monitor, p),
            final(self).exit == old(self).exit,
    {
        proof {
            assert((p.0, p.1) == p);
        }
        match self.selection {
            Selection::Rectangle(current) => {
                let mut sel = current;
                proof {
                    lemma_hit_test_bounded(sel, p, self.handle_radius as int);
                }
                let state = Self::process_selection_handles(&mut sel, p, self.handle_radius);
                match state {
                    SelectionState::Unchanged => {
                        self.selection = Selection::Rectangle(
                            Some(RectangleSelection::new(p.0, p.1)),
                        );
                    },
                    _ => {
                        self.selection = Selection::Rectangle(sel);
                    },
                }
            },
            Selection::Display(_) => {
                self.selection = Selection::Display(Some(DisplaySelection::new(monitor)));
            },
            Selection::Window(_) => {
                let flattened = self.selection.flattened();
                let mut sel = match flattened {
                    Selection::Rectangle(r) => r,
                    _ => None,
                };
                proof {
                    lemma_hit_test_bounded(sel, p, self.handle_radius as int);
                }
                let state = Self::process_selection_handles(&mut sel, p, self.handle_radius);
                match state {
                    SelectionState::HandlesChanged => {
                        self.selection = Selection::Rectangle(sel);
                    },
                    _ => {
                        let found = self.window_at(p);
                        proof {
                            lemma_window_at_in_list(self.windows@, p, 0);
                        }
                        match found {
                            Some(w) => {
                                self.selection = Selection::Window(Some(w));
                            },
                            None => {},
                        }
                    },
                }
            },
        }
    }

    /// Whether `motion` can follow the pointer to `p`: `p` is within range,
    /// and a move of the whole rectangle lands within range.
    pub fn can_move_to(&self, p: (i32, i32)) -> (r: bool)
        requires
            self.wf(),
        ensures
            r == (point_bounded(p) && self.move_stays_bounded(p)),
    {
        if p.0 < -POINT_LIMIT || p.0 > POINT_LIMIT || p.1 < -POINT_LIMIT || p.1 > POINT_LIMIT {
            return false;
        }
        match self.selection {
            Selection::Rectangle(Some(current)) => {
                match current.modifier {
                    Some(SelectionModifier::Center(_, _, _)) => {
                        if !current.active {
                            return true;
                        }
                        let mut sel = current;
                        proof {
                            lemma_drag_bounded(sel, p, self.area);
                        }
                        drag(&mut sel, p, &self.area);
                        let e = sel.extents;
                        -POINT_LIMIT <= e.start_x && e.start_x <= POINT_LIMIT && -POINT_LIMIT
                            <= e.start_y && e.start_y <= POINT_LIMIT && -POINT_LIMIT <= e.end_x
                            && e.end_x <= POINT_LIMIT && -POINT_LIMIT <= e.end_y && e.end_y
                            <= POINT_LIMIT
                    },
                    _ => true,
                }
            },
            _ => true,
        }
    }

    /// The pointer moved to global position `p`, which may lie outside the
    /// desktop: an active drag follows it. Edge, corner and fresh drags take
    /// `p` as it is; a move of the whole rectangle is clamped into the area.
    pub fn motion(&mut self, p: (i32, i32))
        requires
            old(self).wf(),
            point_bounded(p),
            old(self).move_stays_bounded(p),
        ensures
            final(self).wf(),
            old(self).same_setup(*final(self)),
            final(self).selection == old(self).moved(p),
            final(self).exit == old(self).exit,
    {
        match self.selection {
            Selection::Rectangle(Some(current)) => {
                if current.active {
                    let mut sel = current;
                    proof {
                        lemma_drag_bounded(sel, p, self.area);
                    }
                    drag(&mut sel, p, &self.area);
                    self.selection = Selection::Rectangle(Some(sel));
                }
            },
            _ => {},
        }
    }

    /// The button was released: the drag ends, the grabbed handle is kept.
    pub fn release(&mut self)
        requires
            old(self).wf(),
        ensures
            final(self).wf(),
            old(self).same_setup(*final(self)),
            final(self).selection == old(self).released(),
            final(self).exit == old(self).exit,
    {
        match self.selection {
            Selection::Rectangle(Some(current)) => {
                let mut sel = current;
                sel.active = false;
                self.selection = Selection::Rectangle(Some(sel));
            },
            _ => {},
        }
    }
}

impl RuntimeData {
    /// Starts the session on `window`, where a window backend is present;
    /// without a window nothing is selected. With `auto_capture`, a picked
    /// window is confirmed at once.
    pub fn preselect(&mut self, window: Option<WindowDescriptor>, auto_capture: bool)
        requires
            old(self).wf(),
            opt_window_bounded(window),
        ensures
            final(self).wf(),
            old(self).same_setup(*final(self)),
            final(self).selection == if old(self).window_backend {
                from_window_spec(window)
            } else {
                old(self).selection
            },
            final(self).exit == match window {
                Some(w) => if old(self).window_backend && auto_capture {
                    ExitState::ExitWithSelection(image_local(w.rect, old(self).area))
                } else {
                    old(self).exit
                },
                None => old(self).exit,
            },
    {
        if !self.window_backend {
            return ;
        }
        self.selection = Selection::from_window(window);
        proof {
            if let Some(w) = window {
                lemma_confirm_window(*self, w);
            }
        }
        if auto_capture {
            match self.selection.flattened() {
                Selection::Rectangle(Some(_)) => self.confirm(),
                _ => {},
            }
        }
    }
}

/// Converts a position on a monitor into global coordinates by adding the
/// monitor's origin; `None` where the sum leaves `i32`.
pub fn to_global(local: (i32, i32), monitor: &Rect<i32>) -> (r: Option<(i32, i32)>)
    ensures
        r.is_some() == (fits_i32(local.0 + monitor.x) && fits_i32(local.1 + monitor.y)),
        r.is_some() ==> r.unwrap().0 == local.0 + monitor.x && r.unwrap().1 == local.1 + monitor.y,
{
    let x = local.0 as i64 + monitor.x as i64;
    let y = local.1 as i64 + monitor.y as i64;
    if x < i32::MIN as i64 || x > i32::MAX as i64 || y < i32::MIN as i64 || y > i32::MAX as i64 {
        None
    } else {
        Some((x as i32, y as i32))
    }
}

/// Confirming a picked window exits with exactly the window's rect, moved
/// into image coordinates.
pub proof fn lemma_confirm_window(session: RuntimeData, w: WindowDescriptor)
    requires
        session.wf(),
        session.selection == Selection::Window(Some(w)),
    ensures
        session.confirmed() == ExitState::ExitWithSelection(image_local(w.rect, session.area)),
{
    lemma_flatten_idempotent(session.selection);
}

/// A move of a rectangle no larger than the desktop, to any point within
/// range, lands inside the desktop with its size kept, so `motion` accepts it.
pub proof fn lemma_small_move_stays_bounded(session: RuntimeData, p: (i32, i32))
    requires
        session.wf(),
        point_bounded(p),
        match session.selection {
            Selection::Rectangle(Some(s)) => match s.modifier {
                Some(SelectionModifier::Center(_, _, snapshot)) => snapshot.normalized().width
                    <= session.area.width && snapshot.normalized().height <= session.area.height,
                _ => true,
            },
            _ => true,
        },
    ensures
        session.move_stays_bounded(p),
        match session.selection {
            Selection::Rectangle(Some(s)) => match s.modifier {
                Some(SelectionModifier::Center(ox, oy, snapshot)) => {
                    let moved = dragged(s, p, session.area).normalized();
                    &&& session.area.contains_rect(moved)
                    &&& moved.width == snapshot.normalized().width
                    &&& moved.height == snapshot.normalized().height
                },
                _ => true,
            },
            _ => true,
        },
{
    match session.selection {
        Selection::Rectangle(Some(s)) => match s.modifier {
            Some(SelectionModifier::Center(ox, oy, snapshot)) => {
                let dx = p.0 - ox;
                let dy = p.1 - oy;
                lemma_drag_bounded(s, p, session.area);
                lemma_translation_keeps_size(snapshot, dx, dy, session.area);
                lemma_clamped_inside(snapshot.translated(dx, dy), session.area);
            },
            _ => {},
        },
        _ => {},
    }
}

/// A window found by position is one of the list.
proof fn lemma_window_at_in_list(ws: Seq<WindowDescriptor>, p: (i32, i32), k: int)
    requires
        0 <= k,
    ensures
        match window_at_from(ws, p, k) {
            Some(w) => exists|i: int| 0 <= i < ws.len() && ws[i] == w,
            None => true,
        },
    decreases ws.len() - k,
{
    if k < ws.len() && !ws[k].rect.contains_point(p) {
        lemma_window_at_in_list(ws, p, k + 1);
    }
}

} // verus!
