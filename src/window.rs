use vstd::prelude::*;

use crate::error::CaptureError;

verus! {

/// The two presentation properties that ghost mode controls on a window.
#[derive(Clone, Copy, Debug, PartialEq, Eq, Structural)]
pub struct WindowPresentation {
    /// The window draws a drop shadow.
    pub shadow: bool,
    /// Pointer events pass through the window to what lies below it.
    pub ignore_cursor_events: bool,
}

impl WindowPresentation {
    /// The presentation after ghost mode is switched on (`ghost`) or off.
    pub open spec fn ghosted(self, ghost: bool) -> WindowPresentation {
        WindowPresentation { shadow: !ghost, ignore_cursor_events: ghost }
    }

    /// The presentation that ghost mode asks for: no shadow and click-through
    /// when `ghost` holds, a shadow and normal input otherwise.
    pub fn for_ghost_mode(ghost: bool) -> (r: WindowPresentation)
        ensures
            r.shadow == !ghost,
            r.ignore_cursor_events == ghost,
    {
        WindowPresentation { shadow: !ghost, ignore_cursor_events: ghost }
    }

    /// Switches ghost mode on or off.
    pub fn set_ghost_mode(&mut self, ghost: bool)
        ensures
            *final(self) == old(self).ghosted(ghost),
    {
        *self = WindowPresentation::for_ghost_mode(ghost);
    }
}

/// Setting ghost mode a second time with the same flag changes nothing.
pub proof fn lemma_ghost_mode_idempotent(state: WindowPresentation, ghost: bool)
    ensures
        state.ghosted(ghost).ghosted(ghost) == state.ghosted(ghost),
{
}

/// Finds the first window whose title is `label`; fails with
/// `WindowNotFound` when none is.
pub fn find_window_by_title(titles: &Vec<String>, label: &String) -> (r: Result<usize, CaptureError>)
    ensures
        match r {
            Ok(i) => i < titles@.len() && titles@[i as int]@ == label@ && forall|k: int|
                0 <= k < i ==> titles@[k]@ != label@,
            Err(e) => e == CaptureError::WindowNotFound && forall|k: int|
                0 <= k < titles@.len() ==> titles@[k]@ != label@,
        },
{
    let mut i: usize = 0;
    while i < titles.len()
        invariant
            i <= titles@.len(),
            forall|k: int| 0 <= k < i ==> titles@[k]@ != label@,
        decreases titles@.len() - i,
    {
        if titles[i] == *label {
            return Ok(i);
        }
        i = i + 1;
    }
    Err(CaptureError::WindowNotFound)
}

/// The label of the window whose closing ends the application.
pub open spec fn main_window_label() -> Seq<char> {
    "main"@
}

/// Whether the destruction of the window labelled `label` shuts the
/// application down: only the main window's does.
pub fn closes_application(label: &str) -> (r: bool)
    ensures
        r == (label@ == main_window_label()),
{
    let own = String::from_str(label);
    let main = String::from_str("main");
    own == main
}

} // verus!
