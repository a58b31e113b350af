use vstd::prelude::*;
use crate::core_types::Rectangle;
use crate::text::chars_eq;
use crate::text::to_chars;

verus! {

/// The state flags of a managed window.
#[derive(Debug, Clone, Copy)]
pub struct WindowState {
    pub mapped: bool,
    pub iconic: bool,
    pub shaded: bool,
    pub maximized_vert: bool,
    pub maximized_horz: bool,
    pub fullscreen: bool,
    pub sticky: bool,
    pub hidden: bool,
    pub above: bool,
    pub below: bool,
    pub skip_taskbar: bool,
    pub skip_pager: bool,
    pub demands_attention: bool,
    pub modal: bool,
    pub rescaling: bool,
    pub position: Option<Rectangle>,
    pub workspace: u32,
    pub previous_workspace: u32,
}

/// The flag that a state name sets (its own name or its
/// `_NET_WM_STATE_*` atom name): shaded 0, maximized vertically 1, maximized
/// horizontally 2, fullscreen 3, sticky 4, hidden 5, above 6, below 7, skip
/// taskbar 8, skip pager 9, demands attention 10, modal 11; -1 for none.
#[verifier::opaque]
pub open spec fn state_flag(name: Seq<char>) -> int {
    if name == "shaded"@ {
        0
    } else if name == "maximized_vert"@ || name == "_NET_WM_STATE_MAXIMIZED_VERT"@ {
        1
    } else if name == "maximized_horz"@ || name == "_NET_WM_STATE_MAXIMIZED_HORZ"@ {
        2
    } else if name == "fullscreen"@ || name == "_NET_WM_STATE_FULLSCREEN"@ {
        3
    } else if name == "sticky"@ || name == "_NET_WM_STATE_STICKY"@ {
        4
    } else if name == "hidden"@ || name == "_NET_WM_STATE_HIDDEN"@ {
        5
    } else if name == "above"@ || name == "_NET_WM_STATE_ABOVE"@ {
        6
    } else if name == "below"@ || name == "_NET_WM_STATE_BELOW"@ {
        7
    } else if name == "skip_taskbar"@ || name == "_NET_WM_STATE_SKIP_TASKBAR"@ {
        8
    } else if name == "skip_pager"@ || name == "_NET_WM_STATE_SKIP_PAGER"@ {
        9
    } else if name == "demands_attention"@ || name == "_NET_WM_STATE_DEMANDS_ATTENTION"@ {
        10
    } else if name == "modal"@ {
        11
    } else {
        -1
    }
}

/// `s` with flag number `f` (see `state_flag`) set to `v`.
pub open spec fn with_flag(s: WindowState, f: int, v: bool) -> WindowState {
    WindowState {
        shaded: if f == 0 { v } else { s.shaded },
        maximized_vert: if f == 1 { v } else { s.maximized_vert },
        maximized_horz: if f == 2 { v } else { s.maximized_horz },
        fullscreen: if f == 3 { v } else { s.fullscreen },
        sticky: if f == 4 { v } else { s.sticky },
        hidden: if f == 5 { v } else { s.hidden },
        above: if f == 6 { v } else { s.above },
        below: if f == 7 { v } else { s.below },
        skip_taskbar: if f == 8 { v } else { s.skip_taskbar },
        skip_pager: if f == 9 { v } else { s.skip_pager },
        demands_attention: if f == 10 { v } else { s.demands_attention },
        modal: if f == 11 { v } else { s.modal },
        ..s
    }
}

fn flag_of(state: &str) -> (r: i32)
    ensures
        r == state_flag(state@),
{
    reveal(state_flag);
    let s = to_chars(state);
    if chars_eq(&s, "shaded") {
        0
    } else if chars_eq(&s, "maximized_vert") || chars_eq(&s, "_NET_WM_STATE_MAXIMIZED_VERT") {
        1
    } else if chars_eq(&s, "maximized_horz") || chars_eq(&s, "_NET_WM_STATE_MAXIMIZED_HORZ") {
        2
    } else if chars_eq(&s, "fullscreen") || chars_eq(&s, "_NET_WM_STATE_FULLSCREEN") {
        3
    } else if chars_eq(&s, "sticky") || chars_eq(&s, "_NET_WM_STATE_STICKY") {
        4
    } else if chars_eq(&s, "hidden") || chars_eq(&s, "_NET_WM_STATE_HIDDEN") {
        5
    } else if chars_eq(&s, "above") || chars_eq(&s, "_NET_WM_STATE_ABOVE") {
        6
    } else if chars_eq(&s, "below") || chars_eq(&s, "_NET_WM_STATE_BELOW") {
        7
    } else if chars_eq(&s, "skip_taskbar") || chars_eq(&s, "_NET_WM_STATE_SKIP_TASKBAR") {
        8
    } else if chars_eq(&s, "skip_pager") || chars_eq(&s, "_NET_WM_STATE_SKIP_PAGER") {
        9
    } else if chars_eq(&s, "demands_attention") || chars_eq(&s, "_NET_WM_STATE_DEMANDS_ATTENTION") {
        10
    } else if chars_eq(&s, "modal") {
        11
    } else {
        -1
    }
}

impl WindowState {
    /// All flags off, no saved position, workspace 0.
    pub fn new() -> (r: Self)
        ensures
            !r.mapped && !r.iconic && !r.shaded && !r.maximized_vert && !r.maximized_horz
                && !r.fullscreen && !r.sticky && !r.hidden && !r.above && !r.below
                && !r.skip_taskbar && !r.skip_pager && !r.demands_attention && !r.modal
                && !r.rescaling,
            r.position is None,
            r.workspace == 0,
            r.previous_workspace == 0,
    {
        WindowState {
            mapped: false,
            iconic: false,
            shaded: false,
            maximized_vert: false,
            maximized_horz: false,
            fullscreen: false,
            sticky: false,
            hidden: false,
            above: false,
            below: false,
            skip_taskbar: false,
            skip_pager: false,
            demands_attention: false,
            modal: false,
            rescaling: false,
            position: None,
            workspace: 0,
            previous_workspace: 0,
        }
    }

    /// Set the flag that `state` names to `enable`; other names change
    /// nothing.
    pub fn set_state(&mut self, state: &str, enable: bool)
        ensures
            *final(self) == with_flag(*old(self), state_flag(state@), enable),
    {
        let f = flag_of(state);
        let n = WindowState {
            shaded: if f == 0 { enable } else { self.shaded },
            maximized_vert: if f == 1 { enable } else { self.maximized_vert },
            maximized_horz: if f == 2 { enable } else { self.maximized_horz },
            fullscreen: if f == 3 { enable } else { self.fullscreen },
            sticky: if f == 4 { enable } else { self.sticky },
            hidden: if f == 5 { enable } else { self.hidden },
            above: if f == 6 { enable } else { self.above },
            below: if f == 7 { enable } else { self.below },
            skip_taskbar: if f == 8 { enable } else { self.skip_taskbar },
            skip_pager: if f == 9 { enable } else { self.skip_pager },
            demands_attention: if f == 10 { enable } else { self.demands_attention },
            modal: if f == 11 { enable } else { self.modal },
            mapped: self.mapped,
            iconic: self.iconic,
            rescaling: self.rescaling,
            position: self.position,
            workspace: self.workspace,
            previous_workspace: self.previous_workspace,
        };
        *self = n;
    }

    /// Remember a position to come back to.
    pub fn save_position(&mut self, rect: Rectangle)
        ensures
            *final(self) == (WindowState { position: Some(rect), ..*old(self) }),
    {
        self.position = Some(rect);
    }

    /// The position remembered last, if any.
    pub fn restore_position(&self) -> (r: Option<Rectangle>)
        ensures
            r == self.position,
    {
        self.position
    }
}

impl Default for WindowState {
    fn default() -> (r: Self)
        ensures
            !r.mapped && !r.iconic && !r.shaded && !r.maximized_vert && !r.maximized_horz
                && !r.fullscreen && !r.sticky && !r.hidden && !r.above && !r.below
                && !r.skip_taskbar && !r.skip_pager && !r.demands_attention && !r.modal
                && !r.rescaling,
            r.position is None,
            r.workspace == 0,
            r.previous_workspace == 0,
    {
        Self::new()
    }
}

} // verus!
