//! Client windows, their state flags, and title-bar buttons.

pub mod client;
pub mod frame;
pub mod state;

pub use self::client::{WinClient, WindowId, WindowType};
pub use self::frame::{ButtonType, FrameButton};
pub use self::state::WindowState;

use vstd::prelude::*;
use crate::core_types::rectangle::as_i16;

verus! {

/// A client's size hints (`WM_NORMAL_HINTS`): minimum and maximum size,
/// resize increments and base size. The aspect ratios of the hints are not
/// kept here.
#[derive(Clone, Copy, Debug, PartialEq, Eq, Structural)]
pub struct NormalHints {
    pub min_width: u16,
    pub min_height: u16,
    pub max_width: u16,
    pub max_height: u16,
    pub width_inc: u16,
    pub height_inc: u16,
    pub base_width: u16,
    pub base_height: u16,
    pub gravity: u32,
}

/// The hints of a client that gave none.
pub open spec fn default_hints() -> NormalHints {
    NormalHints {
        min_width: 1,
        min_height: 1,
        max_width: 32767,
        max_height: 32767,
        width_inc: 1,
        height_inc: 1,
        base_width: 0,
        base_height: 0,
        gravity: 0,
    }
}

/// `v` made a `u16` the way the size hints are read: below 1 is 1 (`lo` 1)
/// or below 0 is 0 (`lo` 0), then truncated to 16 bits.
pub open spec fn hint_u16(v: i32, lo: int) -> u16 {
    (if v < lo {
        lo
    } else {
        v as int
    }) as u16
}

/// `v` capped at `u16::MAX`, then truncated to 16 bits.
pub open spec fn hint_cap(v: i32) -> u16 {
    (if v > 65535 {
        65535
    } else {
        v as int
    }) as u16
}

impl NormalHints {
    /// Merge the fields a client's `WM_NORMAL_HINTS` holds: minimum size
    /// (at least 1), maximum size (at most 65535), resize increments (at
    /// least 1) and base size (at least 0); absent fields keep their value.
    pub fn merge(
        &mut self,
        min_size: Option<(i32, i32)>,
        max_size: Option<(i32, i32)>,
        increment: Option<(i32, i32)>,
        base_size: Option<(i32, i32)>,
    )
        ensures
            final(self).min_width == (match min_size {
                Some((w, _)) => hint_u16(w, 1),
                None => old(self).min_width,
            }),
            final(self).min_height == (match min_size {
                Some((_, h)) => hint_u16(h, 1),
                None => old(self).min_height,
            }),
            final(self).max_width == (match max_size {
                Some((w, _)) => hint_cap(w),
                None => old(self).max_width,
            }),
            final(self).max_height == (match max_size {
                Some((_, h)) => hint_cap(h),
                None => old(self).max_height,
            }),
            final(self).width_inc == (match increment {
                Some((w, _)) => hint_u16(w, 1),
                None => old(self).width_inc,
            }),
            final(self).height_inc == (match increment {
                Some((_, h)) => hint_u16(h, 1),
                None => old(self).height_inc,
            }),
            final(self).base_width == (match base_size {
                Some((w, _)) => hint_u16(w, 0),
                None => old(self).base_width,
            }),
            final(self).base_height == (match base_size {
                Some((_, h)) => hint_u16(h, 0),
                None => old(self).base_height,
            }),
            final(self).gravity == old(self).gravity,
    {
        if let Some((mw, mh)) = min_size {
            self.min_width = (if mw < 1 { 1 } else { mw }) as u16;
            self.min_height = (if mh < 1 { 1 } else { mh }) as u16;
        }
        if let Some((mw, mh)) = max_size {
            self.max_width = (if mw > 65535 { 65535 } else { mw }) as u16;
            self.max_height = (if mh > 65535 { 65535 } else { mh }) as u16;
        }
        if let Some((wi, hi)) = increment {
            self.width_inc = (if wi < 1 { 1 } else { wi }) as u16;
            self.height_inc = (if hi < 1 { 1 } else { hi }) as u16;
        }
        if let Some((bw, bh)) = base_size {
            self.base_width = (if bw < 0 { 0 } else { bw }) as u16;
            self.base_height = (if bh < 0 { 0 } else { bh }) as u16;
        }
    }
}

impl Default for NormalHints {
    fn default() -> (r: Self)
        ensures
            r == default_hints(),
    {
        NormalHints {
            min_width: 1,
            min_height: 1,
            max_width: 32767,
            max_height: 32767,
            width_inc: 1,
            height_inc: 1,
            base_width: 0,
            base_height: 0,
            gravity: 0,
        }
    }
}

} // verus!

verus! {

/// The `i16` arithmetic of `covers_workarea` stays in range.
pub open spec fn covers_ok(rect: crate::core_types::Rectangle, wa: crate::core_types::Rectangle) -> bool {
    use_i16(rect.x + crate::core_types::rectangle::as_i16(rect.width))
        && use_i16(rect.y + crate::core_types::rectangle::as_i16(rect.height))
        && use_i16(wa.x + crate::core_types::rectangle::as_i16(wa.width))
        && use_i16(wa.y + crate::core_types::rectangle::as_i16(wa.height))
        && use_i16(wa.x + 4) && use_i16(wa.y + 4)
        && use_i16(wa.x + crate::core_types::rectangle::as_i16(wa.width) - 4)
        && use_i16(wa.y + crate::core_types::rectangle::as_i16(wa.height) - 4)
}

/// `v` fits in an `i16`.
pub open spec fn use_i16(v: int) -> bool {
    -32768 <= v <= 32767
}

/// `rect` spans the workarea `wa` in both directions, up to 4 pixels: the
/// window already looks maximized.
pub open spec fn covers(rect: crate::core_types::Rectangle, wa: crate::core_types::Rectangle) -> bool {
    let right = rect.x + crate::core_types::rectangle::as_i16(rect.width);
    let bottom = rect.y + crate::core_types::rectangle::as_i16(rect.height);
    let wa_right = wa.x + crate::core_types::rectangle::as_i16(wa.width);
    let wa_bottom = wa.y + crate::core_types::rectangle::as_i16(wa.height);
    rect.x <= wa.x + 4 && rect.y <= wa.y + 4 && right >= wa_right - 4 && bottom >= wa_bottom - 4
}

/// Whether `rect` already fills (or exceeds) the workarea in both
/// dimensions, with a slack of 4 pixels.
pub fn covers_workarea(rect: crate::core_types::Rectangle, wa: &crate::core_types::Rectangle) -> (r: bool)
    requires
        covers_ok(rect, *wa),
    ensures
        r == covers(rect, *wa),
{
    let slack: i16 = 4;
    let right = rect.x + crate::core_types::rectangle::u16_as_i16(rect.width);
    let bottom = rect.y + crate::core_types::rectangle::u16_as_i16(rect.height);
    let wa_right = wa.x + crate::core_types::rectangle::u16_as_i16(wa.width);
    let wa_bottom = wa.y + crate::core_types::rectangle::u16_as_i16(wa.height);
    rect.x <= wa.x + slack && rect.y <= wa.y + slack && right >= wa_right - slack && bottom
        >= wa_bottom - slack
}

} // verus!

verus! {

/// A managed window: the client, its frame, its state flags, workspace,
/// layer, geometry and size hints.
pub struct RustboxWindow {
    id: WindowId,
    client: WinClient,
    frame: self::frame::FbWinFrame,
    state: WindowState,
    workspace: u32,
    layer: crate::core_types::Layer,
    geometry: crate::core_types::Rectangle,
    normal_hints: NormalHints,
    fullscreen_restore: Option<crate::core_types::Rectangle>,
}

/// What `set_fullscreen` changed.
#[derive(Clone, Copy, Debug, PartialEq, Eq, Structural)]
pub enum FullscreenChange {
    /// The window already was (or was not) fullscreen.
    Unchanged,
    /// The window now fills the screen, which is its new geometry.
    Entered(crate::core_types::Rectangle),
    /// The window left fullscreen and goes back to this geometry (if one was
    /// remembered).
    Left(Option<crate::core_types::Rectangle>),
}

impl RustboxWindow {
    pub closed spec fn id_view(&self) -> WindowId {
        self.id
    }

    pub closed spec fn client_view(&self) -> WinClient {
        self.client
    }

    pub closed spec fn frame_view(&self) -> self::frame::FbWinFrame {
        self.frame
    }

    pub closed spec fn state_view(&self) -> WindowState {
        self.state
    }

    pub closed spec fn workspace_view(&self) -> u32 {
        self.workspace
    }

    pub closed spec fn layer_view(&self) -> crate::core_types::Layer {
        self.layer
    }

    pub closed spec fn geometry_view(&self) -> crate::core_types::Rectangle {
        self.geometry
    }

    pub closed spec fn hints_view(&self) -> NormalHints {
        self.normal_hints
    }

    /// A window for `client` in `frame`, on `workspace`: fresh state, the
    /// normal layer, an empty geometry and default size hints.
    pub fn new(client: WinClient, frame: self::frame::FbWinFrame, workspace: u32) -> (r: Self)
        ensures
            r.id_view() == client.view().window,
            r.client_view() == client,
            r.frame_view() == frame,
            r.workspace_view() == workspace,
            r.layer_view().value() == 4,
            r.geometry_view() == (crate::core_types::Rectangle { x: 0, y: 0, width: 0, height: 0 }),
            r.hints_view() == default_hints(),
            !r.state_view().iconic && !r.state_view().fullscreen && !r.state_view().maximized_vert
                && !r.state_view().maximized_horz && !r.state_view().mapped,
    {
        RustboxWindow {
            id: client.window(),
            client,
            frame,
            state: WindowState::new(),
            workspace,
            layer: crate::core_types::Layer::normal(),
            geometry: crate::core_types::Rectangle::zero(),
            normal_hints: NormalHints::default(),
            fullscreen_restore: None,
        }
    }

    pub fn id(&self) -> (r: WindowId)
        ensures
            r == self.id_view(),
    {
        self.id
    }

    pub fn client(&self) -> (r: &WinClient)
        ensures
            *r == self.client_view(),
    {
        &self.client
    }

    pub fn client_mut(&mut self) -> (r: &mut WinClient)
        ensures
            *r == old(self).client_view(),
            final(self).client_view() == *final(r),
            final(self).id_view() == old(self).id_view(),
            final(self).frame_view() == old(self).frame_view(),
            final(self).state_view() == old(self).state_view(),
            final(self).geometry_view() == old(self).geometry_view(),
    {
        &mut self.client
    }

    pub fn frame(&self) -> (r: &self::frame::FbWinFrame)
        ensures
            *r == self.frame_view(),
    {
        &self.frame
    }

    pub fn frame_mut(&mut self) -> (r: &mut self::frame::FbWinFrame)
        ensures
            *r == old(self).frame_view(),
            final(self).frame_view() == *final(r),
            final(self).id_view() == old(self).id_view(),
            final(self).client_view() == old(self).client_view(),
            final(self).state_view() == old(self).state_view(),
            final(self).geometry_view() == old(self).geometry_view(),
    {
        &mut self.frame
    }

    pub fn state(&self) -> (r: &WindowState)
        ensures
            *r == self.state_view(),
    {
        &self.state
    }

    pub fn state_mut(&mut self) -> (r: &mut WindowState)
        ensures
            *r == old(self).state_view(),
            final(self).state_view() == *final(r),
            final(self).id_view() == old(self).id_view(),
            final(self).frame_view() == old(self).frame_view(),
            final(self).geometry_view() == old(self).geometry_view(),
    {
        &mut self.state
    }

    pub fn geometry(&self) -> (r: &crate::core_types::Rectangle)
        ensures
            *r == self.geometry_view(),
    {
        &self.geometry
    }

    pub fn set_geometry(&mut self, geom: crate::core_types::Rectangle)
        ensures
            final(self).geometry_view() == geom,
            final(self).id_view() == old(self).id_view(),
            final(self).frame_view() == old(self).frame_view(),
            final(self).state_view() == old(self).state_view(),
            final(self).hints_view() == old(self).hints_view(),
    {
        self.geometry = geom;
    }

    pub fn normal_hints(&self) -> (r: &NormalHints)
        ensures
            *r == self.hints_view(),
    {
        &self.normal_hints
    }

    pub fn normal_hints_mut(&mut self) -> (r: &mut NormalHints)
        ensures
            *r == old(self).hints_view(),
            final(self).hints_view() == *final(r),
            final(self).id_view() == old(self).id_view(),
            final(self).geometry_view() == old(self).geometry_view(),
            final(self).state_view() == old(self).state_view(),
    {
        &mut self.normal_hints
    }

    pub fn workspace(&self) -> (r: u32)
        ensures
            r == self.workspace_view(),
    {
        self.workspace
    }

    pub fn set_workspace(&mut self, ws: u32)
        ensures
            final(self).workspace_view() == ws,
            final(self).id_view() == old(self).id_view(),
            final(self).geometry_view() == old(self).geometry_view(),
            final(self).state_view() == old(self).state_view(),
    {
        self.workspace = ws;
    }

    pub fn layer(&self) -> (r: crate::core_types::Layer)
        ensures
            r == self.layer_view(),
    {
        self.layer
    }

    pub fn set_layer(&mut self, layer: crate::core_types::Layer)
        ensures
            final(self).layer_view() == layer,
            final(self).id_view() == old(self).id_view(),
            final(self).geometry_view() == old(self).geometry_view(),
            final(self).state_view() == old(self).state_view(),
    {
        self.layer = layer;
    }

    pub fn is_mapped(&self) -> (r: bool)
        ensures
            r == self.state_view().mapped,
    {
        self.state.mapped
    }

    pub fn is_iconic(&self) -> (r: bool)
        ensures
            r == self.state_view().iconic,
    {
        self.state.iconic
    }

    pub fn is_shaded(&self) -> (r: bool)
        ensures
            r == self.state_view().shaded,
    {
        self.state.shaded
    }

    /// Maximized in either direction.
    pub fn is_maximized(&self) -> (r: bool)
        ensures
            r == (self.state_view().maximized_vert || self.state_view().maximized_horz),
    {
        self.state.maximized_vert || self.state.maximized_horz
    }

    pub fn is_fullscreen(&self) -> (r: bool)
        ensures
            r == self.state_view().fullscreen,
    {
        self.state.fullscreen
    }

    pub fn is_sticky(&self) -> (r: bool)
        ensures
            r == self.state_view().sticky,
    {
        self.state.sticky
    }

    pub fn is_hidden(&self) -> (r: bool)
        ensures
            r == self.state_view().hidden,
    {
        self.state.hidden
    }

    /// Mark the window iconified (its client and frame are to be unmapped);
    /// `false` when it already was.
    pub fn iconify(&mut self) -> (changed: bool)
        ensures
            changed == !old(self).state_view().iconic,
            final(self).state_view() == (WindowState { iconic: true, ..old(self).state_view() }),
            changed ==> final(self).frame_view().iconified_view(),
            final(self).geometry_view() == old(self).geometry_view(),
            final(self).id_view() == old(self).id_view(),
    {
        if self.state.iconic {
            return false;
        }
        self.state.iconic = true;
        self.frame.set_iconified(true);
        true
    }

    /// Mark the window restored from iconified (its frame and client are to
    /// be mapped again); `false` when it was not iconified.
    pub fn deiconify(&mut self) -> (changed: bool)
        ensures
            changed == old(self).state_view().iconic,
            final(self).state_view() == (WindowState { iconic: false, ..old(self).state_view() }),
            changed ==> !final(self).frame_view().iconified_view(),
            final(self).geometry_view() == old(self).geometry_view(),
            final(self).id_view() == old(self).id_view(),
    {
        if !self.state.iconic {
            return false;
        }
        self.state.iconic = false;
        self.frame.set_iconified(false);
        true
    }

    /// Maximize vertically and/or horizontally within the workarea `wa`.
    /// Nothing happens to a fullscreen or iconified window. A window that
    /// was not maximized remembers its geometry to come back to, or
    /// `fallback` when it already covers the workarea. The new geometry is
    /// returned (the frame and client are to be moved there).
    #[verifier::rlimit(40)]
    pub fn maximize(
        &mut self,
        vert: bool,
        horz: bool,
        wa: &crate::core_types::Rectangle,
        fallback: crate::core_types::Rectangle,
    ) -> (r: Option<crate::core_types::Rectangle>)
        requires
            covers_ok(old(self).geometry_view(), *wa),
            old(self).frame_view().title_height_view() + 2 * old(self).frame_view().border_view()
                <= u16::MAX,
            self::frame::buttons_fit(
                if horz {
                    wa.width
                } else {
                    old(self).geometry_view().width
                },
                old(self).frame_view().no_maximize_view(),
            ),
        ensures
            (old(self).state_view().fullscreen || old(self).state_view().iconic) ==> r is None
                && *final(self) == *old(self),
            !(old(self).state_view().fullscreen || old(self).state_view().iconic) ==> {
                let g = old(self).geometry_view();
                let n = crate::core_types::Rectangle {
                    x: if horz {
                        wa.x
                    } else {
                        g.x
                    },
                    y: if vert {
                        wa.y
                    } else {
                        g.y
                    },
                    width: if horz {
                        wa.width
                    } else {
                        g.width
                    },
                    height: if vert {
                        wa.height
                    } else {
                        g.height
                    },
                };
                let was = old(self).state_view().maximized_vert || old(self).state_view().maximized_horz;
                &&& r == Some(n)
                &&& final(self).geometry_view() == n
                &&& final(self).state_view().maximized_vert == vert
                &&& final(self).state_view().maximized_horz == horz
                &&& final(self).state_view().position == if was {
                    old(self).state_view().position
                } else if !covers(g, *wa) {
                    Some(g)
                } else {
                    Some(fallback)
                }
                &&& final(self).frame_view().maximized_view() == (vert && horz)
                &&& final(self).frame_view().width_view() == n.width
                &&& final(self).frame_view().height_view() == n.height
            },
            final(self).id_view() == old(self).id_view(),
    {
        if self.state.fullscreen || self.state.iconic {
            return None;
        }
        let g = self.geometry;
        let was = self.state.maximized_vert || self.state.maximized_horz;
        let mut st = self.state;
        if !was {
            let keep = if !covers_workarea(g, wa) {
                g
            } else {
                fallback
            };
            st.position = Some(keep);
        }
        st.maximized_vert = vert;
        st.maximized_horz = horz;
        let n = crate::core_types::Rectangle {
            x: if horz {
                wa.x
            } else {
                g.x
            },
            y: if vert {
                wa.y
            } else {
                g.y
            },
            width: if horz {
                wa.width
            } else {
                g.width
            },
            height: if vert {
                wa.height
            } else {
                g.height
            },
        };
        self.frame.set_maximized(vert && horz);
        self.frame.move_resize(n.x, n.y, n.width, n.height);
        self.state = st;
        self.geometry = n;
        Some(n)
    }

    /// Leave the maximized state: back to the remembered geometry unless it
    /// covers the workarea `wa`, else to `fallback`. Nothing happens to a
    /// window that is not maximized. The new geometry is returned.
    pub fn unmaximize(
        &mut self,
        wa: &crate::core_types::Rectangle,
        fallback: crate::core_types::Rectangle,
    ) -> (r: Option<crate::core_types::Rectangle>)
        requires
            old(self).state_view().position matches Some(p) ==> covers_ok(p, *wa),
            old(self).frame_view().title_height_view() + 2 * old(self).frame_view().border_view()
                <= u16::MAX,
            self::frame::buttons_fit(fallback.width, old(self).frame_view().no_maximize_view()),
            old(self).state_view().position matches Some(p) ==> self::frame::buttons_fit(
                p.width,
                old(self).frame_view().no_maximize_view(),
            ),
        ensures
            !(old(self).state_view().maximized_vert || old(self).state_view().maximized_horz) ==> r is None
                && *final(self) == *old(self),
            (old(self).state_view().maximized_vert || old(self).state_view().maximized_horz) ==> {
                let back = match old(self).state_view().position {
                    Some(p) => if !covers(p, *wa) {
                        p
                    } else {
                        fallback
                    },
                    None => fallback,
                };
                &&& r == Some(back)
                &&& final(self).geometry_view() == back
                &&& !final(self).state_view().maximized_vert
                &&& !final(self).state_view().maximized_horz
                &&& !final(self).frame_view().maximized_view()
                &&& final(self).frame_view().width_view() == back.width
                &&& final(self).frame_view().height_view() == back.height
            },
            final(self).id_view() == old(self).id_view(),
    {
        if !self.state.maximized_vert && !self.state.maximized_horz {
            return None;
        }
        self.state.maximized_vert = false;
        self.state.maximized_horz = false;
        self.frame.set_maximized(false);
        let back = match self.state.restore_position() {
            Some(p) => if !covers_workarea(p, wa) {
                p
            } else {
                fallback
            },
            None => fallback,
        };
        self.frame.move_resize(back.x, back.y, back.width, back.height);
        self.geometry = back;
        Some(back)
    }

    /// Enter or leave fullscreen on a `root_w` x `root_h` screen: entering
    /// remembers the geometry and fills the screen; leaving goes back to the
    /// remembered geometry.
    pub fn set_fullscreen(&mut self, fs: bool, root_w: u16, root_h: u16) -> (r: FullscreenChange)
        ensures
            fs == old(self).state_view().fullscreen ==> r == FullscreenChange::Unchanged
                && *final(self) == *old(self),
            fs != old(self).state_view().fullscreen ==> final(self).state_view()
                == (WindowState { fullscreen: fs, ..old(self).state_view() }),
            fs && !old(self).state_view().fullscreen ==> r == FullscreenChange::Entered(
                crate::core_types::Rectangle { x: 0, y: 0, width: root_w, height: root_h },
            ) && final(self).geometry_view() == (crate::core_types::Rectangle {
                x: 0,
                y: 0,
                width: root_w,
                height: root_h,
            }),
            !fs && old(self).state_view().fullscreen ==> r == FullscreenChange::Left(
                old(self).fullscreen_restore_view(),
            ) && final(self).geometry_view() == match old(self).fullscreen_restore_view() {
                Some(g) => g,
                None => old(self).geometry_view(),
            },
            final(self).id_view() == old(self).id_view(),
    {
        if fs == self.state.fullscreen {
            return FullscreenChange::Unchanged;
        }
        self.state.fullscreen = fs;
        if fs {
            self.fullscreen_restore = Some(self.geometry);
            let full = crate::core_types::Rectangle::new(0, 0, root_w, root_h);
            self.geometry = full;
            FullscreenChange::Entered(full)
        } else {
            let back = self.fullscreen_restore;
            if let Some(g) = back {
                self.geometry = g;
            }
            FullscreenChange::Left(back)
        }
    }

    /// The geometry remembered when the window went fullscreen.
    pub closed spec fn fullscreen_restore_view(&self) -> Option<crate::core_types::Rectangle> {
        self.fullscreen_restore
    }

    /// Move the frame to (`x`, `y`) and size the client `w` x `h`.
    pub fn move_resize(&mut self, x: i16, y: i16, w: u16, h: u16)
        requires
            old(self).frame_view().title_height_view() + 2 * old(self).frame_view().border_view()
                <= u16::MAX,
            self::frame::buttons_fit(w, old(self).frame_view().no_maximize_view()),
        ensures
            final(self).geometry_view() == (crate::core_types::Rectangle { x, y, width: w, height: h }),
            final(self).frame_view().width_view() == w,
            final(self).frame_view().height_view() == h,
            final(self).state_view() == old(self).state_view(),
            final(self).id_view() == old(self).id_view(),
    {
        self.geometry = crate::core_types::Rectangle::new(x, y, w, h);
        self.frame.move_resize(x, y, w, h);
    }

    /// Where the client sits inside its frame (x, y) and its size: below
    /// the border and the title bar.
    pub fn client_placement(&self, w: u16, h: u16) -> (r: (i32, i32, u32, u32))
        ensures
            r == (self.frame_view().border_view() as i32, (self.frame_view().border_view()
                + self.frame_view().title_height_view()) as i32, w as u32, h as u32),
    {
        let bw = self.frame.border_width();
        let th = self.frame.title_height();
        (bw as i32, (bw as i32) + (th as i32), w as u32, h as u32)
    }

    /// The client's position on the screen reported in a synthetic
    /// configure notification: inside the border and below the title bar.
    pub fn notify_position(&self) -> (r: (i16, i16))
        requires
            -32768 <= self.geometry_view().x + as_i16(self.frame_view().border_view()) <= 32767,
            -32768 <= self.geometry_view().y + as_i16(self.frame_view().border_view()) <= 32767,
            -32768 <= self.geometry_view().y + as_i16(self.frame_view().border_view()) + as_i16(
                self.frame_view().title_height_view(),
            ) <= 32767,
        ensures
            r == ((self.geometry_view().x + as_i16(self.frame_view().border_view())) as i16, (
            self.geometry_view().y + as_i16(self.frame_view().border_view()) + as_i16(
                self.frame_view().title_height_view(),
            )) as i16),
    {
        let bw = crate::core_types::rectangle::u16_as_i16(self.frame.border_width());
        let th = crate::core_types::rectangle::u16_as_i16(self.frame.title_height());
        (self.geometry.x + bw, self.geometry.y + bw + th)
    }
}

} // verus!

verus! {

/// Index of the first window with id `id`, or -1.
pub open spec fn window_index(ws: Seq<RustboxWindow>, id: WindowId) -> int
    decreases ws.len(),
{
    if ws.len() == 0 {
        -1
    } else if ws.last().id_view() == id && window_index(ws.drop_last(), id) < 0 {
        ws.len() - 1
    } else {
        window_index(ws.drop_last(), id)
    }
}

proof fn lemma_window_index(ws: Seq<RustboxWindow>, id: WindowId)
    ensures
        -1 <= window_index(ws, id) < ws.len(),
        window_index(ws, id) >= 0 ==> ws[window_index(ws, id)].id_view() == id,
        window_index(ws, id) < 0 <==> forall|j: int| 0 <= j < ws.len() ==> ws[j].id_view() != id,
        forall|j: int| 0 <= j < ws.len() && ws[j].id_view() == id ==> window_index(ws, id) <= j,
    decreases ws.len(),
{
    if ws.len() > 0 {
        lemma_window_index(ws.drop_last(), id);
        assert forall|j: int| 0 <= j < ws.len() - 1 implies ws.drop_last()[j] == ws[j] by {}
    }
}

/// The ids of windows that are all different.
pub open spec fn distinct_ids(ws: Seq<RustboxWindow>) -> bool {
    forall|i: int, j: int| 0 <= i < j < ws.len() ==> ws[i].id_view() != ws[j].id_view()
}

/// `s` without `x`, order kept.
pub open spec fn without_id(s: Seq<WindowId>, x: WindowId) -> Seq<WindowId>
    decreases s.len(),
{
    if s.len() == 0 {
        s
    } else {
        let r = without_id(s.drop_last(), x);
        if s.last() != x {
            r.push(s.last())
        } else {
            r
        }
    }
}

/// What `without_id` keeps: every element but `x`, and no duplicates when
/// there were none.
pub proof fn lemma_without_id(s: Seq<WindowId>, x: WindowId)
    ensures
        forall|y: WindowId| #[trigger] without_id(s, x).contains(y) <==> (s.contains(y) && y != x),
        s.no_duplicates() ==> without_id(s, x).no_duplicates(),
    decreases s.len(),
{
    if s.len() > 0 {
        let t = s.drop_last();
        lemma_without_id(t, x);
        let r = without_id(t, x);
        assert forall|y: WindowId| #[trigger] without_id(s, x).contains(y) <==> (s.contains(y) && y
            != x) by {
            if s.contains(y) && y != x {
                let j = choose|j: int| 0 <= j < s.len() && s[j] == y;
                if j < s.len() - 1 {
                    assert(t[j] == y);
                    assert(t.contains(y));
                    assert(r.contains(y));
                    if s.last() != x {
                        let k = choose|k: int| 0 <= k < r.len() && r[k] == y;
                        assert(r.push(s.last())[k] == y);
                    }
                } else {
                    assert(r.push(s.last())[r.len() as int] == y);
                }
            }
            if without_id(s, x).contains(y) {
                if s.last() != x && y == s.last() {
                    assert(s[s.len() - 1] == y);
                } else {
                    if s.last() != x {
                        let k = choose|k: int| 0 <= k < r.push(s.last()).len() && r.push(s.last())[k] == y;
                        assert(k < r.len());
                        assert(r[k] == y);
                    }
                    assert(r.contains(y));
                    let j = choose|j: int| 0 <= j < t.len() && t[j] == y;
                    assert(s[j] == y);
                }
            }
        }
        if s.no_duplicates() {
            assert(t.no_duplicates()) by {
                assert forall|i: int, j: int| 0 <= i < t.len() && 0 <= j < t.len() && i != j implies t[i]
                    != t[j] by {
                    assert(s[i] == t[i] && s[j] == t[j]);
                }
            }
            if s.last() != x {
                assert(!r.contains(s.last())) by {
                    if r.contains(s.last()) {
                        let j = choose|j: int| 0 <= j < t.len() && t[j] == s.last();
                        assert(s[j] == s[s.len() - 1]);
                    }
                }
                let q = r.push(s.last());
                assert forall|i: int, j: int| 0 <= i < q.len() && 0 <= j < q.len() && i != j implies q[i]
                    != q[j] by {
                    if i == r.len() && j < r.len() {
                        assert(r.contains(r[j]));
                    } else if j == r.len() && i < r.len() {
                        assert(r.contains(r[i]));
                    }
                }
            }
        }
    }
}

/// The managed windows, the order they were focused in, their stacking
/// order, and the focused and previously focused window.
pub struct WindowManager {
    windows: Vec<RustboxWindow>,
    focus_order: Vec<WindowId>,
    stacking_order: Vec<WindowId>,
    last_focused: Option<WindowId>,
    active_window: Option<WindowId>,
}

/// `v` without `x`, order kept.
fn retain_not(v: &Vec<WindowId>, x: WindowId) -> (r: Vec<WindowId>)
    ensures
        r@ == without_id(v@, x),
{
    let mut r: Vec<WindowId> = Vec::new();
    let mut i: usize = 0;
    while i < v.len()
        invariant
            i <= v@.len(),
            r@ == without_id(v@.take(i as int), x),
        decreases v@.len() - i,
    {
        proof {
            assert(v@.take(i + 1).drop_last() =~= v@.take(i as int));
        }
        if v[i] != x {
            r.push(v[i]);
        }
        i = i + 1;
    }
    assert(v@.take(i as int) =~= v@);
    r
}

impl WindowManager {
    pub closed spec fn windows_view(&self) -> Seq<RustboxWindow> {
        self.windows@
    }

    pub closed spec fn focus_view(&self) -> Seq<WindowId> {
        self.focus_order@
    }

    pub closed spec fn stacking_view(&self) -> Seq<WindowId> {
        self.stacking_order@
    }

    pub closed spec fn active_view(&self) -> Option<WindowId> {
        self.active_window
    }

    pub closed spec fn last_view(&self) -> Option<WindowId> {
        self.last_focused
    }

    /// No two managed windows share an id, and no window is twice in the
    /// focus order.
    pub open spec fn wf(&self) -> bool {
        distinct_ids(self.windows_view()) && self.focus_view().no_duplicates()
    }

    /// The managed window with id `id`.
    pub open spec fn lookup(&self, id: WindowId) -> Option<RustboxWindow> {
        let i = window_index(self.windows_view(), id);
        if i >= 0 {
            Some(self.windows_view()[i])
        } else {
            None
        }
    }

    /// No windows.
    pub fn new() -> (r: Self)
        ensures
            r.wf(),
            r.windows_view().len() == 0,
            r.focus_view().len() == 0,
            r.stacking_view().len() == 0,
            r.active_view() is None,
            r.last_view() is None,
    {
        WindowManager {
            windows: Vec::new(),
            focus_order: Vec::new(),
            stacking_order: Vec::new(),
            last_focused: None,
            active_window: None,
        }
    }

    fn find(&self, id: WindowId) -> (r: Option<usize>)
        ensures
            r is None ==> window_index(self.windows_view(), id) < 0,
            r matches Some(i) ==> window_index(self.windows_view(), id) == i && i
                < self.windows_view().len(),
    {
        let mut i: usize = 0;
        while i < self.windows.len()
            invariant
                i <= self.windows@.len(),
                forall|j: int| 0 <= j < i ==> self.windows@[j].id_view() != id,
            decreases self.windows@.len() - i,
        {
            if self.windows[i].id() == id {
                proof {
                    lemma_window_index(self.windows@, id);
                }
                return Some(i);
            }
            i = i + 1;
        }
        proof {
            lemma_window_index(self.windows@, id);
        }
        None
    }

    /// Manage `window` (replacing a window with the same id) and put it on
    /// top of the stacking order.
    pub fn add_window(&mut self, window: RustboxWindow)
        requires
            old(self).wf(),
        ensures
            final(self).wf(),
            forall|k: WindowId| #[trigger] final(self).lookup(k) == if k == window.id_view() {
                Some(window)
            } else {
                old(self).lookup(k)
            },
            final(self).stacking_view() == old(self).stacking_view().push(window.id_view()),
            final(self).focus_view() == old(self).focus_view(),
            final(self).active_view() == old(self).active_view(),
            final(self).last_view() == old(self).last_view(),
    {
        let id = window.id();
        self.stacking_order.push(id);
        let ghost old_ws = self.windows@;
        proof {
            lemma_window_index(old_ws, id);
        }
        match self.find(id) {
            Some(i) => {
                self.windows.set(i, window);
                proof {
                    let ws = self.windows@;
                    assert(ws == old_ws.update(i as int, window));
                    assert forall|k: WindowId| #[trigger] self.lookup(k) == if k == id {
                        Some(window)
                    } else {
                        old(self).lookup(k)
                    } by {
                        lemma_window_index(ws, k);
                        lemma_window_index(old_ws, k);
                        if k != id {
                            if window_index(old_ws, k) >= 0 {
                                assert(ws[window_index(old_ws, k)].id_view() == k);
                            }
                            if window_index(ws, k) >= 0 {
                                assert(old_ws[window_index(ws, k)].id_view() == k);
                            }
                        } else {
                            assert(ws[i as int].id_view() == k);
                        }
                    }
                }
            },
            None => {
                self.windows.push(window);
                proof {
                    let ws = self.windows@;
                    assert(ws.drop_last() =~= old_ws);
                    assert forall|k: WindowId| #[trigger] self.lookup(k) == if k == id {
                        Some(window)
                    } else {
                        old(self).lookup(k)
                    } by {
                        lemma_window_index(ws, k);
                        lemma_window_index(old_ws, k);
                    }
                }
            },
        }
    }

    /// Stop managing window `id`: it leaves the focus and stacking orders,
    /// and is no longer the focused or previously focused window.
    pub fn remove_window(&mut self, id: WindowId)
        requires
            old(self).wf(),
        ensures
            final(self).wf(),
            forall|k: WindowId| #[trigger] final(self).lookup(k) == if k == id {
                None
            } else {
                old(self).lookup(k)
            },
            final(self).focus_view() == without_id(old(self).focus_view(), id),
            final(self).stacking_view() == without_id(old(self).stacking_view(), id),
            final(self).active_view() == if old(self).active_view() == Some(id) {
                None
            } else {
                old(self).active_view()
            },
            final(self).last_view() == if old(self).last_view() == Some(id) {
                None
            } else {
                old(self).last_view()
            },
    {
        let f = retain_not(&self.focus_order, id);
        let s = retain_not(&self.stacking_order, id);
        proof {
            lemma_without_id(self.focus_order@, id);
        }
        self.focus_order = f;
        self.stacking_order = s;
        if self.active_window == Some(id) {
            self.active_window = None;
        }
        if self.last_focused == Some(id) {
            self.last_focused = None;
        }
        let ghost old_ws = self.windows@;
        if let Some(i) = self.find(id) {
            self.windows.remove(i);
            proof {
                let ws = self.windows@;
                lemma_window_index(old_ws, id);
                assert(ws =~= old_ws.remove(i as int));
                assert forall|k: WindowId| #[trigger] self.lookup(k) == if k == id {
                    None
                } else {
                    old(self).lookup(k)
                } by {
                    lemma_window_index(ws, k);
                    lemma_window_index(old_ws, k);
                    if k != id {
                        if window_index(old_ws, k) >= 0 {
                            let j = window_index(old_ws, k);
                            assert(j != i);
                            if j < i {
                                assert(ws[j] == old_ws[j]);
                            } else {
                                assert(ws[j - 1] == old_ws[j]);
                            }
                        }
                        if window_index(ws, k) >= 0 {
                            let j = window_index(ws, k);
                            if j < i {
                                assert(old_ws[j] == ws[j]);
                            } else {
                                assert(old_ws[j + 1] == ws[j]);
                            }
                        }
                    } else {
                        if window_index(ws, k) >= 0 {
                            let j = window_index(ws, k);
                            if j < i {
                                assert(old_ws[j] == ws[j]);
                            } else {
                                assert(old_ws[j + 1] == ws[j]);
                            }
                        }
                    }
                }
            }
        } else {
            proof {
                assert forall|k: WindowId| #[trigger] self.lookup(k) == if k == id {
                    None
                } else {
                    old(self).lookup(k)
                } by {}
            }
        }
    }

    /// The managed window with id `id`.
    pub fn get_window(&self, id: WindowId) -> (r: Option<&RustboxWindow>)
        ensures
            match r {
                Some(w) => self.lookup(id) == Some(*w),
                None => self.lookup(id) is None,
            },
    {
        match self.find(id) {
            Some(i) => Some(&self.windows[i]),
            None => None,
        }
    }

    /// The managed window with id `id`, to be changed in place (its id is
    /// to stay the same).
    pub fn get_window_mut(&mut self, id: WindowId) -> (r: Option<&mut RustboxWindow>)
        requires
            old(self).wf(),
        ensures
            match r {
                Some(w) => {
                    &&& old(self).lookup(id) == Some(*w)
                    &&& final(self).windows_view() == old(self).windows_view().update(
                        window_index(old(self).windows_view(), id),
                        *final(w),
                    )
                    &&& final(self).focus_view() == old(self).focus_view()
                    &&& final(self).stacking_view() == old(self).stacking_view()
                    &&& final(self).active_view() == old(self).active_view()
                    &&& final(self).last_view() == old(self).last_view()
                    &&& final(w).id_view() == id ==> final(self).wf()
                },
                None => old(self).lookup(id) is None && *final(self) == *old(self),
            },
    {
        match self.find(id) {
            Some(i) => {
                proof {
                    lemma_window_index(self.windows@, id);
                }
                Some(&mut self.windows[i])
            },
            None => None,
        }
    }

    pub fn active_window(&self) -> (r: Option<WindowId>)
        ensures
            r == self.active_view(),
    {
        self.active_window
    }

    /// Focus window `id` when it is managed: the focused window becomes the
    /// previously focused one, and `id` moves to the end of the focus order.
    pub fn set_active_window(&mut self, id: WindowId)
        requires
            old(self).wf(),
        ensures
            final(self).wf(),
            old(self).lookup(id) is None ==> *final(self) == *old(self),
            old(self).lookup(id) is Some ==> {
                &&& final(self).active_view() == Some(id)
                &&& final(self).last_view() == if old(self).active_view() is Some {
                    old(self).active_view()
                } else {
                    old(self).last_view()
                }
                &&& final(self).focus_view() == without_id(old(self).focus_view(), id).push(id)
                &&& final(self).windows_view() == old(self).windows_view()
                &&& final(self).stacking_view() == old(self).stacking_view()
            },
    {
        if self.find(id).is_some() {
            if let Some(prev) = self.active_window {
                self.last_focused = Some(prev);
            }
            self.active_window = Some(id);
            let mut f = retain_not(&self.focus_order, id);
            proof {
                lemma_without_id(self.focus_order@, id);
            }
            f.push(id);
            proof {
                let q = f@;
                let r = without_id(self.focus_order@, id);
                assert(!r.contains(id));
                assert forall|i: int, j: int| 0 <= i < q.len() && 0 <= j < q.len() && i != j implies q[i]
                    != q[j] by {
                    if i == r.len() && j < r.len() {
                        assert(r.contains(r[j]));
                    } else if j == r.len() && i < r.len() {
                        assert(r.contains(r[i]));
                    }
                }
            }
            self.focus_order = f;
        }
    }

    /// The managed windows.
    pub fn windows(&self) -> (r: &[RustboxWindow])
        ensures
            r@ == self.windows_view(),
    {
        self.windows.as_slice()
    }

    /// How many windows are managed.
    pub fn count(&self) -> (r: usize)
        ensures
            r == self.windows_view().len(),
    {
        self.windows.len()
    }

    /// The managed windows named by `ids`, in that order; ids of windows not
    /// managed are skipped.
    pub open spec fn stacked(&self, ids: Seq<WindowId>) -> Seq<RustboxWindow>
        decreases ids.len(),
    {
        if ids.len() == 0 {
            seq![]
        } else {
            match self.lookup(ids.last()) {
                Some(w) => self.stacked(ids.drop_last()).push(w),
                None => self.stacked(ids.drop_last()),
            }
        }
    }

    /// The managed windows in stacking order, bottom first: each id of the
    /// stacking order that names a managed window gives that window.
    pub fn iter_by_stacking(&self) -> (r: Vec<&RustboxWindow>)
        ensures
            r@.len() == self.stacked(self.stacking_view()).len(),
            forall|i: int| 0 <= i < r@.len() ==> *#[trigger] r@[i] == self.stacked(self.stacking_view())[i],
    {
        let mut r: Vec<&RustboxWindow> = Vec::new();
        let mut i: usize = 0;
        let ghost ids = self.stacking_view();
        while i < self.stacking_order.len()
            invariant
                i <= self.stacking_order@.len(),
                ids == self.stacking_order@,
                r@.len() == self.stacked(ids.take(i as int)).len(),
                forall|j: int| 0 <= j < r@.len() ==> *#[trigger] r@[j] == self.stacked(ids.take(i as int))[j],
            decreases self.stacking_order@.len() - i,
        {
            proof {
                assert(ids.take(i + 1).drop_last() =~= ids.take(i as int));
                assert(ids.take(i + 1).last() == ids[i as int]);
                lemma_window_index(self.windows@, ids[i as int]);
            }
            if let Some(k) = self.find(self.stacking_order[i]) {
                r.push(&self.windows[k]);
            }
            i = i + 1;
        }
        assert(ids.take(ids.len() as int) =~= ids);
        r
    }
}

impl Default for WindowManager {
    fn default() -> (r: Self)
        ensures
            r.wf(),
            r.windows_view().len() == 0,
            r.active_view() is None,
    {
        Self::new()
    }
}

} // verus!
