//! Title-bar buttons of a window frame: where they go and which one a click
//! hits.

use vstd::prelude::*;
use crate::core_types::rectangle::{as_i16, imax, sat_i16, u16_as_i16};
use crate::core_types::Rectangle;
use crate::render::texture::{new_texture, Texture};

verus! {

#[derive(Debug, Clone, Copy, PartialEq, Eq, Structural)]
pub enum ButtonType {
    Close,
    Maximize,
    Iconify,
    Shade,
    Stick,
    Menu,
}

#[derive(Debug, Clone, Copy)]
pub struct FrameButton {
    pub rect: Rectangle,
    pub btn_type: ButtonType,
    pub pressed: bool,
}

/// Side of a title-bar button, in pixels.
pub const BTN_SIZE: u16 = 18;

/// Space between title-bar buttons, in pixels.
pub const BTN_GAP: i16 = 2;

impl FrameButton {
    /// An unpressed square button of side `size` at (`x`, `y`).
    pub fn new(btn_type: ButtonType, x: i16, y: i16, size: u16) -> (r: Self)
        ensures
            r.rect == (Rectangle { x, y, width: size, height: size }),
            r.btn_type == btn_type,
            !r.pressed,
    {
        FrameButton { rect: Rectangle::new(x, y, size, size), btn_type, pressed: false }
    }
}

/// Where the first button of a title bar `width` wide starts, with `count`
/// buttons at its right end.
pub open spec fn buttons_start(width: u16, count: int) -> int {
    let need = count * (BTN_SIZE + BTN_GAP) + 2;
    let w = if width >= need {
        width - need
    } else {
        0
    };
    w as i16 as int
}

/// The buttons of a title bar `width` wide, left to right: iconify,
/// maximize (unless left out) and close, 18 pixels square, 2 apart, at the
/// right end, 3 pixels down.
pub open spec fn button_layout(width: u16, no_maximize: bool) -> Seq<(ButtonType, int, int)> {
    let count = if no_maximize {
        2int
    } else {
        3int
    };
    let x0 = buttons_start(width, count);
    if no_maximize {
        seq![(ButtonType::Iconify, x0, 3int), (ButtonType::Close, x0 + 20, 3int)]
    } else {
        seq![
            (ButtonType::Iconify, x0, 3int),
            (ButtonType::Maximize, x0 + 20, 3int),
            (ButtonType::Close, x0 + 40, 3int),
        ]
    }
}

/// Lay out the title-bar buttons of a frame `width` wide.
pub fn layout_buttons(width: u16, no_maximize: bool) -> (r: Vec<FrameButton>)
    requires
        buttons_start(width, if no_maximize { 2 } else { 3 }) + (if no_maximize {
            20int
        } else {
            40int
        }) <= i16::MAX,
    ensures
        r@.len() == button_layout(width, no_maximize).len(),
        forall|i: int|
            0 <= i < r@.len() ==> (#[trigger] r@[i]).btn_type == button_layout(width, no_maximize)[i].0
                && r@[i].rect.x == button_layout(width, no_maximize)[i].1 && r@[i].rect.y
                == button_layout(width, no_maximize)[i].2 && r@[i].rect.width == BTN_SIZE
                && r@[i].rect.height == BTN_SIZE && !r@[i].pressed,
{
    let count: u16 = if no_maximize {
        2
    } else {
        3
    };
    let need = count * (BTN_SIZE + BTN_GAP as u16) + 2;
    let w = if width >= need {
        width - need
    } else {
        0
    };
    let x_start = w as i16;
    let y: i16 = 3;
    let mut buttons: Vec<FrameButton> = Vec::new();
    buttons.push(FrameButton::new(ButtonType::Iconify, x_start, y, BTN_SIZE));
    if !no_maximize {
        buttons.push(FrameButton::new(ButtonType::Maximize, x_start + (BTN_SIZE as i16 + BTN_GAP), y, BTN_SIZE));
    }
    buttons.push(
        FrameButton::new(
            ButtonType::Close,
            x_start + if no_maximize {
                20
            } else {
                40
            },
            y,
            BTN_SIZE,
        ),
    );
    buttons
}

/// The first button whose rectangle holds (`x`, `y`).
pub open spec fn button_hit(buttons: Seq<FrameButton>, x: int, y: int) -> Option<ButtonType>
    decreases buttons.len(),
{
    if buttons.len() == 0 {
        None
    } else if buttons[0].rect.spec_contains(x, y) {
        Some(buttons[0].btn_type)
    } else {
        button_hit(buttons.drop_first(), x, y)
    }
}

/// The button a title-bar click at (`x`, `y`) hits.
pub fn hit_test_button(buttons: &[FrameButton], x: i16, y: i16) -> (r: Option<ButtonType>)
    ensures
        r == button_hit(buttons@, x as int, y as int),
{
    let mut i: usize = 0;
    assert(buttons@.skip(0) =~= buttons@);
    while i < buttons.len()
        invariant
            i <= buttons@.len(),
            button_hit(buttons@, x as int, y as int) == button_hit(buttons@.skip(i as int), x as int, y as int),
        decreases buttons@.len() - i,
    {
        proof {
            assert(buttons@.skip(i as int).drop_first() =~= buttons@.skip(i + 1));
            assert(buttons@.skip(i as int)[0] == buttons@[i as int]);
        }
        if buttons[i].rect.contains(x, y) {
            return Some(buttons[i].btn_type);
        }
        i = i + 1;
    }
    assert(buttons@.skip(i as int).len() == 0);
    None
}

/// A press on the title bar (`width` x `title_height`) that misses every
/// button.
pub fn is_titlebar_press(buttons: &[FrameButton], width: u16, title_height: u16, x: i16, y: i16) -> (r: bool)
    ensures
        r == (0 <= y < title_height as i16 as int && 0 <= x < width as i16 as int && button_hit(
            buttons@,
            x as int,
            y as int,
        ) is None),
{
    y >= 0 && y < title_height as i16 && x >= 0 && x < width as i16 && hit_test_button(buttons, x, y).is_none()
}


/// Height of the resize handle at the bottom of a frame.
pub const HANDLE_H: u16 = 6;

/// `a.saturating_add(b)` on `u16`.
pub open spec fn sat_add_u16(a: int, b: int) -> int {
    if a + b > 65535 {
        65535
    } else {
        a + b
    }
}

/// The decoration around a client window: the frame, its title bar with
/// the buttons and label, and the resize handle at the bottom.
pub struct FbWinFrame {
    pub frame_window: u32,
    pub title_window: u32,
    pub handle_window: u32,
    pub client_window: u32,
    width: u16,
    height: u16,
    title_height: u16,
    border_width: u16,
    bevel_width: u16,
    title_visible: bool,
    handles_visible: bool,
    tab_width: u16,
    label: String,
    pub iconified: bool,
    pub maximized: bool,
    pub shaded: bool,
    pub focused: bool,
    pub no_maximize: bool,
    texture: Texture,
    gc: Option<u32>,
    buttons: Vec<FrameButton>,
    resize_cursor: Option<u32>,
}

/// The buttons as laid out for a title bar `width` wide.
pub open spec fn buttons_match(bs: Seq<FrameButton>, width: u16, no_maximize: bool) -> bool {
    &&& bs.len() == button_layout(width, no_maximize).len()
    &&& forall|i: int|
        0 <= i < bs.len() ==> (#[trigger] bs[i]).btn_type == button_layout(width, no_maximize)[i].0
            && bs[i].rect.x == button_layout(width, no_maximize)[i].1 && bs[i].rect.y
            == button_layout(width, no_maximize)[i].2 && bs[i].rect.width == BTN_SIZE
            && bs[i].rect.height == BTN_SIZE && !bs[i].pressed
}

/// The buttons of a frame `width` wide can be laid out in `i16`.
pub open spec fn buttons_fit(width: u16, no_maximize: bool) -> bool {
    buttons_start(width, if no_maximize { 2 } else { 3 }) + (if no_maximize {
        20int
    } else {
        40int
    }) <= i16::MAX
}

impl FbWinFrame {
    pub closed spec fn frame_window_view(&self) -> u32 {
        self.frame_window
    }

    pub closed spec fn title_window_view(&self) -> u32 {
        self.title_window
    }

    pub closed spec fn handle_window_view(&self) -> u32 {
        self.handle_window
    }

    pub closed spec fn client_window_view(&self) -> u32 {
        self.client_window
    }

    pub closed spec fn iconified_view(&self) -> bool {
        self.iconified
    }

    pub closed spec fn maximized_view(&self) -> bool {
        self.maximized
    }

    pub closed spec fn shaded_view(&self) -> bool {
        self.shaded
    }

    pub closed spec fn focused_view(&self) -> bool {
        self.focused
    }

    pub closed spec fn no_maximize_view(&self) -> bool {
        self.no_maximize
    }

    pub closed spec fn width_view(&self) -> u16 {
        self.width
    }

    pub closed spec fn height_view(&self) -> u16 {
        self.height
    }

    pub closed spec fn title_height_view(&self) -> u16 {
        self.title_height
    }

    pub closed spec fn border_view(&self) -> u16 {
        self.border_width
    }

    pub closed spec fn label_view(&self) -> Seq<char> {
        self.label@
    }

    pub closed spec fn buttons_view(&self) -> Seq<FrameButton> {
        self.buttons@
    }

    pub closed spec fn gc_view(&self) -> Option<u32> {
        self.gc
    }

    pub closed spec fn bevel_view(&self) -> u16 {
        self.bevel_width
    }

    pub closed spec fn title_visible_view(&self) -> bool {
        self.title_visible
    }

    pub closed spec fn handles_visible_view(&self) -> bool {
        self.handles_visible
    }

    pub closed spec fn tab_width_view(&self) -> u16 {
        self.tab_width
    }

    pub closed spec fn texture_view(&self) -> Texture {
        self.texture
    }

    pub closed spec fn resize_cursor_view(&self) -> Option<u32> {
        self.resize_cursor
    }

    /// The frame's outer height for a client `h` high: the title bar and
    /// borders only when shaded.
    pub open spec fn outer_height(&self, h: u16) -> int {
        if self.shaded_view() {
            self.title_height_view() + 2 * self.border_view()
        } else {
            sat_add_u16(sat_add_u16(h as int, self.title_height_view() as int), 2 * self.border_view())
        }
    }

    /// A frame (window `frame`, title bar `title`, handle `handle`) around
    /// `client`, `width` x `height`: a 22-pixel title bar, 2-pixel borders
    /// and bevel, everything visible, nothing set, the buttons laid out.
    pub fn new(
        frame: u32,
        title: u32,
        handle: u32,
        client: u32,
        width: u16,
        height: u16,
        gc: Option<u32>,
        resize_cursor: Option<u32>,
    ) -> (r: Self)
        requires
            buttons_fit(width, false),
        ensures
            r.frame_window_view() == frame && r.title_window_view() == title && r.handle_window_view() == handle
                && r.client_window_view() == client,
            r.width_view() == width && r.height_view() == height,
            r.title_height_view() == 22 && r.border_view() == 2,
            r.label_view() == Seq::<char>::empty(),
            !r.iconified_view() && !r.maximized_view() && !r.shaded_view() && !r.focused_view() && !r.no_maximize_view(),
            r.gc_view() == gc,
            r.resize_cursor_view() == resize_cursor,
            r.bevel_view() == 2 && r.title_visible_view() && r.handles_visible_view(),
            r.tab_width_view() == 64,
            r.texture_view() == new_texture(),
            buttons_match(r.buttons_view(), width, false),
    {
        FbWinFrame {
            frame_window: frame,
            title_window: title,
            handle_window: handle,
            client_window: client,
            width,
            height,
            title_height: 22,
            border_width: 2,
            bevel_width: 2,
            title_visible: true,
            handles_visible: true,
            tab_width: 64,
            label: String::new(),
            iconified: false,
            maximized: false,
            shaded: false,
            focused: false,
            no_maximize: false,
            texture: Texture::new(),
            gc,
            buttons: layout_buttons(width, false),
            resize_cursor,
        }
    }

    /// Lay the title-bar buttons out again for the current width.
    pub fn layout_buttons(&mut self)
        requires
            buttons_fit(old(self).width_view(), old(self).no_maximize_view()),
        ensures
            buttons_match(final(self).buttons_view(), old(self).width_view(), old(self).no_maximize_view()),
            final(self).width_view() == old(self).width_view(),
            final(self).height_view() == old(self).height_view(),
            final(self).title_height_view() == old(self).title_height_view(),
            final(self).border_view() == old(self).border_view(),
            final(self).label_view() == old(self).label_view(),
            final(self).shaded_view() == old(self).shaded_view(),
            final(self).no_maximize_view() == old(self).no_maximize_view(),
            final(self).maximized_view() == old(self).maximized_view(),
            final(self).iconified_view() == old(self).iconified_view(),
            final(self).focused_view() == old(self).focused_view(),
            final(self).frame_window_view() == old(self).frame_window_view(),
            final(self).title_window_view() == old(self).title_window_view(),
            final(self).handle_window_view() == old(self).handle_window_view(),
    {
        self.buttons = layout_buttons(self.width, self.no_maximize);
    }

    pub fn frame_window(&self) -> (r: u32)
        ensures
            r == self.frame_window_view(),
    {
        self.frame_window
    }

    pub fn title_window(&self) -> (r: u32)
        ensures
            r == self.title_window_view(),
    {
        self.title_window
    }

    pub fn handle_window(&self) -> (r: u32)
        ensures
            r == self.handle_window_view(),
    {
        self.handle_window
    }

    /// Width of the client area.
    pub fn client_width(&self) -> (r: u16)
        ensures
            r == self.width_view(),
    {
        self.width
    }

    pub fn client_height(&self) -> (r: u16)
        ensures
            r == self.height_view(),
    {
        self.height
    }

    pub fn border_width(&self) -> (r: u16)
        ensures
            r == self.border_view(),
    {
        self.border_width
    }

    pub fn title_height(&self) -> (r: u16)
        ensures
            r == self.title_height_view(),
    {
        self.title_height
    }

    /// Where the resize handle goes (frame-local): none when shaded, else a
    /// strip 6 high at the bottom of the client area, never above the
    /// border.
    pub fn handle_geometry(&self) -> (r: Option<Rectangle>)
        requires
            -32768 <= as_i16(self.border_view()) + as_i16(self.title_height_view()) <= 32767,
            -32768 <= as_i16(self.border_view()) + as_i16(self.title_height_view()) + as_i16(
                self.height_view(),
            ) <= 32767,
        ensures
            self.shaded_view() ==> r is None,
            !self.shaded_view() ==> r == Some(
                Rectangle {
                    x: as_i16(self.border_view()) as i16,
                    y: imax(
                        sat_i16(
                            as_i16(self.border_view()) + as_i16(self.title_height_view()) + as_i16(
                                self.height_view(),
                            ) - 6,
                        ),
                        as_i16(self.border_view()),
                    ) as i16,
                    width: self.width_view(),
                    height: HANDLE_H,
                },
            ),
    {
        if self.shaded {
            return None;
        }
        let bw = u16_as_i16(self.border_width);
        let bottom = bw + u16_as_i16(self.title_height) + u16_as_i16(self.height);
        let d = (bottom as i32) - 6;
        let y0: i16 = if d < -32768 {
            -32768
        } else {
            d as i16
        };
        let y = if y0 >= bw {
            y0
        } else {
            bw
        };
        Some(Rectangle::new(bw, y, self.width, HANDLE_H))
    }

    /// The frame's outer height for the current client height.
    fn frame_height(&self, h: u16) -> (r: u16)
        requires
            self.title_height_view() + 2 * self.border_view() <= u16::MAX,
        ensures
            r == self.outer_height(h),
    {
        if self.shaded {
            self.title_height + self.border_width * 2
        } else {
            let bw2 = self.border_width * 2;
            let a = h.saturating_add(self.title_height);
            a.saturating_add(bw2)
        }
    }

    /// Give the client area the size `width` x `height` and lay the buttons
    /// out again; the frame's new outer height is returned.
    pub fn resize(&mut self, width: u16, height: u16) -> (r: u16)
        requires
            old(self).title_height_view() + 2 * old(self).border_view() <= u16::MAX,
            buttons_fit(width, old(self).no_maximize_view()),
        ensures
            final(self).width_view() == width,
            final(self).height_view() == height,
            r == old(self).outer_height(height),
            buttons_match(final(self).buttons_view(), width, old(self).no_maximize_view()),
            final(self).title_height_view() == old(self).title_height_view(),
            final(self).border_view() == old(self).border_view(),
            final(self).label_view() == old(self).label_view(),
            final(self).shaded_view() == old(self).shaded_view(),
            final(self).no_maximize_view() == old(self).no_maximize_view(),
            final(self).maximized_view() == old(self).maximized_view(),
            final(self).iconified_view() == old(self).iconified_view(),
            final(self).frame_window_view() == old(self).frame_window_view(),
            final(self).title_window_view() == old(self).title_window_view(),
            final(self).handle_window_view() == old(self).handle_window_view(),
    {
        self.width = width;
        self.height = height;
        let fh = self.frame_height(height);
        self.layout_buttons();
        fh
    }

    /// Move and resize: as `resize`, the position being the caller's; the
    /// frame's new outer height is returned.
    pub fn move_resize(&mut self, x: i16, y: i16, w: u16, h: u16) -> (r: u16)
        requires
            old(self).title_height_view() + 2 * old(self).border_view() <= u16::MAX,
            buttons_fit(w, old(self).no_maximize_view()),
        ensures
            final(self).width_view() == w,
            final(self).height_view() == h,
            r == old(self).outer_height(h),
            buttons_match(final(self).buttons_view(), w, old(self).no_maximize_view()),
            final(self).title_height_view() == old(self).title_height_view(),
            final(self).border_view() == old(self).border_view(),
            final(self).label_view() == old(self).label_view(),
            final(self).shaded_view() == old(self).shaded_view(),
            final(self).no_maximize_view() == old(self).no_maximize_view(),
            final(self).maximized_view() == old(self).maximized_view(),
            final(self).iconified_view() == old(self).iconified_view(),
            final(self).frame_window_view() == old(self).frame_window_view(),
            final(self).title_window_view() == old(self).title_window_view(),
            final(self).handle_window_view() == old(self).handle_window_view(),
    {
        self.resize(w, h)
    }

    pub fn set_focused(&mut self, focused: bool)
        ensures
            final(self).focused_view() == focused,
            final(self).width_view() == old(self).width_view(),
            final(self).height_view() == old(self).height_view(),
            final(self).label_view() == old(self).label_view(),
            final(self).buttons_view() == old(self).buttons_view(),
            final(self).shaded_view() == old(self).shaded_view(),
            final(self).frame_window_view() == old(self).frame_window_view(),
            final(self).title_window_view() == old(self).title_window_view(),
            final(self).handle_window_view() == old(self).handle_window_view(),
    {
        self.focused = focused;
    }

    pub fn set_label(&mut self, label: String)
        ensures
            final(self).label_view() == label@,
            final(self).width_view() == old(self).width_view(),
            final(self).height_view() == old(self).height_view(),
            final(self).buttons_view() == old(self).buttons_view(),
            final(self).focused_view() == old(self).focused_view(),
            final(self).shaded_view() == old(self).shaded_view(),
            final(self).frame_window_view() == old(self).frame_window_view(),
            final(self).title_window_view() == old(self).title_window_view(),
            final(self).handle_window_view() == old(self).handle_window_view(),
    {
        self.label = label;
    }

    pub fn label(&self) -> (r: &str)
        ensures
            r@ == self.label_view(),
    {
        self.label.as_str()
    }

    /// The title-bar buttons, left to right.
    pub fn buttons(&self) -> (r: &[FrameButton])
        ensures
            r@ == self.buttons_view(),
    {
        self.buttons.as_slice()
    }

    /// The width the title text may take: up to 6 pixels before the right
    /// edge of the last button (6 when there is none), at least 4.
    pub fn label_space(&self) -> (r: i16)
        requires
            self.buttons_view().len() > 0 ==> self.buttons_view().last().rect.spec_right() - 6
                >= -32768,
        ensures
            r == imax(
                (if self.buttons_view().len() > 0 {
                    self.buttons_view().last().rect.spec_right()
                } else {
                    6
                }) - 6,
                4,
            ),
    {
        let n = self.buttons.len();
        let right = if n > 0 {
            self.buttons[n - 1].rect.right()
        } else {
            6
        };
        let a = right - 6;
        if a >= 4 {
            a
        } else {
            4
        }
    }


    /// Mark the frame iconified or not.
    pub fn set_iconified(&mut self, v: bool)
        ensures
            final(self).iconified_view() == v,
            final(self).width_view() == old(self).width_view(),
            final(self).height_view() == old(self).height_view(),
            final(self).title_height_view() == old(self).title_height_view(),
            final(self).border_view() == old(self).border_view(),
            final(self).label_view() == old(self).label_view(),
            final(self).buttons_view() == old(self).buttons_view(),
            final(self).shaded_view() == old(self).shaded_view(),
            final(self).no_maximize_view() == old(self).no_maximize_view(),
            final(self).maximized_view() == old(self).maximized_view(),
            final(self).focused_view() == old(self).focused_view(),
            final(self).maximized_view() == old(self).maximized_view(),
            final(self).frame_window_view() == old(self).frame_window_view(),
            final(self).title_window_view() == old(self).title_window_view(),
            final(self).handle_window_view() == old(self).handle_window_view(),
    {
        self.iconified = v;
    }

    /// Mark the frame maximized (both ways) or not.
    pub fn set_maximized(&mut self, v: bool)
        ensures
            final(self).maximized_view() == v,
            final(self).width_view() == old(self).width_view(),
            final(self).height_view() == old(self).height_view(),
            final(self).title_height_view() == old(self).title_height_view(),
            final(self).border_view() == old(self).border_view(),
            final(self).label_view() == old(self).label_view(),
            final(self).buttons_view() == old(self).buttons_view(),
            final(self).shaded_view() == old(self).shaded_view(),
            final(self).no_maximize_view() == old(self).no_maximize_view(),
            final(self).iconified_view() == old(self).iconified_view(),
            final(self).focused_view() == old(self).focused_view(),
            final(self).iconified_view() == old(self).iconified_view(),
            final(self).frame_window_view() == old(self).frame_window_view(),
            final(self).title_window_view() == old(self).title_window_view(),
            final(self).handle_window_view() == old(self).handle_window_view(),
    {
        self.maximized = v;
    }

    /// Which button a title-bar click at (`x`, `y`) hits.
    pub fn hit_test_button(&self, x: i16, y: i16) -> (r: Option<ButtonType>)
        ensures
            r == button_hit(self.buttons_view(), x as int, y as int),
    {
        hit_test_button(self.buttons.as_slice(), x, y)
    }

    /// A press on the title bar that misses every button.
    pub fn is_titlebar_press(&self, x: i16, y: i16) -> (r: bool)
        ensures
            r == (0 <= y < self.title_height_view() as i16 as int && 0 <= x
                < self.width_view() as i16 as int && button_hit(self.buttons_view(), x as int, y as int)
                is None),
    {
        is_titlebar_press(self.buttons.as_slice(), self.width, self.title_height, x, y)
    }
}

} // verus!
