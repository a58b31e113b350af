//! The toolbar: workspace buttons on the left, the running windows (or the
//! focused window's label) in the middle, then the system tray, the battery
//! indicator and the clock on the right. This module keeps its state and
//! computes its layout and what a click on it means; drawing is done by the
//! program around it.

use vstd::prelude::*;
use crate::battery::{BatteryReading, BatteryState};
use crate::core_types::rectangle::{as_i16, imax, sat_i16, u16_as_i16, Rectangle};
use crate::core_types::Strut;
use crate::text::push_char;

verus! {

#[derive(Debug, Clone, Copy, PartialEq, Eq, Structural)]
pub enum ToolbarPlacement {
    Top,
    Bottom,
}

/// What a click on the toolbar asks for.
#[derive(Debug, Clone, Copy, PartialEq, Eq, Structural)]
pub enum ToolbarAction {
    /// Nothing was hit.
    Nothing,
    /// Switch to the workspace with this index.
    Workspace(usize),
    /// Focus the listed window with this index.
    Window(usize),
}

pub struct ToolbarStyle {
    pub height: u16,
    pub bevel_width: u16,
    pub border_width: u16,
    pub placement: ToolbarPlacement,
    pub font: String,
}

impl Default for ToolbarStyle {
    fn default() -> (r: Self)
        ensures
            r.height == 24,
            r.bevel_width == 2,
            r.border_width == 1,
            r.placement == ToolbarPlacement::Bottom,
            r.font@ == "fixed"@,
    {
        ToolbarStyle {
            height: 24,
            bevel_width: 2,
            border_width: 1,
            placement: ToolbarPlacement::Bottom,
            font: String::from_str("fixed"),
        }
    }
}


/// Width of a workspace button.
pub const BUTTON_W: i16 = 24;
/// Width of the clock.
pub const CLOCK_W: i16 = 144;
/// Space between the toolbar's parts.
pub const GAP: i16 = 2;
/// Width of the battery indicator when a battery is present.
pub const BATTERY_W: i16 = 74;

/// `v` fits in an `i16`.
pub open spec fn fits(v: int) -> bool {
    -32768 <= v <= 32767
}

/// `a / b` rounded toward zero.
pub open spec fn tdiv(a: int, b: int) -> int {
    if (a >= 0) == (b >= 0) {
        imax(a, -a) / imax(b, -b)
    } else {
        -(imax(a, -a) / imax(b, -b))
    }
}

/// The toolbar's geometry inputs: screen width, border, height, number of
/// workspaces and of listed windows, the tray's reserved width and the
/// battery indicator's width.
pub struct LayoutInput {
    pub screen_width: u16,
    pub border: u16,
    pub height: u16,
    pub workspaces: nat,
    pub items: nat,
    pub tray_reserve: i16,
    pub battery_width: i16,
}

/// Left edge of workspace button `i`.
pub open spec fn button_x(l: LayoutInput, i: int) -> int {
    as_i16(l.border) + GAP + i * (BUTTON_W + GAP)
}

/// Right edge of the tray: left of the battery and the clock.
pub open spec fn anchor_of(l: LayoutInput) -> int {
    as_i16(l.screen_width) - CLOCK_W - l.battery_width - 3 * GAP - as_i16(l.border)
}

/// Left edge of the window list (after the workspace buttons).
pub open spec fn list_x(l: LayoutInput) -> int {
    button_x(l, l.workspaces as int)
}

/// Right edge of the window list: before the tray, never left of its start.
pub open spec fn list_right(l: LayoutInput) -> int {
    imax(anchor_of(l) - l.tray_reserve - GAP, list_x(l))
}

/// Width of the window list.
pub open spec fn list_w(l: LayoutInput) -> int {
    imax(list_right(l) - list_x(l), 0)
}

/// Width of each listed window: the list shared out with gaps, at least 24.
pub open spec fn item_w(l: LayoutInput) -> int {
    imax(tdiv(list_w(l) - GAP * (l.items - 1), l.items as int), 24)
}

/// Left edge of listed window `i`.
pub open spec fn item_x(l: LayoutInput, i: int) -> int {
    list_x(l) + i * (item_w(l) + GAP)
}

/// Left edge of the clock.
pub open spec fn clock_x(l: LayoutInput) -> int {
    sat_i16(as_i16(l.screen_width) - (CLOCK_W + GAP + as_i16(l.border)))
}

/// The `i16` arithmetic of the layout stays in range.
pub open spec fn layout_ok(l: LayoutInput) -> bool {
    let bw = as_i16(l.border);
    &&& fits(bw + GAP)
    &&& fits(list_x(l))
    &&& fits(CLOCK_W + GAP + bw)
    &&& fits(as_i16(l.screen_width) - CLOCK_W)
    &&& fits(as_i16(l.screen_width) - CLOCK_W - l.battery_width)
    &&& fits(as_i16(l.screen_width) - CLOCK_W - l.battery_width - 3 * GAP)
    &&& fits(anchor_of(l))
    &&& fits(anchor_of(l) - l.tray_reserve)
    &&& fits(anchor_of(l) - l.tray_reserve - GAP)
    &&& fits(list_right(l) - list_x(l))
    &&& l.items < 32768
    &&& l.items > 0 ==> fits(GAP * (l.items - 1)) && fits(list_w(l) - GAP * (l.items - 1)) && fits(
        item_x(l, l.items as int),
    )
    &&& l.battery_width > 0 ==> fits(clock_x(l) - l.battery_width) && fits(
        clock_x(l) - l.battery_width - GAP,
    )
}

/// A Fluxbox-style toolbar docked at the top or bottom of the screen.
pub struct FbToolbar {
    window: u32,
    gc: u32,
    fg_pixel: u32,
    bg_pixel: u32,
    screen_width: u16,
    screen_height: u16,
    style: ToolbarStyle,
    workspace_names: Vec<String>,
    current_workspace: u32,
    label: String,
    button_rects: Vec<(usize, Rectangle)>,
    label_rect: Rectangle,
    clock_rect: Rectangle,
    window_items: Vec<(String, bool)>,
    window_rects: Vec<Rectangle>,
    tray_reserve: i16,
    battery_width: i16,
    battery_rect: Rectangle,
    battery_state: Option<BatteryReading>,
}

/// Index of the first rectangle holding (`x`, `y`), or -1.
pub open spec fn first_hit(rs: Seq<Rectangle>, x: int, y: int) -> int
    decreases rs.len(),
{
    if rs.len() == 0 {
        -1
    } else if rs.last().spec_contains(x, y) && first_hit(rs.drop_last(), x, y) < 0 {
        rs.len() - 1
    } else {
        first_hit(rs.drop_last(), x, y)
    }
}

proof fn lemma_first_hit_prefix(rs: Seq<Rectangle>, x: int, y: int, i: int)
    requires
        0 <= i < rs.len(),
        rs[i].spec_contains(x, y),
        first_hit(rs.take(i), x, y) < 0,
    ensures
        first_hit(rs, x, y) == i,
    decreases rs.len(),
{
    if rs.len() - 1 == i {
        assert(rs.drop_last() =~= rs.take(i));
    } else {
        assert(rs.drop_last().take(i) =~= rs.take(i));
        lemma_first_hit_prefix(rs.drop_last(), x, y, i);
    }
}

/// The rectangles of workspace buttons.
pub open spec fn button_rects_of(bs: Seq<(usize, Rectangle)>) -> Seq<Rectangle> {
    Seq::new(bs.len(), |i: int| bs[i].1)
}

/// The text shown by the battery indicator: the percentage followed by `+`
/// while charging, `FULL` when full, else by `%`.
pub open spec fn battery_label(pct: u8, st: BatteryState) -> Seq<char> {
    let p = if pct > 100 {
        100
    } else {
        pct
    };
    match st {
        BatteryState::Charging => decimal(p as nat) + seq!['+'],
        BatteryState::Full => "FULL"@,
        _ => decimal(p as nat) + seq!['%'],
    }
}

/// The decimal digits of `n`.
pub open spec fn decimal(n: nat) -> Seq<char>
    decreases n,
{
    if n < 10 {
        seq![(n + 48) as char]
    } else {
        decimal(n / 10) + seq![((n % 10) + 48) as char]
    }
}

/// The decimal digits of `n` (at most 255), appended to `s`.
fn push_decimal(s: &mut String, n: u8)
    ensures
        final(s)@ == old(s)@ + decimal(n as nat),
{
    if n >= 100 {
        let ghost s0 = s@;
        push_char(s, ((n / 100) + 48) as char);
        push_char(s, (((n / 10) % 10) + 48) as char);
        push_char(s, ((n % 10) + 48) as char);
        proof {
            let a = (n / 100) as nat;
            let b = (n / 10) as nat;
            assert(a < 10);
            assert(b / 10 == a);
            assert(decimal(a) == seq![(a + 48) as char]);
            assert(decimal(b) == decimal(a) + seq![((b % 10) + 48) as char]);
            assert(decimal(n as nat) == decimal(b) + seq![(((n as nat) % 10) + 48) as char]);
            assert(s@ =~= s0 + decimal(n as nat));
        }
    } else if n >= 10 {
        let ghost s0 = s@;
        push_char(s, ((n / 10) + 48) as char);
        push_char(s, ((n % 10) + 48) as char);
        proof {
            let a = (n / 10) as nat;
            assert(decimal(a) == seq![(a + 48) as char]);
            assert(decimal(n as nat) == decimal(a) + seq![(((n as nat) % 10) + 48) as char]);
            assert(s@ =~= s0 + decimal(n as nat));
        }
    } else {
        push_char(s, (n + 48) as char);
    }
}

/// `n` in decimal with at least two digits (`{:02}`).
pub open spec fn two_digits(n: nat) -> Seq<char> {
    if n < 10 {
        seq!['0'] + decimal(n)
    } else {
        decimal(n)
    }
}

/// The clock's text for a time of day: `HH:MM:SS`.
pub fn clock_text(h: u8, m: u8, s: u8) -> (r: String)
    ensures
        r@ == two_digits(h as nat) + seq![':'] + two_digits(m as nat) + seq![':'] + two_digits(
            s as nat,
        ),
{
    let mut out = String::new();
    if h < 10 {
        push_char(&mut out, '0');
    }
    push_decimal(&mut out, h);
    push_char(&mut out, ':');
    if m < 10 {
        push_char(&mut out, '0');
    }
    push_decimal(&mut out, m);
    push_char(&mut out, ':');
    if s < 10 {
        push_char(&mut out, '0');
    }
    push_decimal(&mut out, s);
    assert(out@ =~= two_digits(h as nat) + seq![':'] + two_digits(m as nat) + seq![':'] + two_digits(
        s as nat,
    ));
    out
}

/// The battery indicator's text for a reading.
pub fn battery_text(pct: u8, st: BatteryState) -> (r: String)
    ensures
        r@ == battery_label(pct, st),
{
    let p = if pct > 100 {
        100
    } else {
        pct
    };
    match st {
        BatteryState::Full => String::from_str("FULL"),
        BatteryState::Charging => {
            let mut s = String::new();
            push_decimal(&mut s, p);
            push_char(&mut s, '+');
            s
        },
        _ => {
            let mut s = String::new();
            push_decimal(&mut s, p);
            push_char(&mut s, '%');
            s
        },
    }
}

impl FbToolbar {
    pub closed spec fn window_view(&self) -> u32 {
        self.window
    }

    pub closed spec fn screen_width_view(&self) -> u16 {
        self.screen_width
    }

    pub closed spec fn screen_height_view(&self) -> u16 {
        self.screen_height
    }

    pub closed spec fn height_view(&self) -> u16 {
        self.style.height
    }

    pub closed spec fn border_view(&self) -> u16 {
        self.style.border_width
    }

    pub closed spec fn placement_view(&self) -> ToolbarPlacement {
        self.style.placement
    }

    pub closed spec fn names_view(&self) -> Seq<Seq<char>> {
        Seq::new(self.workspace_names@.len(), |i: int| self.workspace_names@[i]@)
    }

    pub closed spec fn current_view(&self) -> u32 {
        self.current_workspace
    }

    pub closed spec fn label_view(&self) -> Seq<char> {
        self.label@
    }

    pub closed spec fn items_view(&self) -> Seq<(Seq<char>, bool)> {
        Seq::new(self.window_items@.len(), |i: int| (self.window_items@[i].0@, self.window_items@[i].1))
    }

    pub closed spec fn buttons_view(&self) -> Seq<(usize, Rectangle)> {
        self.button_rects@
    }

    pub closed spec fn window_rects_view(&self) -> Seq<Rectangle> {
        self.window_rects@
    }

    pub closed spec fn label_rect_view(&self) -> Rectangle {
        self.label_rect
    }

    pub closed spec fn clock_rect_view(&self) -> Rectangle {
        self.clock_rect
    }

    pub closed spec fn battery_rect_view(&self) -> Rectangle {
        self.battery_rect
    }

    pub closed spec fn reserve_view(&self) -> i16 {
        self.tray_reserve
    }

    pub closed spec fn battery_width_view(&self) -> i16 {
        self.battery_width
    }

    pub closed spec fn battery_view(&self) -> Option<BatteryReading> {
        self.battery_state
    }

    /// The layout inputs of the current state.
    pub open spec fn layout_input(&self) -> LayoutInput {
        LayoutInput {
            screen_width: self.screen_width_view(),
            border: self.border_view(),
            height: self.height_view(),
            workspaces: self.names_view().len(),
            items: self.items_view().len(),
            tray_reserve: self.reserve_view(),
            battery_width: self.battery_width_view(),
        }
    }

    /// The rectangles hold the layout of the current inputs.
    pub open spec fn laid_out(&self) -> bool {
        let l = self.layout_input();
        let bw = as_i16(l.border);
        &&& self.buttons_view().len() == l.workspaces
        &&& forall|i: int|
            0 <= i < l.workspaces ==> #[trigger] self.buttons_view()[i] == (
                i as usize,
                Rectangle { x: button_x(l, i) as i16, y: bw as i16, width: 24, height: l.height },
            )
        &&& self.window_rects_view().len() == l.items
        &&& forall|i: int|
            0 <= i < l.items ==> #[trigger] self.window_rects_view()[i] == (Rectangle {
                x: item_x(l, i) as i16,
                y: bw as i16,
                width: item_w(l) as u16,
                height: l.height,
            })
        &&& self.label_rect_view() == (Rectangle {
            x: list_x(l) as i16,
            y: bw as i16,
            width: list_w(l) as u16,
            height: l.height,
        })
        &&& self.clock_rect_view() == (Rectangle {
            x: clock_x(l) as i16,
            y: bw as i16,
            width: 144,
            height: l.height,
        })
        &&& self.battery_rect_view() == if l.battery_width > 0 {
            Rectangle {
                x: (clock_x(l) - l.battery_width - GAP) as i16,
                y: bw as i16,
                width: l.battery_width as u16,
                height: l.height,
            }
        } else {
            Rectangle { x: 0, y: 0, width: 0, height: 0 }
        }
    }

    /// A toolbar on window `window` (drawn with `gc` in `fg` on `bg`) for a
    /// `screen_width` x `screen_height` screen, with these workspaces, at
    /// `placement`; a battery indicator is shown when `battery` holds a
    /// reading. Default style otherwise; laid out.
    pub fn new(
        window: u32,
        gc: u32,
        fg_pixel: u32,
        bg_pixel: u32,
        screen_width: u16,
        screen_height: u16,
        workspace_names: Vec<String>,
        placement: ToolbarPlacement,
        battery: Option<BatteryReading>,
    ) -> (r: Self)
        requires
            layout_ok(
                LayoutInput {
                    screen_width,
                    border: 1,
                    height: 24,
                    workspaces: workspace_names@.len(),
                    items: 0,
                    tray_reserve: 0,
                    battery_width: if battery is Some {
                        74
                    } else {
                        0
                    },
                },
            ),
        ensures
            r.window_view() == window,
            r.screen_width_view() == screen_width,
            r.screen_height_view() == screen_height,
            r.height_view() == 24,
            r.border_view() == 1,
            r.placement_view() == placement,
            r.names_view() == Seq::new(workspace_names@.len(), |i: int| workspace_names@[i]@),
            r.current_view() == 0,
            r.label_view() == Seq::<char>::empty(),
            r.items_view().len() == 0,
            r.reserve_view() == 0,
            r.battery_width_view() == (if battery is Some {
                74i16
            } else {
                0i16
            }),
            r.battery_view() == battery,
            r.laid_out(),
    {
        let d = ToolbarStyle::default();
        let style = ToolbarStyle { placement, ..d };
        let battery_width: i16 = if battery.is_some() {
            BATTERY_W
        } else {
            0
        };
        let mut tb = FbToolbar {
            window,
            gc,
            fg_pixel,
            bg_pixel,
            screen_width,
            screen_height,
            style,
            workspace_names,
            current_workspace: 0,
            label: String::new(),
            button_rects: Vec::new(),
            label_rect: Rectangle::zero(),
            clock_rect: Rectangle::zero(),
            window_items: Vec::new(),
            window_rects: Vec::new(),
            tray_reserve: 0,
            battery_width,
            battery_rect: Rectangle::zero(),
            battery_state: battery,
        };
        proof {
            assert(tb.items_view() =~= Seq::<(Seq<char>, bool)>::empty());
        }
        tb.layout();
        tb
    }

    pub fn window_id(&self) -> (r: u32)
        ensures
            r == self.window_view(),
    {
        self.window
    }

    /// The space the toolbar reserves on its edge: its height and borders.
    pub fn strut(&self) -> (r: Strut)
        requires
            self.height_view() + 2 * self.border_view() <= u16::MAX,
        ensures
            r == (match self.placement_view() {
                ToolbarPlacement::Top => Strut {
                    left: 0,
                    right: 0,
                    top: (self.height_view() + 2 * self.border_view()) as u16,
                    bottom: 0,
                },
                ToolbarPlacement::Bottom => Strut {
                    left: 0,
                    right: 0,
                    top: 0,
                    bottom: (self.height_view() + 2 * self.border_view()) as u16,
                },
            }),
    {
        let h = self.style.height + self.style.border_width * 2;
        match self.style.placement {
            ToolbarPlacement::Top => Strut::new(0, 0, h, 0),
            ToolbarPlacement::Bottom => Strut::new(0, 0, 0, h),
        }
    }

    pub fn set_current_workspace(&mut self, ws: u32)
        ensures
            final(self).current_view() == ws,
            final(self).layout_input() == old(self).layout_input(),
            final(self).laid_out() == old(self).laid_out(),
    {
        self.current_workspace = ws;
    }

    /// Replace the workspace names (the layout follows on the next
    /// `layout`).
    pub fn set_workspace_names(&mut self, names: Vec<String>)
        ensures
            final(self).names_view() == Seq::new(names@.len(), |i: int| names@[i]@),
            final(self).items_view() == old(self).items_view(),
            final(self).reserve_view() == old(self).reserve_view(),
            final(self).battery_width_view() == old(self).battery_width_view(),
            final(self).screen_width_view() == old(self).screen_width_view(),
    {
        self.workspace_names = names;
    }

    /// The width the system tray takes, never below 0.
    pub fn set_tray_reserve(&mut self, width: i16)
        ensures
            final(self).reserve_view() == imax(width as int, 0),
            final(self).names_view() == old(self).names_view(),
            final(self).items_view() == old(self).items_view(),
            final(self).battery_width_view() == old(self).battery_width_view(),
            final(self).screen_width_view() == old(self).screen_width_view(),
    {
        self.tray_reserve = if width >= 0 {
            width
        } else {
            0
        };
    }

    /// Screen x of the tray's right edge: left of the battery indicator and
    /// the clock.
    pub fn tray_right_anchor(&self) -> (r: i16)
        requires
            fits(as_i16(self.screen_width_view()) - CLOCK_W),
            fits(as_i16(self.screen_width_view()) - CLOCK_W - self.battery_width_view()),
            fits(as_i16(self.screen_width_view()) - CLOCK_W - self.battery_width_view() - 3 * GAP),
            fits(anchor_of(self.layout_input())),
        ensures
            r == anchor_of(self.layout_input()),
    {
        let bw = u16_as_i16(self.style.border_width);
        u16_as_i16(self.screen_width) - CLOCK_W - self.battery_width - 3 * GAP - bw
    }

    pub fn set_label(&mut self, label: String)
        ensures
            final(self).label_view() == label@,
            final(self).layout_input() == old(self).layout_input(),
            final(self).laid_out() == old(self).laid_out(),
    {
        self.label = label;
    }

    /// A new battery reading (when one could be taken): the indicator is
    /// shown from the first reading on.
    pub fn battery_polled(&mut self, reading: Option<BatteryReading>)
        ensures
            final(self).battery_view() == (match reading {
                Some(s) => Some(s),
                None => old(self).battery_view(),
            }),
            final(self).battery_width_view() == (if reading is Some && old(self).battery_width_view()
                == 0 {
                74i16
            } else {
                old(self).battery_width_view()
            }),
            final(self).names_view() == old(self).names_view(),
            final(self).items_view() == old(self).items_view(),
            final(self).reserve_view() == old(self).reserve_view(),
            final(self).screen_width_view() == old(self).screen_width_view(),
    {
        if let Some(s) = reading {
            if self.battery_width == 0 {
                self.battery_width = BATTERY_W;
            }
            self.battery_state = Some(s);
        }
    }

    /// Replace the running-window list: each entry's name and whether it has
    /// the focus.
    pub fn set_window_items(&mut self, items: Vec<(String, bool)>)
        ensures
            final(self).items_view() == Seq::new(items@.len(), |i: int| (items@[i].0@, items@[i].1)),
            final(self).names_view() == old(self).names_view(),
            final(self).reserve_view() == old(self).reserve_view(),
            final(self).battery_width_view() == old(self).battery_width_view(),
            final(self).screen_width_view() == old(self).screen_width_view(),
    {
        self.window_items = items;
    }

    /// The toolbar window's y on the screen: 0 at the top, else the screen
    /// height less the toolbar's.
    pub fn placement_y(&self) -> (r: i16)
        requires
            self.height_view() + 2 * self.border_view() <= 32767,
            fits(as_i16(self.screen_height_view()) - (self.height_view() + 2 * self.border_view())),
        ensures
            r == (match self.placement_view() {
                ToolbarPlacement::Top => 0,
                ToolbarPlacement::Bottom => as_i16(self.screen_height_view()) - (self.height_view()
                    + 2 * self.border_view()),
            }),
    {
        match self.style.placement {
            ToolbarPlacement::Top => 0,
            ToolbarPlacement::Bottom => {
                u16_as_i16(self.screen_height) - (self.style.height + self.style.border_width * 2) as i16
            },
        }
    }

    /// Recompute the workspace buttons, the window list, the label, battery
    /// and clock rectangles (toolbar-local coordinates).
    pub fn layout(&mut self)
        requires
            layout_ok(old(self).layout_input()),
        ensures
            final(self).laid_out(),
            final(self).layout_input() == old(self).layout_input(),
            final(self).names_view() == old(self).names_view(),
            final(self).items_view() == old(self).items_view(),
            final(self).current_view() == old(self).current_view(),
            final(self).label_view() == old(self).label_view(),
            final(self).window_view() == old(self).window_view(),
            final(self).placement_view() == old(self).placement_view(),
            final(self).screen_height_view() == old(self).screen_height_view(),
            final(self).battery_view() == old(self).battery_view(),
    {
        let ghost l = self.layout_input();
        let h = self.style.height;
        let bw = u16_as_i16(self.style.border_width);
        let y = bw;
        let mut x = bw + GAP;
        let mut rects: Vec<(usize, Rectangle)> = Vec::new();
        let n = self.workspace_names.len();
        let mut i: usize = 0;
        while i < n
            invariant
                n == l.workspaces,
                l == self.layout_input(),
                layout_ok(l),
                bw == as_i16(l.border),
                h == l.height,
                y == bw,
                i <= n,
                x == button_x(l, i as int),
                rects@.len() == i,
                forall|j: int|
                    0 <= j < i ==> #[trigger] rects@[j] == (
                        j as usize,
                        Rectangle { x: button_x(l, j) as i16, y: bw as i16, width: 24, height: h },
                    ),
            decreases n - i,
        {
            rects.push((i, Rectangle::new(x, y, 24, h)));
            assert(button_x(l, i + 1) <= list_x(l)) by (nonlinear_arith)
                requires
                    i + 1 <= l.workspaces,
                    button_x(l, i + 1) == as_i16(l.border) + GAP + (i + 1) * (BUTTON_W + GAP),
                    list_x(l) == as_i16(l.border) + GAP + l.workspaces * (BUTTON_W + GAP),
            ;
            x = x + BUTTON_W + GAP;
            i = i + 1;
        }
        self.button_rects = rects;
        let sw = u16_as_i16(self.screen_width);
        let cw = CLOCK_W + GAP + bw;
        let cdiff = (sw as i32) - (cw as i32);
        let cx: i16 = if cdiff < -32768 {
            -32768
        } else if cdiff > 32767 {
            32767
        } else {
            cdiff as i16
        };
        let lx = x;
        let anchor = sw - CLOCK_W - self.battery_width - 3 * GAP - bw;
        let lr0 = anchor - self.tray_reserve - GAP;
        let lrt = if lr0 >= lx {
            lr0
        } else {
            lx
        };
        let d = lrt - lx;
        let lw: i16 = if d >= 0 {
            d
        } else {
            0
        };
        let mut wrects: Vec<Rectangle> = Vec::new();
        let m = self.window_items.len();
        if m > 0 {
            let nn = m as i16;
            let num = lw - GAP * (nn - 1);
            let q: i16 = if num >= 0 {
                num / nn
            } else {
                (-((-(num as i32)) / (nn as i32))) as i16
            };
            assert(q == tdiv(lw - GAP * (l.items - 1), l.items as int));
            let iw: i16 = if q >= 24 {
                q
            } else {
                24
            };
            let mut ix = lx;
            let mut k: usize = 0;
            while k < m
                invariant
                    m == l.items,
                    l == self.layout_input(),
                    layout_ok(l),
                    m > 0,
                    iw == item_w(l),
                    iw >= 24,
                    bw == as_i16(l.border),
                    y == bw,
                    h == l.height,
                    k <= m,
                    ix == item_x(l, k as int),
                    wrects@.len() == k,
                    forall|j: int|
                        0 <= j < k ==> #[trigger] wrects@[j] == (Rectangle {
                            x: item_x(l, j) as i16,
                            y: bw as i16,
                            width: item_w(l) as u16,
                            height: h,
                        }),
                decreases m - k,
            {
                wrects.push(Rectangle::new(ix, y, iw as u16, h));
                assert(list_x(l) <= item_x(l, k + 1) <= item_x(l, l.items as int)) by (nonlinear_arith)
                    requires
                        k + 1 <= l.items,
                        item_w(l) >= 24,
                        item_x(l, k + 1) == list_x(l) + (k + 1) * (item_w(l) + GAP),
                        item_x(l, l.items as int) == list_x(l) + l.items * (item_w(l) + GAP),
                ;
                assert(item_x(l, k + 1) == item_x(l, k as int) + item_w(l) + GAP) by (nonlinear_arith)
                    requires
                        item_x(l, k + 1) == list_x(l) + (k + 1) * (item_w(l) + GAP),
                        item_x(l, k as int) == list_x(l) + k * (item_w(l) + GAP),
                ;
                ix = ix + iw + GAP;
                k = k + 1;
            }
        }
        self.window_rects = wrects;
        self.label_rect = Rectangle::new(lx, y, lw as u16, h);
        self.clock_rect = Rectangle::new(cx, y, 144, h);
        if self.battery_width > 0 {
            let bx = cx - self.battery_width - GAP;
            self.battery_rect = Rectangle::new(bx, y, self.battery_width as u16, h);
        } else {
            self.battery_rect = Rectangle::zero();
        }
    }

    /// Each workspace button: its index and rectangle.
    pub fn button_rects(&self) -> (r: &[(usize, Rectangle)])
        ensures
            r@ == self.buttons_view(),
    {
        self.button_rects.as_slice()
    }

    /// The rectangles of the listed windows.
    pub fn window_rects(&self) -> (r: &[Rectangle])
        ensures
            r@ == self.window_rects_view(),
    {
        self.window_rects.as_slice()
    }

    /// The listed windows: label and whether each is the active one.
    pub fn window_items(&self) -> (r: &[(String, bool)])
        ensures
            r@.len() == self.items_view().len(),
            forall|i: int| 0 <= i < r@.len() ==> (#[trigger] r@[i]).0@ == self.items_view()[i].0
                && r@[i].1 == self.items_view()[i].1,
    {
        self.window_items.as_slice()
    }

    /// The workspace names on the buttons.
    pub fn workspace_names(&self) -> (r: &[String])
        ensures
            r@.len() == self.names_view().len(),
            forall|i: int| 0 <= i < r@.len() ==> (#[trigger] r@[i])@ == self.names_view()[i],
    {
        self.workspace_names.as_slice()
    }

    /// The workspace shown as current.
    pub fn current_workspace(&self) -> (r: u32)
        ensures
            r == self.current_view(),
    {
        self.current_workspace
    }

    /// The text shown between the window list and the tray.
    pub fn label(&self) -> (r: &str)
        ensures
            r@ == self.label_view(),
    {
        self.label.as_str()
    }

    /// Where the label goes.
    pub fn label_rect(&self) -> (r: Rectangle)
        ensures
            r == self.label_rect_view(),
    {
        self.label_rect
    }

    /// Where the clock goes.
    pub fn clock_rect(&self) -> (r: Rectangle)
        ensures
            r == self.clock_rect_view(),
    {
        self.clock_rect
    }

    /// Where the battery indicator goes.
    pub fn battery_rect(&self) -> (r: Rectangle)
        ensures
            r == self.battery_rect_view(),
    {
        self.battery_rect
    }

    /// The last battery reading, if there is a battery.
    pub fn battery(&self) -> (r: Option<BatteryReading>)
        ensures
            r == self.battery_view(),
    {
        self.battery_state
    }

    /// What a click at toolbar-local (`x`, `y`) hits: the first workspace
    /// button holding it, else the first listed window holding it.
    pub fn handle_button_press(&self, x: i16, y: i16) -> (r: ToolbarAction)
        ensures
            ({
                let b = first_hit(button_rects_of(self.buttons_view()), x as int, y as int);
                let w = first_hit(self.window_rects_view(), x as int, y as int);
                if b >= 0 {
                    r == ToolbarAction::Workspace(self.buttons_view()[b].0)
                } else if w >= 0 {
                    r == ToolbarAction::Window(w as usize)
                } else {
                    r is Nothing
                }
            }),
    {
        let ghost bs = button_rects_of(self.buttons_view());
        let mut i: usize = 0;
        while i < self.button_rects.len()
            invariant
                i <= self.button_rects@.len(),
                bs == button_rects_of(self.buttons_view()),
                first_hit(bs.take(i as int), x as int, y as int) < 0,
            decreases self.button_rects@.len() - i,
        {
            proof {
                assert(bs.take(i + 1).drop_last() =~= bs.take(i as int));
            }
            if self.button_rects[i].1.contains(x, y) {
                proof {
                    lemma_first_hit_prefix(bs, x as int, y as int, i as int);
                }
                return ToolbarAction::Workspace(self.button_rects[i].0);
            }
            i = i + 1;
        }
        proof {
            assert(bs.take(i as int) =~= bs);
        }
        let ghost ws = self.window_rects_view();
        let mut k: usize = 0;
        while k < self.window_rects.len()
            invariant
                k <= self.window_rects@.len(),
                ws == self.window_rects_view(),
                first_hit(bs, x as int, y as int) < 0,
                bs == button_rects_of(self.buttons_view()),
                first_hit(ws.take(k as int), x as int, y as int) < 0,
            decreases self.window_rects@.len() - k,
        {
            proof {
                assert(ws.take(k + 1).drop_last() =~= ws.take(k as int));
            }
            if self.window_rects[k].contains(x, y) {
                proof {
                    lemma_first_hit_prefix(ws, x as int, y as int, k as int);
                }
                return ToolbarAction::Window(k);
            }
            k = k + 1;
        }
        proof {
            assert(ws.take(k as int) =~= ws);
        }
        ToolbarAction::Nothing
    }
}

} // verus!
