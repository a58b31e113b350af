//! The system tray's bookkeeping and layout: docked XEmbed icons, D-Bus
//! (StatusNotifierItem) slots, and the overflow popup behind a chevron slot.
//! Windows are created and moved from outside; this decides where things go.

use vstd::prelude::*;
use crate::text::str_eq;
use crate::core_types::rectangle::{as_i16, Rectangle};

verus! {

/// A docked XEmbed tray icon.
struct TrayIcon {
    window: u32,
}

/// A StatusNotifierItem slot; it shows once it has a pixmap.
struct SniSlot {
    service: String,
    pixmap: Option<u32>,
}

/// Icons shown in a row at most (the rest go to the overflow popup).
pub const MAX_VISIBLE: usize = 4;

/// Side of a tray slot, in pixels.
pub const ICON_SIZE: u16 = 24;

/// The number of slots of `s` that have a pixmap.
pub open spec fn shown_count(s: Seq<(Seq<char>, Option<u32>)>) -> nat
    decreases s.len(),
{
    if s.len() == 0 {
        0
    } else {
        shown_count(s.drop_last()) + if s.last().1 is Some {
            1nat
        } else {
            0nat
        }
    }
}

/// The service of the `k`-th slot of `s` with a pixmap (from 0).
pub open spec fn shown_service(s: Seq<(Seq<char>, Option<u32>)>, k: int) -> Option<Seq<char>>
    decreases s.len(),
{
    if s.len() == 0 || k < 0 {
        None
    } else if s[0].1 is Some {
        if k == 0 {
            Some(s[0].0)
        } else {
            shown_service(s.drop_first(), k - 1)
        }
    } else {
        shown_service(s.drop_first(), k)
    }
}

/// The slot column of a click at `x` (division truncating toward zero).
pub open spec fn click_column(x: int, size: int) -> int {
    if x >= 0 {
        x / size
    } else {
        -((-x) / size)
    }
}

/// Where the tray's windows go on screen.
#[derive(Debug, PartialEq, Eq)]
pub struct TrayPlacement {
    /// The row's rectangle; none when the tray has no slot, and then the row
    /// and the popup are both hidden.
    pub row: Option<Rectangle>,
    /// Each icon shown in the row, with its x inside the row.
    pub shown: Vec<(u32, i16)>,
    /// The popup's rectangle, while it is open and icons overflow.
    pub popup: Option<Rectangle>,
    /// Each overflowing icon with its offset: its y inside the open popup,
    /// or, while the popup is closed, the x past the row's end where it is
    /// kept hidden.
    pub overflow: Vec<(u32, i16)>,
}

/// The system tray.
pub struct FbTray {
    window: u32,
    popup_window: u32,
    gc: u32,
    fg_pixel: u32,
    bg_pixel: u32,
    screen_width: u16,
    screen_height: u16,
    icon_size: u16,
    max_visible: usize,
    right_anchor: i16,
    icons: Vec<TrayIcon>,
    sni_slots: Vec<SniSlot>,
    popup_open: bool,
}

impl FbTray {
    pub closed spec fn window_view(&self) -> u32 {
        self.window
    }

    pub closed spec fn popup_view(&self) -> u32 {
        self.popup_window
    }

    /// The docked icon windows, in docking order.
    pub closed spec fn icons_view(&self) -> Seq<u32> {
        self.icons@.map_values(|i: TrayIcon| i.window)
    }

    /// The D-Bus slots: service and pixmap.
    pub closed spec fn sni_view(&self) -> Seq<(Seq<char>, Option<u32>)> {
        self.sni_slots@.map_values(|s: SniSlot| (s.service@, s.pixmap))
    }

    pub closed spec fn is_popup_open(&self) -> bool {
        self.popup_open
    }

    pub closed spec fn anchor_view(&self) -> i16 {
        self.right_anchor
    }

    pub closed spec fn icon_size_view(&self) -> u16 {
        self.icon_size
    }

    pub closed spec fn max_visible_view(&self) -> usize {
        self.max_visible
    }

    pub closed spec fn screen_height_view(&self) -> u16 {
        self.screen_height
    }

    /// The 16-bit arithmetic of `placement` stays in range.
    pub open spec fn placement_ok(&self) -> bool {
        let size = self.icon_size_view() as int;
        let w = self.slots() * size;
        let y = as_i16(self.screen_height_view()) - size - 2;
        self.slots() > 0 ==> {
            &&& w <= 32767
            &&& -32768 <= self.anchor_view() - w
            &&& -32768 <= y <= 32767
            &&& (self.is_popup_open() && self.xembed_overflow() > 0) ==> {
                &&& self.xembed_overflow() * size <= 32767
                &&& -32768 <= self.anchor_view() - size
                &&& -32768 <= y - self.xembed_overflow() * size
            }
        }
    }

    /// D-Bus slots that show (have a pixmap).
    pub open spec fn sni_shown(&self) -> nat {
        shown_count(self.sni_view())
    }

    /// XEmbed icons shown in the row: as many as fit beside the shown D-Bus
    /// slots.
    pub open spec fn xembed_shown(&self) -> nat {
        let room: int = if self.max_visible_view() >= self.sni_shown() {
            self.max_visible_view() - self.sni_shown()
        } else {
            0
        };
        if self.icons_view().len() <= room {
            self.icons_view().len()
        } else {
            room as nat
        }
    }

    /// XEmbed icons in the overflow popup.
    pub open spec fn xembed_overflow(&self) -> nat {
        (self.icons_view().len() - self.xembed_shown()) as nat
    }

    /// Slots in the row: shown icons, shown D-Bus slots, and the chevron when
    /// icons overflow.
    pub open spec fn slots(&self) -> nat {
        self.xembed_shown() + self.sni_shown() + if self.xembed_overflow() > 0 {
            1nat
        } else {
            0nat
        }
    }

    /// The row's width fits a screen coordinate.
    pub open spec fn fits(&self) -> bool {
        self.slots() * self.icon_size_view() <= i16::MAX
    }

    /// A tray whose container and popup windows (and drawing context and
    /// pixels) were created outside, with no icons, 24-pixel slots and at
    /// most 4 icons in the row.
    pub fn new(
        window: u32,
        popup_window: u32,
        gc: u32,
        fg_pixel: u32,
        bg_pixel: u32,
        screen_width: u16,
        screen_height: u16,
    ) -> (r: Self)
        ensures
            r.window_view() == window,
            r.popup_view() == popup_window,
            r.icons_view().len() == 0,
            r.sni_view().len() == 0,
            !r.is_popup_open(),
            r.anchor_view() == 0,
            r.icon_size_view() == ICON_SIZE,
            r.max_visible_view() == MAX_VISIBLE,
    {
        let r = FbTray {
            window,
            popup_window,
            gc,
            fg_pixel,
            bg_pixel,
            screen_width,
            screen_height,
            icon_size: ICON_SIZE,
            max_visible: MAX_VISIBLE,
            right_anchor: 0,
            icons: Vec::new(),
            sni_slots: Vec::new(),
            popup_open: false,
        };
        assert(r.icons_view() =~= seq![]);
        assert(r.sni_view() =~= seq![]);
        r
    }

    pub fn window_id(&self) -> (r: u32)
        ensures
            r == self.window_view(),
    {
        self.window
    }

    pub fn popup_window_id(&self) -> (r: u32)
        ensures
            r == self.popup_view(),
    {
        self.popup_window
    }

    /// The container, the popup, or a docked icon.
    pub fn owns_window(&self, window: u32) -> (r: bool)
        ensures
            r == (window == self.window_view() || window == self.popup_view()
                || self.icons_view().contains(window)),
    {
        if window == self.window || window == self.popup_window {
            return true;
        }
        let mut i: usize = 0;
        while i < self.icons.len()
            invariant
                i <= self.icons@.len(),
                forall|j: int| 0 <= j < i ==> self.icons_view()[j] != window,
            decreases self.icons@.len() - i,
        {
            if self.icons[i].window == window {
                assert(self.icons_view()[i as int] == window);
                return true;
            }
            i = i + 1;
        }
        false
    }

    /// No icon is docked.
    pub fn is_empty(&self) -> (r: bool)
        ensures
            r == (self.icons_view().len() == 0),
    {
        self.icons.len() == 0
    }

    fn sni_visible(&self) -> (r: usize)
        ensures
            r == self.sni_shown(),
            r <= self.sni_view().len(),
    {
        let ghost s = self.sni_view();
        let mut n: usize = 0;
        let mut i: usize = 0;
        while i < self.sni_slots.len()
            invariant
                i <= self.sni_slots@.len(),
                s == self.sni_view(),
                n == shown_count(s.take(i as int)),
                n <= i,
            decreases self.sni_slots@.len() - i,
        {
            proof {
                assert(s.take(i + 1).drop_last() =~= s.take(i as int));
                assert(s.take(i + 1).last() == s[i as int]);
            }
            if self.sni_slots[i].pixmap.is_some() {
                n = n + 1;
            }
            i = i + 1;
        }
        assert(s.take(i as int) =~= s);
        assert(self.sni_view().len() == self.sni_slots@.len());
        n
    }

    fn visible_xembed(&self) -> (r: usize)
        ensures
            r == self.xembed_shown(),
    {
        let s = self.sni_visible();
        let room = if self.max_visible >= s {
            self.max_visible - s
        } else {
            0
        };
        if self.icons.len() <= room {
            self.icons.len()
        } else {
            room
        }
    }

    fn total_slots(&self) -> (r: u128)
        ensures
            r == self.slots(),
            r <= 0x4_0000_0000_0000_0000,
    {
        let v = self.visible_xembed() as u128;
        let s = self.sni_visible() as u128;
        let over = self.icons.len() as u128 - v;
        v + s + if over > 0 {
            1
        } else {
            0
        }
    }

    /// Whether the row's width fits a screen coordinate (what the layout
    /// functions need).
    pub fn layout_fits(&self) -> (r: bool)
        ensures
            r == self.fits(),
    {
        let t = self.total_slots();
        let size = self.icon_size as u128;
        assert(t * size <= 0x4_0000_0000_0000_0000 * 0xffff) by (nonlinear_arith)
            requires
                t <= 0x4_0000_0000_0000_0000,
                size <= 0xffff,
        ;
        t * size <= 32767
    }

    /// The row's width in pixels.
    pub fn current_width(&self) -> (r: i16)
        requires
            self.fits(),
        ensures
            r == self.slots() * self.icon_size_view(),
    {
        let slots = self.total_slots();
        let size = self.icon_size as u128;
        if slots == 0 || size == 0 {
            assert(slots * size == 0) by (nonlinear_arith)
                requires
                    slots == 0 || size == 0,
            ;
            return 0;
        }
        assert(slots <= 32767 && size <= 32767 && slots * size <= 32767) by (nonlinear_arith)
            requires
                slots * size <= 32767,
                slots >= 1,
                size >= 1,
        ;
        (slots as i16) * (size as i16)
    }

    pub fn popup_open(&self) -> (r: bool)
        ensures
            r == self.is_popup_open(),
    {
        self.popup_open
    }

    /// Where the row's right edge lands on screen.
    pub fn set_anchor(&mut self, anchor: i16)
        ensures
            final(self).anchor_view() == anchor,
            final(self).window_view() == old(self).window_view(),
            final(self).popup_view() == old(self).popup_view(),
            final(self).icons_view() == old(self).icons_view(),
            final(self).sni_view() == old(self).sni_view(),
            final(self).is_popup_open() == old(self).is_popup_open(),
            final(self).icon_size_view() == old(self).icon_size_view(),
            final(self).max_visible_view() == old(self).max_visible_view(),
    {
        self.right_anchor = anchor;
    }

    /// Whether a click at tray-local (`x`, `y`) hits the chevron slot.
    pub fn handle_button_press(&self, x: i16, y: i16) -> (r: bool)
        requires
            self.fits(),
        ensures
            r == (self.xembed_overflow() > 0 && {
                let slot_x = (self.xembed_shown() + self.sni_shown()) * self.icon_size_view();
                slot_x <= x < slot_x + self.icon_size_view() && 0 <= y < self.icon_size_view()
            }),
    {
        let v = self.visible_xembed();
        let s = self.sni_visible();
        if self.icons.len() - v == 0 {
            return false;
        }
        let size = self.icon_size as i32;
        if size == 0 {
            return false;
        }
        proof {
            assert(self.slots() == v + s + 1);
            assert((v + s) * self.icon_size + self.icon_size <= 32767 && v + s <= 32767) by (nonlinear_arith)
                requires
                    (v + s + 1) * self.icon_size <= 32767,
                    self.icon_size >= 1,
            ;
        }
        let slot_x = ((v + s) as i32) * size;
        (x as i32) >= slot_x && (x as i32) < slot_x + size && y >= 0 && (y as i32) < size
    }

    /// The D-Bus service whose slot is under a tray-local click, if any:
    /// slot columns follow the shown icons.
    pub fn sni_slot_at(&self, x: i16, y: i16) -> (r: Option<String>)
        requires
            self.icon_size_view() > 0,
        ensures
            ({
                let size = self.icon_size_view() as int;
                let q = click_column(x as int, size);
                if y < 0 || y >= size || q < self.xembed_shown() {
                    r is None
                } else {
                    match shown_service(self.sni_view(), q - self.xembed_shown()) {
                        Some(s) => r matches Some(t) && t@ == s,
                        None => r is None,
                    }
                }
            }),
    {
        let size = self.icon_size as i32;
        if y < 0 || (y as i32) >= size {
            return None;
        }
        let xi = x as i32;
        let q: i32 = if xi >= 0 {
            xi / size
        } else {
            -((-xi) / size)
        };
        assert(q as int == click_column(x as int, size as int));
        let vx = self.visible_xembed();
        if q < 0 || (q as usize) < vx {
            proof {
                if q < 0 {
                    assert(q < vx);
                }
            }
            return None;
        }
        let target = q as usize - vx;
        let ghost s = self.sni_view();
        assert(s.skip(0) =~= s);
        let mut seen: usize = 0;
        let mut i: usize = 0;
        while i < self.sni_slots.len()
            invariant
                i <= self.sni_slots@.len(),
                s == self.sni_view(),
                seen <= target,
                seen <= i,
                target as int == click_column(x as int, self.icon_size_view() as int)
                    - self.xembed_shown(),
                click_column(x as int, self.icon_size_view() as int) >= self.xembed_shown(),
                0 <= y < self.icon_size_view(),
                shown_service(s, target as int) == shown_service(s.skip(i as int), target - seen),
            decreases self.sni_slots@.len() - i,
        {
            proof {
                assert(s.skip(i as int).drop_first() =~= s.skip(i + 1));
                assert(s.skip(i as int)[0] == s[i as int]);
            }
            if self.sni_slots[i].pixmap.is_some() {
                if seen == target {
                    let t = self.sni_slots[i].service.clone();
                    proof {
                        assert(s[i as int].1 is Some);
                        assert(shown_service(s.skip(i as int), 0) == Some(s[i as int].0));
                        assert(s[i as int].0 == t@);
                    }
                    return Some(t);
                }
                seen = seen + 1;
            }
            i = i + 1;
        }
        assert(s.skip(i as int).len() == 0);
        None
    }

    /// Dock an icon window (not already the tray's own).
    pub fn dock(&mut self, client: u32) -> (added: bool)
        ensures
            added == !(client == old(self).window_view() || client == old(self).popup_view()
                || old(self).icons_view().contains(client)),
            added ==> final(self).icons_view() == old(self).icons_view().push(client),
            !added ==> final(self).icons_view() == old(self).icons_view(),
            final(self).sni_view() == old(self).sni_view(),
            final(self).window_view() == old(self).window_view(),
            final(self).popup_view() == old(self).popup_view(),
            final(self).is_popup_open() == old(self).is_popup_open(),
            final(self).icon_size_view() == old(self).icon_size_view(),
            final(self).max_visible_view() == old(self).max_visible_view(),
            final(self).anchor_view() == old(self).anchor_view(),
    {
        if self.owns_window(client) {
            return false;
        }
        let ghost before = self.icons@;
        self.icons.push(TrayIcon { window: client });
        assert(self.icons_view() =~= before.map_values(|i: TrayIcon| i.window).push(client));
        true
    }

    /// Undock an icon window (its first entry), if docked.
    pub fn undock(&mut self, window: u32) -> (removed: bool)
        ensures
            removed == old(self).icons_view().contains(window),
            removed ==> exists|i: int|
                0 <= i < old(self).icons_view().len() && old(self).icons_view()[i] == window
                    && (forall|j: int| 0 <= j < i ==> old(self).icons_view()[j] != window)
                    && final(self).icons_view() == old(self).icons_view().remove(i),
            !removed ==> final(self).icons_view() == old(self).icons_view(),
            final(self).sni_view() == old(self).sni_view(),
            final(self).window_view() == old(self).window_view(),
            final(self).popup_view() == old(self).popup_view(),
            final(self).is_popup_open() == old(self).is_popup_open(),
            final(self).icon_size_view() == old(self).icon_size_view(),
            final(self).max_visible_view() == old(self).max_visible_view(),
            final(self).anchor_view() == old(self).anchor_view(),
    {
        let ghost iv = self.icons_view();
        let mut i: usize = 0;
        while i < self.icons.len()
            invariant
                i <= self.icons@.len(),
                iv == self.icons_view(),
                *self == *old(self),
                forall|j: int| 0 <= j < i ==> iv[j] != window,
            decreases self.icons@.len() - i,
        {
            if self.icons[i].window == window {
                assert(iv[i as int] == window);
                self.icons.remove(i);
                assert(self.icons_view() =~= iv.remove(i as int));
                return true;
            }
            i = i + 1;
        }
        proof {
            if iv.contains(window) {
                let j = choose|j: int| 0 <= j < iv.len() && iv[j] == window;
                assert(iv[j] != window);
            }
        }
        false
    }

    /// Whether `placement` can be asked for (its arithmetic stays in range).
    pub fn placement_fits(&self) -> (r: bool)
        ensures
            r == self.placement_ok(),
    {
        let slots = self.total_slots();
        if slots == 0 {
            return true;
        }
        if !self.layout_fits() {
            return false;
        }
        let ghost sz = self.icon_size as int;
        let size = self.icon_size as i64;
        proof {
            if sz >= 1 {
                lemma_le_mul(slots as int, sz);
            }
        }
        let w: i64 = if size == 0 {
            assert(slots * sz == 0) by (nonlinear_arith)
                requires
                    sz == 0,
            ;
            0
        } else {
            let c = slots as i64;
            c * size
        };
        let sh = self.screen_height;
        assert((sh as i16) as int == if sh <= 32767 { sh as int } else { sh as int - 65536 }) by (bit_vector);
        let y: i64 = (sh as i16) as i64 - size - 2;
        let anchor = self.right_anchor as i64;
        if !(-32768 <= anchor - w && -32768 <= y && y <= 32767) {
            return false;
        }
        let vis = self.visible_xembed();
        let over = self.icons.len() - vis;
        if self.popup_open && over > 0 {
            if over > 32767 {
                proof {
                    if sz >= 1 {
                        lemma_le_mul(over as int, sz);
                    }
                }
                if size == 0 {
                    assert(over * sz == 0) by (nonlinear_arith)
                        requires
                            sz == 0,
                    ;
                    return -32768 <= anchor - size && -32768 <= y;
                }
                return false;
            }
            assert(over * sz <= 32767 * 65535) by (nonlinear_arith)
                requires
                    over <= 32767,
                    sz <= 65535,
                    0 <= sz,
                    0 <= over,
            ;
            let h = (over as i64) * size;
            return h <= 32767 && -32768 <= anchor - size && -32768 <= y - h;
        }
        true
    }

    /// Where the row, its icons and the overflow popup go: the row ends at
    /// the anchor, two pixels above the screen's bottom edge; shown icons sit
    /// side by side from its left; the popup stands one slot wide above the
    /// chevron slot, its icons stacked from its top.
    pub fn placement(&self) -> (r: TrayPlacement)
        requires
            self.placement_ok(),
        ensures
            self.slots() == 0 ==> r.row is None && r.popup is None && r.shown@.len() == 0
                && r.overflow@.len() == 0,
            self.slots() > 0 ==> {
                let size = self.icon_size_view() as int;
                let w = self.slots() * size;
                let y = as_i16(self.screen_height_view()) - size - 2;
                let vis = self.xembed_shown() as int;
                let open = self.is_popup_open() && self.xembed_overflow() > 0;
                &&& r.row == Some(
                    Rectangle {
                        x: (self.anchor_view() - w) as i16,
                        y: y as i16,
                        width: w as u16,
                        height: self.icon_size_view(),
                    },
                )
                &&& r.shown@.len() == vis
                &&& forall|i: int|
                    0 <= i < vis ==> #[trigger] r.shown@[i] == (self.icons_view()[i], (i * size) as i16)
                &&& r.overflow@.len() == self.xembed_overflow()
                &&& open ==> r.popup == Some(
                    Rectangle {
                        x: (self.anchor_view() - size) as i16,
                        y: (y - self.xembed_overflow() * size) as i16,
                        width: self.icon_size_view(),
                        height: (self.xembed_overflow() * size) as u16,
                    },
                ) && forall|j: int|
                    0 <= j < self.xembed_overflow() ==> #[trigger] r.overflow@[j] == (
                        self.icons_view()[vis + j],
                        (j * size) as i16,
                    )
                &&& !open ==> r.popup is None && forall|j: int|
                    0 <= j < self.xembed_overflow() ==> #[trigger] r.overflow@[j] == (
                        self.icons_view()[vis + j],
                        w as i16,
                    )
            },
    {
        let slots = self.total_slots();
        if slots == 0 {
            return TrayPlacement { row: None, shown: Vec::new(), popup: None, overflow: Vec::new() };
        }
        let ghost sz = self.icon_size as int;
        let size: i32 = self.icon_size as i32;
        let w: i32 = if size == 0 {
            assert(slots * sz == 0) by (nonlinear_arith)
                requires
                    sz == 0,
            ;
            0
        } else {
            proof {
                lemma_le_mul(slots as int, sz);
            }
            let c = slots as i32;
            assert(c == slots);
            c * size
        };
        assert(w == slots * sz);
        let sh = self.screen_height;
        assert((sh as i16) as int == if sh <= 32767 { sh as int } else { sh as int - 65536 }) by (bit_vector);
        let y: i32 = (sh as i16) as i32 - size - 2;
        let vis = self.visible_xembed();
        let n = self.icons.len();
        proof {
            lemma_mul_mono(vis as int, slots as int, sz);
        }
        let row = Rectangle { x: (self.right_anchor as i32 - w) as i16, y: y as i16, width: w as u16, height: self.icon_size };
        let mut shown: Vec<(u32, i16)> = Vec::new();
        let mut i: usize = 0;
        let mut x: i32 = 0;
        while i < vis
            invariant
                i <= vis,
                vis == self.xembed_shown(),
                vis <= self.icons@.len(),
                vis * sz <= 32767,
                size == sz,
                0 <= sz,
                x == i * sz,
                shown@.len() == i,
                forall|k: int| 0 <= k < i ==> #[trigger] shown@[k] == (self.icons_view()[k], (k * sz) as i16),
            decreases vis - i,
        {
            proof {
                lemma_mul_mono(i as int + 1, vis as int, sz);
                lemma_mul_succ(i as int, sz);
            }
            shown.push((self.icons[i].window, x as i16));
            x = x + size;
            i = i + 1;
        }
        let open = self.popup_open && n > vis;
        let mut overflow: Vec<(u32, i16)> = Vec::new();
        let mut j: usize = 0;
        let mut off: i32 = 0;
        let over = n - vis;
        while j < over
            invariant
                j <= over,
                over == n - vis,
                n == self.icons@.len(),
                vis == self.xembed_shown(),
                vis <= n,
                size == sz,
                0 <= sz,
                w == slots * sz,
                slots * sz <= 32767,
                open ==> over * sz <= 32767,
                open == (self.is_popup_open() && self.xembed_overflow() > 0),
                over == self.xembed_overflow(),
                open ==> off == j * sz,
                overflow@.len() == j,
                forall|k: int|
                    0 <= k < j ==> #[trigger] overflow@[k] == (
                        self.icons_view()[vis + k],
                        if open { (k * sz) as i16 } else { w as i16 },
                    ),
            decreases over - j,
        {
            proof {
                lemma_mul_succ(j as int, sz);
                if open {
                    lemma_mul_mono(j as int + 1, over as int, sz);
                }
            }
            let at: i16 = if open { off as i16 } else { w as i16 };
            overflow.push((self.icons[vis + j].window, at));
            if open {
                off = off + size;
            } else {
                off = 0;
            }
            j = j + 1;
        }
        let popup = if open {
            let h: i32 = if size == 0 {
                assert(over * sz == 0) by (nonlinear_arith)
                    requires
                        sz == 0,
                ;
                0
            } else {
                proof {
                    lemma_le_mul(over as int, sz);
                }
                let c = over as i32;
                assert(c == over);
                c * size
            };
            Some(Rectangle { x: (self.right_anchor as i32 - size) as i16, y: (y - h) as i16, width: self.icon_size, height: h as u16 })
        } else {
            None
        };
        TrayPlacement { row: Some(row), shown, popup, overflow }
    }

    /// Open a closed popup, close an open one.
    pub fn toggle_popup(&mut self)
        ensures
            final(self).is_popup_open() == !old(self).is_popup_open(),
            final(self).icons_view() == old(self).icons_view(),
            final(self).sni_view() == old(self).sni_view(),
            final(self).window_view() == old(self).window_view(),
            final(self).popup_view() == old(self).popup_view(),
            final(self).icon_size_view() == old(self).icon_size_view(),
            final(self).max_visible_view() == old(self).max_visible_view(),
            final(self).anchor_view() == old(self).anchor_view(),
    {
        self.popup_open = !self.popup_open;
    }

    /// Close the popup when a click lands outside the tray and the popup;
    /// the result says whether it closed.
    pub fn close_popup_on(&mut self, event_window: u32) -> (closed: bool)
        ensures
            closed == (old(self).is_popup_open() && event_window != old(self).window_view()
                && event_window != old(self).popup_view()),
            final(self).is_popup_open() == (old(self).is_popup_open() && !closed),
            final(self).icons_view() == old(self).icons_view(),
            final(self).sni_view() == old(self).sni_view(),
            final(self).window_view() == old(self).window_view(),
            final(self).popup_view() == old(self).popup_view(),
            final(self).icon_size_view() == old(self).icon_size_view(),
            final(self).max_visible_view() == old(self).max_visible_view(),
            final(self).anchor_view() == old(self).anchor_view(),
    {
        if self.popup_open && event_window != self.window && event_window != self.popup_window {
            self.popup_open = false;
            true
        } else {
            false
        }
    }

    /// Add a D-Bus slot for `service` (once), without a pixmap yet.
    pub fn sni_add(&mut self, service: &str) -> (added: bool)
        ensures
            added == !(exists|i: int|
                0 <= i < old(self).sni_view().len() && old(self).sni_view()[i].0 == service@),
            added ==> final(self).sni_view() == old(self).sni_view().push((service@, None)),
            !added ==> final(self).sni_view() == old(self).sni_view(),
            final(self).icons_view() == old(self).icons_view(),
            final(self).window_view() == old(self).window_view(),
            final(self).popup_view() == old(self).popup_view(),
            final(self).is_popup_open() == old(self).is_popup_open(),
            final(self).icon_size_view() == old(self).icon_size_view(),
            final(self).max_visible_view() == old(self).max_visible_view(),
            final(self).anchor_view() == old(self).anchor_view(),
    {
        match self.sni_find(service) {
            Some(_) => false,
            None => {
                let ghost before = self.sni_slots@;
                self.sni_slots.push(SniSlot { service: String::from_str(service), pixmap: None });
                assert(self.sni_view() =~= before.map_values(
                    |s: SniSlot| (s.service@, s.pixmap),
                ).push((service@, None)));
                true
            },
        }
    }

    fn sni_find(&self, service: &str) -> (r: Option<usize>)
        ensures
            r is None <==> !(exists|i: int|
                0 <= i < self.sni_view().len() && self.sni_view()[i].0 == service@),
            r matches Some(i) ==> i < self.sni_view().len() && self.sni_view()[i as int].0
                == service@ && forall|j: int| 0 <= j < i ==> self.sni_view()[j].0 != service@,
    {
        let mut i: usize = 0;
        while i < self.sni_slots.len()
            invariant
                i <= self.sni_slots@.len(),
                forall|j: int| 0 <= j < i ==> self.sni_view()[j].0 != service@,
            decreases self.sni_slots@.len() - i,
        {
            if str_eq(self.sni_slots[i].service.as_str(), service) {
                assert(self.sni_view()[i as int].0 == service@);
                return Some(i);
            }
            i = i + 1;
        }
        None
    }

    /// Drop the (first) D-Bus slot of `service`; the result is `None` when
    /// there is none, else the slot's pixmap (to be freed).
    pub fn sni_remove(&mut self, service: &str) -> (r: Option<Option<u32>>)
        ensures
            r is None <==> !(exists|i: int|
                0 <= i < old(self).sni_view().len() && old(self).sni_view()[i].0 == service@),
            r is None ==> final(self).sni_view() == old(self).sni_view(),
            r matches Some(pm) ==> exists|i: int|
                0 <= i < old(self).sni_view().len() && old(self).sni_view()[i].0 == service@
                    && (forall|j: int| 0 <= j < i ==> old(self).sni_view()[j].0 != service@)
                    && pm == old(self).sni_view()[i].1 && final(self).sni_view() == old(
                    self,
                ).sni_view().remove(i),
            final(self).icons_view() == old(self).icons_view(),
            final(self).window_view() == old(self).window_view(),
            final(self).popup_view() == old(self).popup_view(),
            final(self).is_popup_open() == old(self).is_popup_open(),
            final(self).icon_size_view() == old(self).icon_size_view(),
            final(self).max_visible_view() == old(self).max_visible_view(),
            final(self).anchor_view() == old(self).anchor_view(),
    {
        match self.sni_find(service) {
            None => None,
            Some(i) => {
                let ghost sv = self.sni_view();
                let slot = self.sni_slots.remove(i);
                assert(self.sni_view() =~= sv.remove(i as int));
                Some(slot.pixmap)
            },
        }
    }

    /// Give the (first) D-Bus slot of `service` the pixmap `pm`; the result
    /// is the pixmap it had (to be freed), `None` when there is no such slot.
    pub fn sni_set_pixmap(&mut self, service: &str, pm: u32) -> (r: Option<Option<u32>>)
        ensures
            r is None <==> !(exists|i: int|
                0 <= i < old(self).sni_view().len() && old(self).sni_view()[i].0 == service@),
            r is None ==> final(self).sni_view() == old(self).sni_view(),
            r matches Some(prev) ==> exists|i: int|
                0 <= i < old(self).sni_view().len() && old(self).sni_view()[i].0 == service@
                    && (forall|j: int| 0 <= j < i ==> old(self).sni_view()[j].0 != service@)
                    && prev == old(self).sni_view()[i].1 && final(self).sni_view() == old(
                    self,
                ).sni_view().update(i, (service@, Some(pm))),
            final(self).icons_view() == old(self).icons_view(),
            final(self).window_view() == old(self).window_view(),
            final(self).popup_view() == old(self).popup_view(),
            final(self).is_popup_open() == old(self).is_popup_open(),
            final(self).icon_size_view() == old(self).icon_size_view(),
            final(self).max_visible_view() == old(self).max_visible_view(),
            final(self).anchor_view() == old(self).anchor_view(),
    {
        match self.sni_find(service) {
            None => None,
            Some(i) => {
                let ghost sv = self.sni_view();
                let prev = self.sni_slots[i].pixmap;
                let mut slot = self.sni_slots.remove(i);
                slot.pixmap = Some(pm);
                self.sni_slots.insert(i, slot);
                assert(self.sni_view() =~= sv.update(i as int, (service@, Some(pm))));
                Some(prev)
            },
        }
    }
}

proof fn lemma_mul_mono(a: int, b: int, c: int)
    requires
        0 <= a <= b,
        0 <= c,
    ensures
        a * c <= b * c,
{
    assert(a * c <= b * c) by (nonlinear_arith)
        requires
            0 <= a <= b,
            0 <= c,
    ;
}

proof fn lemma_le_mul(a: int, c: int)
    requires
        0 <= a,
        1 <= c,
    ensures
        a <= a * c,
{
    assert(a <= a * c) by (nonlinear_arith)
        requires
            0 <= a,
            1 <= c,
    ;
}

proof fn lemma_mul_succ(a: int, c: int)
    ensures
        (a + 1) * c == a * c + c,
{
    assert((a + 1) * c == a * c + c) by (nonlinear_arith);
}

} // verus!
