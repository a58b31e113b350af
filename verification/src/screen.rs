//! Decisions of a screen: how a pointer drag moves and resizes a window,
//! which fields a client's configure request carries, when a new window is a
//! dock app, what key bindings do to focus and workspaces, and how each X
//! event is answered.
//!
//! The X requests themselves are made by the program around the library; it
//! hands these functions plain values and carries out what they return.
use vstd::prelude::*;
use crate::core_types::rectangle::{as_i16, as_u16, imax, imin, Rectangle};
use crate::core_types::Strut;
use crate::keys::{binding_matches, KeyAction, KeyBinding};
use crate::text::{find_char, lines, lines_of, parse_unsigned, parse_unsigned_range, push_char, string_of, index_of};
use crate::toolbar::decimal;
use crate::workspace::Workspace;
use crate::menu::menuitem::{kind_view, KindView, MenuItemType};
use crate::slit::FbSlit;
use crate::tray::FbTray;
use crate::window::frame::{button_hit, hit_test_button, ButtonType, FrameButton};
use crate::window::{covers, covers_ok, covers_workarea, NormalHints, RustboxWindow};

verus! {

/// `v` fits in an `i16`.
pub open spec fn in_i16(v: int) -> bool {
    -32768 <= v <= 32767
}

/// `a / b` rounded toward zero, as Rust divides integers.
pub open spec fn tdiv(a: int, b: int) -> int {
    if a >= 0 {
        a / b
    } else {
        -((-a) / b)
    }
}

/// `a / 3` on `i16`.
fn div3(a: i16) -> (r: i16)
    ensures
        r == tdiv(a as int, 3),
{
    if a >= 0 {
        a / 3
    } else {
        (-((-(a as i32)) / 3)) as i16
    }
}

// ---------------------------------------------------------------------------
// Dragging
// ---------------------------------------------------------------------------

/// Where a resize grabbed its window, and the window's geometry then.
#[derive(Clone, Copy, Debug, PartialEq, Eq, Structural)]
pub struct ResizeGrab {
    /// The edges being dragged: 1 left, 2 right, 4 top, 8 bottom.
    pub corner: u8,
    pub start_root_x: i16,
    pub start_root_y: i16,
    pub win_x: i16,
    pub win_y: i16,
    pub win_w: u16,
    pub win_h: u16,
}

/// A pointer drag in progress.
#[derive(Clone, Copy, Debug, PartialEq, Eq, Structural)]
pub enum DragState {
    Idle,
    /// Moving a window; the pointer holds it at this offset.
    Moving { window_id: u32, off_x: i16, off_y: i16 },
    Resizing { window_id: u32, grab: ResizeGrab },
}

impl DragState {
    /// Whether a drag is in progress.
    pub fn is_active(&self) -> (r: bool)
        ensures
            r == !(*self is Idle),
    {
        !matches!(self, DragState::Idle)
    }
}

/// The edges a resize grabs for a press at (`lx`, `ly`) inside a frame
/// `fw` x `fh`: the left, right, top or bottom third (1, 2, 4, 8), combined.
pub open spec fn corner_of(lx: int, ly: int, fw: int, fh: int) -> u8 {
    let h: int = if lx < tdiv(fw, 3) {
        1
    } else if lx > tdiv(fw * 2, 3) {
        2
    } else {
        0
    };
    let v: int = if ly < tdiv(fh, 3) {
        4
    } else if ly > tdiv(fh * 2, 3) {
        8
    } else {
        0
    };
    (h + v) as u8
}

/// The frame's outer width and height for a client `geom` with this border
/// and titlebar.
pub open spec fn frame_size(geom: Rectangle, border: u16, title: u16) -> (int, int) {
    let bw = as_i16(border);
    (as_i16(geom.width) + bw * 2, as_i16(geom.height) + as_i16(title) + bw * 2)
}

/// The `i16` arithmetic of `resize_corner` stays in range.
pub open spec fn corner_ok(geom: Rectangle, border: u16, title: u16) -> bool {
    let bw = as_i16(border);
    let (fw, fh) = frame_size(geom, border, title);
    &&& in_i16(bw * 2)
    &&& in_i16(as_i16(geom.height) + as_i16(title))
    &&& in_i16(fw) && in_i16(fh)
    &&& in_i16(fw * 2) && in_i16(fh * 2)
}

/// The edges that a resize started by a press at (`local_x`, `local_y`),
/// relative to the frame of a window with client geometry `geom`, drags.
pub fn resize_corner(local_x: i16, local_y: i16, geom: Rectangle, border: u16, title: u16) -> (r: u8)
    requires
        corner_ok(geom, border, title),
    ensures
        r == corner_of(
            local_x as int,
            local_y as int,
            frame_size(geom, border, title).0,
            frame_size(geom, border, title).1,
        ),
{
    let bw = crate::core_types::rectangle::u16_as_i16(border);
    let gw = crate::core_types::rectangle::u16_as_i16(geom.width);
    let gh = crate::core_types::rectangle::u16_as_i16(geom.height);
    let th = crate::core_types::rectangle::u16_as_i16(title);
    let fw = gw + bw * 2;
    let fh = gh + th + bw * 2;
    let h: u8 = if local_x < div3(fw) {
        1
    } else if local_x > div3(fw * 2) {
        2
    } else {
        0
    };
    let v: u8 = if local_y < div3(fh) {
        4
    } else if local_y > div3(fh * 2) {
        8
    } else {
        0
    };
    h + v
}

/// One axis of a move: `p` kept inside the workarea span `[lo, lo + span)`
/// when a window of length `len` fits in it, else pinned to `lo`.
pub open spec fn keep_inside(p: int, lo: int, span: u16, len: u16) -> int {
    if as_i16(len) >= as_i16(span) {
        lo
    } else {
        imin(imax(p, lo), lo + as_i16(span) - as_i16(len))
    }
}

/// Where a moved window goes with the pointer at (`root_x`, `root_y`),
/// holding it at (`off_x`, `off_y`); a window that is not fullscreen stays
/// inside the workarea `wa`.
pub open spec fn move_target(
    root_x: int,
    root_y: int,
    off_x: int,
    off_y: int,
    fullscreen: bool,
    geom: Rectangle,
    wa: Rectangle,
) -> (int, int) {
    if fullscreen {
        (root_x - off_x, root_y - off_y)
    } else {
        (
            keep_inside(root_x - off_x, wa.x as int, wa.width, geom.width),
            keep_inside(root_y - off_y, wa.y as int, wa.height, geom.height),
        )
    }
}

/// The `i16` arithmetic of a move stays in range.
pub open spec fn move_ok(
    root_x: int,
    root_y: int,
    off_x: int,
    off_y: int,
    fullscreen: bool,
    geom: Rectangle,
    wa: Rectangle,
) -> bool {
    &&& in_i16(root_x - off_x)
    &&& in_i16(root_y - off_y)
    &&& (!fullscreen && as_i16(geom.width) < as_i16(wa.width)) ==> in_i16(wa.x + as_i16(wa.width))
        && in_i16(wa.x + as_i16(wa.width) - as_i16(geom.width))
    &&& (!fullscreen && as_i16(geom.height) < as_i16(wa.height)) ==> in_i16(
        wa.y + as_i16(wa.height),
    ) && in_i16(wa.y + as_i16(wa.height) - as_i16(geom.height))
}

/// One axis of `move_position`.
fn keep_inside_exec(p: i16, lo: i16, span: u16, len: u16) -> (r: i16)
    requires
        as_i16(len) < as_i16(span) ==> in_i16(lo + as_i16(span)) && in_i16(
            lo + as_i16(span) - as_i16(len),
        ),
    ensures
        r == keep_inside(p as int, lo as int, span, len),
{
    let s = crate::core_types::rectangle::u16_as_i16(span);
    let l = crate::core_types::rectangle::u16_as_i16(len);
    if l >= s {
        lo
    } else {
        let hi = lo + s - l;
        if p < lo {
            lo
        } else if p > hi {
            hi
        } else {
            p
        }
    }
}

/// The new position of a window being moved (the `Moving` drag): the
/// pointer position less the grab offset, kept inside the workarea unless
/// the window is fullscreen.
pub fn move_position(
    root_x: i16,
    root_y: i16,
    off_x: i16,
    off_y: i16,
    fullscreen: bool,
    geom: Rectangle,
    wa: Rectangle,
) -> (r: (i16, i16))
    requires
        move_ok(root_x as int, root_y as int, off_x as int, off_y as int, fullscreen, geom, wa),
    ensures
        (r.0 as int, r.1 as int) == move_target(
            root_x as int,
            root_y as int,
            off_x as int,
            off_y as int,
            fullscreen,
            geom,
            wa,
        ),
        !fullscreen && as_i16(geom.width) < as_i16(wa.width) ==> wa.x <= r.0 && r.0 + as_i16(
            geom.width,
        ) <= wa.x + as_i16(wa.width),
        !fullscreen && as_i16(geom.height) < as_i16(wa.height) ==> wa.y <= r.1 && r.1 + as_i16(
            geom.height,
        ) <= wa.y + as_i16(wa.height),
{
    let x = root_x - off_x;
    let y = root_y - off_y;
    if fullscreen {
        (x, y)
    } else {
        (keep_inside_exec(x, wa.x, wa.width, geom.width), keep_inside_exec(y, wa.y, wa.height, geom.height))
    }
}

/// `h.min_width.max(1) as i16`.
pub open spec fn hint_min(v: u16) -> int {
    as_i16(if v >= 1 {
        v
    } else {
        1
    })
}

/// `(h.max_width as i32).min(i16::MAX as i32) as i16`.
pub open spec fn hint_max(v: u16) -> int {
    if v > 32767 {
        32767
    } else {
        v as int
    }
}

/// `h.width_inc.max(1)`.
pub open spec fn hint_inc(v: u16) -> int {
    if v >= 1 {
        v as int
    } else {
        1
    }
}

/// `v` rounded down to `base` plus a whole number of `inc` steps (`base`
/// when `v` is below it).
pub open spec fn snap(v: int, base: int, inc: int) -> int {
    base + ((if v >= base {
        v - base
    } else {
        0
    }) / inc) * inc
}

/// `v` clamped to `[lo, hi]`.
pub open spec fn clamp(v: int, lo: int, hi: int) -> int {
    if v < lo {
        lo
    } else if v > hi {
        hi
    } else {
        v
    }
}

/// One axis of a resize, before the workarea cap: the dragged edge moves by
/// `d`; returns the new start and length.
pub open spec fn drag_axis(lo_edge: bool, hi_edge: bool, start: int, len: int, d: int, min: int) -> (
    int,
    int,
) {
    if lo_edge {
        let n = imax(len - d, min);
        (start + (len - n), n)
    } else if hi_edge {
        (start, imax(len + d, min))
    } else {
        (start, len)
    }
}

/// One axis of the workarea cap: the fixed edge stays, the dragged one may
/// not pass the workarea `[wa_lo, wa_lo + wa_len)`.
pub open spec fn cap_axis(
    lo_edge: bool,
    hi_edge: bool,
    start: int,
    pos: int,
    len: int,
    new_len: int,
    wa_lo: int,
    wa_len: u16,
    min: int,
    max: int,
) -> (int, int) {
    if lo_edge {
        let far = start + len;
        let n = as_u16(imin(imax(imin(as_i16(new_len as u16), far - wa_lo), min), max));
        (far - as_i16(n as u16), n)
    } else if hi_edge {
        (pos, as_u16(imin(imax(imin(as_i16(new_len as u16), wa_lo + as_i16(wa_len) - start), min), max)))
    } else {
        (pos, new_len)
    }
}

/// One axis of a resize up to the workarea cap: start and length.
pub open spec fn axis_capped(
    lo_edge: bool,
    hi_edge: bool,
    start: int,
    len_u: u16,
    d: int,
    min: int,
    max: int,
    fullscreen: bool,
    wa_lo: int,
    wa_len: u16,
) -> (int, int) {
    let len = as_i16(len_u);
    let (p1, l1) = drag_axis(lo_edge, hi_edge, start, len, d, min);
    if fullscreen {
        (p1, as_u16(l1))
    } else {
        cap_axis(lo_edge, hi_edge, start, p1, len, as_u16(l1), wa_lo, wa_len, min, max)
    }
}

/// One axis of a resize: the capped length snapped to `base` plus steps of
/// `inc` and clamped to `[min, max]`; a dragged low edge is placed so that the
/// high edge stays where it was.
pub open spec fn axis_final(
    lo_edge: bool,
    hi_edge: bool,
    start: int,
    len_u: u16,
    d: int,
    min: int,
    max: int,
    fullscreen: bool,
    wa_lo: int,
    wa_len: u16,
    base: int,
    inc: int,
) -> (int, int) {
    let (p2, l2) = axis_capped(lo_edge, hi_edge, start, len_u, d, min, max, fullscreen, wa_lo, wa_len);
    let l3 = clamp(snap(l2, base, inc), as_u16(min), as_u16(max));
    let p3 = if lo_edge {
        start + as_i16(len_u) - as_i16(l3 as u16)
    } else {
        p2
    };
    (p3, l3)
}

/// The geometry of a window being resized (the `Resizing` drag) with the
/// pointer at (`root_x`, `root_y`): each dragged edge follows the pointer
/// from where the grab started and the size stays at least the minimum of
/// the size hints; unless the window is fullscreen the dragged edges stop at
/// the workarea; then the size snaps to the hints' increments and is clamped
/// to their minimum and maximum, and the fixed edges stay where they were.
pub open spec fn resize_target(
    g: ResizeGrab,
    root_x: int,
    root_y: int,
    h: NormalHints,
    fullscreen: bool,
    wa: Rectangle,
) -> Rectangle {
    let (x, w) = axis_final(
        g.corner & 1 != 0,
        g.corner & 2 != 0,
        g.win_x as int,
        g.win_w,
        root_x - g.start_root_x,
        hint_min(h.min_width),
        hint_max(h.max_width),
        fullscreen,
        wa.x as int,
        wa.width,
        h.base_width as int,
        hint_inc(h.width_inc),
    );
    let (y, hh) = axis_final(
        g.corner & 4 != 0,
        g.corner & 8 != 0,
        g.win_y as int,
        g.win_h,
        root_y - g.start_root_y,
        hint_min(h.min_height),
        hint_max(h.max_height),
        fullscreen,
        wa.y as int,
        wa.height,
        h.base_height as int,
        hint_inc(h.height_inc),
    );
    Rectangle { x: x as i16, y: y as i16, width: w as u16, height: hh as u16 }
}

/// The `i16` arithmetic of one axis of a resize stays in range, and the
/// minimum is not above the maximum (`clamp` refuses that).
pub open spec fn axis_ok(
    lo_edge: bool,
    hi_edge: bool,
    start: int,
    len_u: u16,
    d: int,
    min: int,
    max: int,
    fullscreen: bool,
    wa_lo: int,
    wa_len: u16,
    base: int,
    inc: int,
) -> bool {
    let len = as_i16(len_u);
    let (p1, l1) = drag_axis(lo_edge, hi_edge, start, len, d, min);
    let far = start + len;
    let (p2, l2) = axis_capped(lo_edge, hi_edge, start, len_u, d, min, max, fullscreen, wa_lo, wa_len);
    let (p3, l3) = axis_final(
        lo_edge,
        hi_edge,
        start,
        len_u,
        d,
        min,
        max,
        fullscreen,
        wa_lo,
        wa_len,
        base,
        inc,
    );
    &&& lo_edge ==> in_i16(len - d) && in_i16(len - imax(len - d, min)) && in_i16(
        start + (len - imax(len - d, min)),
    )
    &&& (!lo_edge && hi_edge) ==> in_i16(len + d)
    &&& (lo_edge || !fullscreen) ==> in_i16(far)
    &&& (!fullscreen && lo_edge) ==> in_i16(far - wa_lo) && in_i16(far - as_i16(l2 as u16))
    &&& (!fullscreen && !lo_edge && hi_edge) ==> in_i16(wa_lo + as_i16(wa_len)) && in_i16(
        wa_lo + as_i16(wa_len) - start,
    )
    &&& lo_edge ==> in_i16(far - as_i16(l3 as u16))
    &&& as_u16(min) <= as_u16(max)
}

/// The `i16` arithmetic of a resize stays in range and the size hints'
/// minimum is not above their maximum.
pub open spec fn resize_ok(
    g: ResizeGrab,
    root_x: int,
    root_y: int,
    h: NormalHints,
    fullscreen: bool,
    wa: Rectangle,
) -> bool {
    &&& in_i16(root_x - g.start_root_x)
    &&& in_i16(root_y - g.start_root_y)
    &&& axis_ok(
        g.corner & 1 != 0,
        g.corner & 2 != 0,
        g.win_x as int,
        g.win_w,
        root_x - g.start_root_x,
        hint_min(h.min_width),
        hint_max(h.max_width),
        fullscreen,
        wa.x as int,
        wa.width,
        h.base_width as int,
        hint_inc(h.width_inc),
    )
    &&& axis_ok(
        g.corner & 4 != 0,
        g.corner & 8 != 0,
        g.win_y as int,
        g.win_h,
        root_y - g.start_root_y,
        hint_min(h.min_height),
        hint_max(h.max_height),
        fullscreen,
        wa.y as int,
        wa.height,
        h.base_height as int,
        hint_inc(h.height_inc),
    )
}

fn max_i16(a: i16, b: i16) -> (r: i16)
    ensures
        r == imax(a as int, b as int),
{
    if a >= b {
        a
    } else {
        b
    }
}

fn min_i16(a: i16, b: i16) -> (r: i16)
    ensures
        r == imin(a as int, b as int),
{
    if a <= b {
        a
    } else {
        b
    }
}

/// The resize-increment snap of `v`.
fn snap_exec(v: u16, base: u16, inc: u16) -> (r: u16)
    requires
        inc >= 1,
    ensures
        r == snap(v as int, base as int, inc as int),
{
    let d: u16 = if v >= base {
        v - base
    } else {
        0
    };
    let q = d / inc;
    assert(q * inc <= d) by (nonlinear_arith)
        requires
            q == d / inc,
            inc >= 1,
    ;
    assert(base + q * inc <= 0xffff) by {
        assert(d == 0 || base + d == v);
    }
    base + q * inc
}

/// One axis of `resize_geometry`.
fn resize_axis(
    lo_edge: bool,
    hi_edge: bool,
    start: i16,
    len_u: u16,
    d: i16,
    min: i16,
    max: i16,
    fullscreen: bool,
    wa_lo: i16,
    wa_len: u16,
    base: u16,
    inc: u16,
) -> (r: (i16, u16))
    requires
        inc >= 1,
        0 <= max,
        axis_ok(
            lo_edge,
            hi_edge,
            start as int,
            len_u,
            d as int,
            min as int,
            max as int,
            fullscreen,
            wa_lo as int,
            wa_len,
            base as int,
            inc as int,
        ),
    ensures
        (r.0 as int, r.1 as int) == axis_final(
            lo_edge,
            hi_edge,
            start as int,
            len_u,
            d as int,
            min as int,
            max as int,
            fullscreen,
            wa_lo as int,
            wa_len,
            base as int,
            inc as int,
        ),
        lo_edge ==> r.0 + as_i16(r.1) == start + as_i16(len_u),
        !lo_edge ==> r.0 == start,
        as_u16(min as int) <= r.1 <= as_u16(max as int),
{
    let len = crate::core_types::rectangle::u16_as_i16(len_u);
    let mut p = start;
    let mut l = len;
    if lo_edge {
        l = max_i16(len - d, min);
        p = start + (len - l);
    } else if hi_edge {
        l = max_i16(len + d, min);
    }
    let mut lu = crate::core_types::rectangle::i16_as_u16(l);
    if !fullscreen {
        if lo_edge {
            let far = start + len;
            let c = min_i16(
                max_i16(min_i16(crate::core_types::rectangle::u16_as_i16(lu), far - wa_lo), min),
                max,
            );
            lu = crate::core_types::rectangle::i16_as_u16(c);
            p = far - crate::core_types::rectangle::u16_as_i16(lu);
        } else if hi_edge {
            let _far = start + len;
            let wa_end = wa_lo + crate::core_types::rectangle::u16_as_i16(wa_len);
            let c = min_i16(
                max_i16(min_i16(crate::core_types::rectangle::u16_as_i16(lu), wa_end - start), min),
                max,
            );
            lu = crate::core_types::rectangle::i16_as_u16(c);
        } else {
            let _far = start + len;
        }
    }
    let s = snap_exec(lu, base, inc);
    let lo_u = crate::core_types::rectangle::i16_as_u16(min);
    let hi_u = crate::core_types::rectangle::i16_as_u16(max);
    let f = if s < lo_u {
        lo_u
    } else if s > hi_u {
        hi_u
    } else {
        s
    };
    if lo_edge {
        p = (start + len) - crate::core_types::rectangle::u16_as_i16(f);
    }
    (p, f)
}

/// The new geometry of a window being resized (see `resize_target`).
pub fn resize_geometry(
    g: ResizeGrab,
    root_x: i16,
    root_y: i16,
    h: NormalHints,
    fullscreen: bool,
    wa: Rectangle,
) -> (r: Rectangle)
    requires
        resize_ok(g, root_x as int, root_y as int, h, fullscreen, wa),
    ensures
        r == resize_target(g, root_x as int, root_y as int, h, fullscreen, wa),
        g.corner & 1 != 0 ==> r.x + as_i16(r.width) == g.win_x + as_i16(g.win_w),
        g.corner & 1 == 0 ==> r.x == g.win_x,
        g.corner & 4 != 0 ==> r.y + as_i16(r.height) == g.win_y + as_i16(g.win_h),
        g.corner & 4 == 0 ==> r.y == g.win_y,
        as_u16(hint_min(h.min_width)) <= r.width <= as_u16(hint_max(h.max_width)),
        as_u16(hint_min(h.min_height)) <= r.height <= as_u16(hint_max(h.max_height)),
{
    let min_w = crate::core_types::rectangle::u16_as_i16(if h.min_width >= 1 { h.min_width } else { 1 });
    let min_h = crate::core_types::rectangle::u16_as_i16(if h.min_height >= 1 { h.min_height } else { 1 });
    let max_w: i16 = if h.max_width > 32767 { 32767 } else { h.max_width as i16 };
    let max_h: i16 = if h.max_height > 32767 { 32767 } else { h.max_height as i16 };
    let inc_w: u16 = if h.width_inc >= 1 { h.width_inc } else { 1 };
    let inc_h: u16 = if h.height_inc >= 1 { h.height_inc } else { 1 };
    let dx = root_x - g.start_root_x;
    let dy = root_y - g.start_root_y;
    let (x, w) = resize_axis(
        g.corner & 1 != 0,
        g.corner & 2 != 0,
        g.win_x,
        g.win_w,
        dx,
        min_w,
        max_w,
        fullscreen,
        wa.x,
        wa.width,
        h.base_width,
        inc_w,
    );
    let (y, hh) = resize_axis(
        g.corner & 4 != 0,
        g.corner & 8 != 0,
        g.win_y,
        g.win_h,
        dy,
        min_h,
        max_h,
        fullscreen,
        wa.y,
        wa.height,
        h.base_height,
        inc_h,
    );
    Rectangle { x, y, width: w, height: hh }
}


// ---------------------------------------------------------------------------
// Client requests and new windows
// ---------------------------------------------------------------------------

/// The fields of a client's configure request that are passed on, by the
/// request's value mask.
#[derive(Clone, Copy, Debug, PartialEq, Eq, Structural)]
pub struct ConfigureChanges {
    pub x: Option<i32>,
    pub y: Option<i32>,
    pub width: Option<u32>,
    pub height: Option<u32>,
    pub border_width: Option<u32>,
    /// Whether the stacking mode is passed on.
    pub stack_mode: bool,
    /// Whether the frame follows the new client size.
    pub resize_frame: bool,
}

/// The changes a configure request with value `mask` carries: bit 0 x,
/// bit 1 y, bit 2 width, bit 3 height, bit 4 border width, bit 6 stacking;
/// a new width or height also resizes the frame.
pub open spec fn configure_spec(mask: u16, x: i16, y: i16, w: u16, h: u16, bw: u16) -> ConfigureChanges {
    ConfigureChanges {
        x: if mask & 1 != 0 {
            Some(x as i32)
        } else {
            None
        },
        y: if mask & 2 != 0 {
            Some(y as i32)
        } else {
            None
        },
        width: if mask & 4 != 0 {
            Some(w as u32)
        } else {
            None
        },
        height: if mask & 8 != 0 {
            Some(h as u32)
        } else {
            None
        },
        border_width: if mask & 16 != 0 {
            Some(bw as u32)
        } else {
            None
        },
        stack_mode: mask & 64 != 0,
        resize_frame: mask & 12 != 0,
    }
}

/// The changes that a client's configure request asks for.
pub fn configure_changes(mask: u16, x: i16, y: i16, w: u16, h: u16, bw: u16) -> (r: ConfigureChanges)
    ensures
        r == configure_spec(mask, x, y, w, h, bw),
{
    ConfigureChanges {
        x: if mask & 1 != 0 {
            Some(x as i32)
        } else {
            None
        },
        y: if mask & 2 != 0 {
            Some(y as i32)
        } else {
            None
        },
        width: if mask & 4 != 0 {
            Some(w as u32)
        } else {
            None
        },
        height: if mask & 8 != 0 {
            Some(h as u32)
        } else {
            None
        },
        border_width: if mask & 16 != 0 {
            Some(bw as u32)
        } else {
            None
        },
        stack_mode: mask & 64 != 0,
        resize_frame: mask & 12 != 0,
    }
}

/// A window is a dock app when its `_NET_WM_WINDOW_TYPE` (read only when
/// both atoms are known, nonzero) lists the dock type, or when it is an
/// override-redirect window of at most 128 x 128.
pub open spec fn dock_spec(
    type_atom: u32,
    dock_atom: u32,
    types: Option<Seq<u32>>,
    override_redirect: Option<bool>,
    size: Option<(u16, u16)>,
) -> bool {
    ||| type_atom != 0 && dock_atom != 0 && (types matches Some(t) && t.contains(dock_atom))
    ||| override_redirect == Some(true) && (size matches Some((w, h)) && w <= 128 && h <= 128)
}

/// Whether `x` occurs in `t`.
fn contains_u32(t: &[u32], x: u32) -> (r: bool)
    ensures
        r == t@.contains(x),
{
    let mut i: usize = 0;
    while i < t.len()
        invariant
            i <= t@.len(),
            forall|j: int| 0 <= j < i ==> t@[j] != x,
        decreases t@.len() - i,
    {
        if t[i] == x {
            assert(t@[i as int] == x);
            return true;
        }
        i = i + 1;
    }
    false
}

/// Whether a new window is a dock app, from its window types (when they
/// could be read), whether it is override-redirect and its size (when they
/// could be read).
pub fn is_dock_app(
    type_atom: u32,
    dock_atom: u32,
    types: Option<&[u32]>,
    override_redirect: Option<bool>,
    size: Option<(u16, u16)>,
) -> (r: bool)
    ensures
        r == dock_spec(
            type_atom,
            dock_atom,
            match types {
                Some(t) => Some(t@),
                None => None,
            },
            override_redirect,
            size,
        ),
{
    if type_atom != 0 && dock_atom != 0 {
        if let Some(t) = types {
            if contains_u32(t, dock_atom) {
                return true;
            }
        }
    }
    match (override_redirect, size) {
        (Some(true), Some((w, h))) => w <= 128 && h <= 128,
        _ => false,
    }
}

// ---------------------------------------------------------------------------
// Key bindings, the taskbar and the maximize button
// ---------------------------------------------------------------------------

/// What a key binding does.
#[derive(Clone, Copy, Debug, PartialEq, Eq, Structural)]
pub enum KeyOutcome {
    Nothing,
    FocusWindow(u32),
    CloseWindow(u32),
    IconifyWindow(u32),
    /// Maximize the window, or restore it when it is maximized.
    ToggleMaximize(u32),
    SetWorkspace(u32),
    ShowMenu(i16, i16),
    Exit,
    /// Start moving the window with the pointer (no offset).
    StartMove(u32),
    /// Start resizing the window by its bottom-right corner.
    StartResize(u32),
    /// Run the binding's command line.
    RunCommand,
}

/// Index of the first `x` in `s`, or -1.
pub open spec fn first_index(s: Seq<u32>, x: u32) -> int
    decreases s.len(),
{
    if s.len() == 0 {
        -1
    } else if s.last() == x && first_index(s.drop_last(), x) < 0 {
        s.len() - 1
    } else {
        first_index(s.drop_last(), x)
    }
}

/// The window after `active` in `ids`, wrapping around.
pub open spec fn next_in(ids: Seq<u32>, active: u32) -> Option<u32> {
    let p = first_index(ids, active);
    if p < 0 {
        None
    } else {
        Some(ids[(p + 1) % (ids.len() as int)])
    }
}

/// The window before `active` in `ids`, wrapping around.
pub open spec fn prev_in(ids: Seq<u32>, active: u32) -> Option<u32> {
    let p = first_index(ids, active);
    if p < 0 {
        None
    } else if p == 0 {
        Some(ids[ids.len() - 1])
    } else {
        Some(ids[p - 1])
    }
}

/// What `action` does, with `active` the focused window, `ids` the managed
/// windows, `current` the current workspace of `count`, on a `root_w` x
/// `root_h` screen.
pub open spec fn key_spec(
    action: KeyAction,
    active: Option<u32>,
    ids: Seq<u32>,
    current: u32,
    count: usize,
    root_w: u16,
    root_h: u16,
) -> KeyOutcome {
    match action {
        KeyAction::NextWindow => match active {
            Some(a) => match next_in(ids, a) {
                Some(w) => KeyOutcome::FocusWindow(w),
                None => KeyOutcome::Nothing,
            },
            None => KeyOutcome::Nothing,
        },
        KeyAction::PrevWindow => match active {
            Some(a) => match prev_in(ids, a) {
                Some(w) => KeyOutcome::FocusWindow(w),
                None => KeyOutcome::Nothing,
            },
            None => KeyOutcome::Nothing,
        },
        KeyAction::Close => match active {
            Some(a) => KeyOutcome::CloseWindow(a),
            None => KeyOutcome::Nothing,
        },
        KeyAction::Iconify => match active {
            Some(a) => KeyOutcome::IconifyWindow(a),
            None => KeyOutcome::Nothing,
        },
        KeyAction::Maximize => match active {
            Some(a) => KeyOutcome::ToggleMaximize(a),
            None => KeyOutcome::Nothing,
        },
        KeyAction::GoToWorkspace(n) => {
            let idx = (if n >= 1 {
                n - 1
            } else {
                0
            }) as u32;
            if idx < count as u32 {
                KeyOutcome::SetWorkspace(idx)
            } else {
                KeyOutcome::Nothing
            }
        },
        KeyAction::GoToNextWorkspace => KeyOutcome::SetWorkspace(
            ((current + 1) % (count as u32 as int)) as u32,
        ),
        KeyAction::GoToPrevWorkspace => KeyOutcome::SetWorkspace(
            if current == 0 {
                (count as u32 - 1) as u32
            } else {
                (current - 1) as u32
            },
        ),
        KeyAction::ShowMenu => KeyOutcome::ShowMenu(
            tdiv(as_i16(root_w), 2) as i16,
            tdiv(as_i16(root_h), 2) as i16,
        ),
        KeyAction::Exit => KeyOutcome::Exit,
        KeyAction::Move => match active {
            Some(a) => KeyOutcome::StartMove(a),
            None => KeyOutcome::Nothing,
        },
        KeyAction::Resize => match active {
            Some(a) => KeyOutcome::StartResize(a),
            None => KeyOutcome::Nothing,
        },
        KeyAction::Exec(_) => KeyOutcome::RunCommand,
    }
}

/// Position of the first `x` in `ids`.
fn find_id(ids: &[u32], x: u32) -> (r: Option<usize>)
    ensures
        r is None ==> first_index(ids@, x) < 0,
        r matches Some(i) ==> first_index(ids@, x) == i && i < ids@.len(),
{
    let mut i: usize = 0;
    while i < ids.len()
        invariant
            i <= ids@.len(),
            first_index(ids@.take(i as int), x) < 0,
        decreases ids@.len() - i,
    {
        proof {
            assert(ids@.take(i + 1).drop_last() =~= ids@.take(i as int));
        }
        if ids[i] == x {
            proof {
                lemma_first_index_prefix(ids@, x, i as int);
            }
            return Some(i);
        }
        i = i + 1;
    }
    proof {
        assert(ids@.take(i as int) =~= ids@);
    }
    None
}

/// The first occurrence found in a prefix is the first in the whole.
proof fn lemma_first_index_prefix(s: Seq<u32>, x: u32, i: int)
    requires
        0 <= i < s.len(),
        s[i] == x,
        first_index(s.take(i), x) < 0,
    ensures
        first_index(s, x) == i,
    decreases s.len(),
{
    if s.len() - 1 == i {
        assert(s.drop_last() =~= s.take(i));
    } else {
        assert(s.drop_last().take(i) =~= s.take(i));
        lemma_first_index_prefix(s.drop_last(), x, i);
    }
}

/// Nothing matches `x` in `s` when `x` does not occur in it.
proof fn lemma_first_index_absent(s: Seq<u32>, x: u32)
    requires
        forall|j: int| 0 <= j < s.len() ==> s[j] != x,
    ensures
        first_index(s, x) < 0,
    decreases s.len(),
{
    if s.len() > 0 {
        lemma_first_index_absent(s.drop_last(), x);
    }
}

/// Cycling the focus through windows with distinct ids: from the window at
/// position `p`, the next-window key focuses the one after it and the
/// previous-window key the one before it, both wrapping around the list;
/// with two windows or more, either key moves the focus to another window.
/// An active window that is not listed gets nothing focused.
pub proof fn lemma_cycle_focus(
    ids: Seq<u32>,
    p: int,
    current: u32,
    count: usize,
    root_w: u16,
    root_h: u16,
)
    requires
        ids.no_duplicates(),
        0 <= p < ids.len(),
    ensures
        key_spec(KeyAction::NextWindow, Some(ids[p]), ids, current, count, root_w, root_h)
            == KeyOutcome::FocusWindow(ids[(p + 1) % (ids.len() as int)]),
        key_spec(KeyAction::PrevWindow, Some(ids[p]), ids, current, count, root_w, root_h)
            == KeyOutcome::FocusWindow(ids[(p + ids.len() - 1) % (ids.len() as int)]),
        ids.len() >= 2 ==> ids[(p + 1) % (ids.len() as int)] != ids[p] && ids[(p + ids.len() - 1)
            % (ids.len() as int)] != ids[p],
{
    let n = ids.len() as int;
    assert(first_index(ids.take(p), ids[p]) < 0) by {
        lemma_first_index_absent(ids.take(p), ids[p]);
    }
    lemma_first_index_prefix(ids, ids[p], p);
    assert(0 <= (p + 1) % n < n && ((p + 1) % n == p ==> n == 1)) by (nonlinear_arith)
        requires
            0 <= p < n,
    ;
    assert(0 <= (p + n - 1) % n < n && (p == 0 ==> (p + n - 1) % n == n - 1) && (p > 0 ==> (p + n
        - 1) % n == p - 1)) by (nonlinear_arith)
        requires
            0 <= p < n,
    ;
}

/// An active window missing from the list makes both cycling keys do
/// nothing.
pub proof fn lemma_cycle_focus_unlisted(
    ids: Seq<u32>,
    a: u32,
    current: u32,
    count: usize,
    root_w: u16,
    root_h: u16,
)
    requires
        !ids.contains(a),
    ensures
        key_spec(KeyAction::NextWindow, Some(a), ids, current, count, root_w, root_h)
            == KeyOutcome::Nothing,
        key_spec(KeyAction::PrevWindow, Some(a), ids, current, count, root_w, root_h)
            == KeyOutcome::Nothing,
{
    lemma_first_index_absent(ids, a);
}

/// What a key binding's `action` does now.
pub fn key_action_outcome(
    action: &KeyAction,
    active: Option<u32>,
    ids: &[u32],
    current: u32,
    count: usize,
    root_w: u16,
    root_h: u16,
) -> (r: KeyOutcome)
    requires
        *action is GoToNextWorkspace ==> count as u32 > 0 && current < u32::MAX,
        *action is GoToPrevWorkspace ==> (current == 0 ==> count as u32 > 0),
    ensures
        r == key_spec(*action, active, ids@, current, count, root_w, root_h),
{
    match action {
        KeyAction::NextWindow => match active {
            Some(a) => match find_id(ids, a) {
                Some(p) => KeyOutcome::FocusWindow(ids[(p + 1) % ids.len()]),
                None => KeyOutcome::Nothing,
            },
            None => KeyOutcome::Nothing,
        },
        KeyAction::PrevWindow => match active {
            Some(a) => match find_id(ids, a) {
                Some(p) => if p == 0 {
                    KeyOutcome::FocusWindow(ids[ids.len() - 1])
                } else {
                    KeyOutcome::FocusWindow(ids[p - 1])
                },
                None => KeyOutcome::Nothing,
            },
            None => KeyOutcome::Nothing,
        },
        KeyAction::Close => match active {
            Some(a) => KeyOutcome::CloseWindow(a),
            None => KeyOutcome::Nothing,
        },
        KeyAction::Iconify => match active {
            Some(a) => KeyOutcome::IconifyWindow(a),
            None => KeyOutcome::Nothing,
        },
        KeyAction::Maximize => match active {
            Some(a) => KeyOutcome::ToggleMaximize(a),
            None => KeyOutcome::Nothing,
        },
        KeyAction::GoToWorkspace(n) => {
            let idx = (if *n >= 1 {
                *n - 1
            } else {
                0
            }) as u32;
            if idx < count as u32 {
                KeyOutcome::SetWorkspace(idx)
            } else {
                KeyOutcome::Nothing
            }
        },
        KeyAction::GoToNextWorkspace => KeyOutcome::SetWorkspace((current + 1) % (count as u32)),
        KeyAction::GoToPrevWorkspace => KeyOutcome::SetWorkspace(
            if current == 0 {
                count as u32 - 1
            } else {
                current - 1
            },
        ),
        KeyAction::ShowMenu => {
            let w = crate::core_types::rectangle::u16_as_i16(root_w);
            let h = crate::core_types::rectangle::u16_as_i16(root_h);
            KeyOutcome::ShowMenu(half(w), half(h))
        },
        KeyAction::Exit => KeyOutcome::Exit,
        KeyAction::Move => match active {
            Some(a) => KeyOutcome::StartMove(a),
            None => KeyOutcome::Nothing,
        },
        KeyAction::Resize => match active {
            Some(a) => KeyOutcome::StartResize(a),
            None => KeyOutcome::Nothing,
        },
        KeyAction::Exec(_) => KeyOutcome::RunCommand,
    }
}

/// `a / 2` on `i16`.
fn half(a: i16) -> (r: i16)
    ensures
        r == tdiv(a as int, 2),
{
    if a >= 0 {
        a / 2
    } else {
        (-((-(a as i32)) / 2)) as i16
    }
}

/// The grab of a resize started from the keyboard: the bottom-right corner
/// of a window at `geom`, from the screen origin.
pub fn keyboard_resize_grab(geom: Rectangle) -> (r: ResizeGrab)
    ensures
        r == (ResizeGrab {
            corner: 10,
            start_root_x: 0,
            start_root_y: 0,
            win_x: geom.x,
            win_y: geom.y,
            win_w: geom.width,
            win_h: geom.height,
        }),
{
    assert((2u8 | 8u8) == 10u8) by (bit_vector);
    ResizeGrab {
        corner: 2 | 8,
        start_root_x: 0,
        start_root_y: 0,
        win_x: geom.x,
        win_y: geom.y,
        win_w: geom.width,
        win_h: geom.height,
    }
}

/// The grab of a move started by the pointer at (`root_x`, `root_y`) on a
/// window at `geom`.
pub fn move_grab(window_id: u32, root_x: i16, root_y: i16, geom: Rectangle) -> (r: DragState)
    requires
        in_i16(root_x - geom.x),
        in_i16(root_y - geom.y),
    ensures
        r == (DragState::Moving {
            window_id,
            off_x: (root_x - geom.x) as i16,
            off_y: (root_y - geom.y) as i16,
        }),
{
    DragState::Moving { window_id, off_x: root_x - geom.x, off_y: root_y - geom.y }
}

/// What a click on a taskbar entry does to its window.
#[derive(Clone, Copy, Debug, PartialEq, Eq, Structural)]
pub enum TaskbarToggle {
    Nothing,
    /// Restore the iconified window and raise it.
    Deiconify(u32),
    /// Iconify the focused window.
    Iconify(u32),
}

/// A click on taskbar entry `i`, with `order` the windows in taskbar order,
/// `windows` the managed windows and whether each is iconified, and `active`
/// the focused window: the entry's window is restored when iconified, else
/// iconified when it has the focus; then it gets the focus. Entries past the
/// end do nothing.
pub open spec fn taskbar_spec(order: Seq<u32>, windows: Seq<(u32, bool)>, active: Option<u32>, i: int) -> (
    TaskbarToggle,
    Option<u32>,
) {
    if 0 <= i < order.len() {
        let w = order[i];
        let k = first_window(windows, w);
        let t = if k < 0 {
            TaskbarToggle::Nothing
        } else if windows[k].1 {
            TaskbarToggle::Deiconify(w)
        } else if active == Some(w) {
            TaskbarToggle::Iconify(w)
        } else {
            TaskbarToggle::Nothing
        };
        (t, Some(w))
    } else {
        (TaskbarToggle::Nothing, None)
    }
}

/// Index of the first entry of `windows` for window `w`, or -1.
pub open spec fn first_window(windows: Seq<(u32, bool)>, w: u32) -> int
    decreases windows.len(),
{
    if windows.len() == 0 {
        -1
    } else if windows.last().0 == w && first_window(windows.drop_last(), w) < 0 {
        windows.len() - 1
    } else {
        first_window(windows.drop_last(), w)
    }
}

proof fn lemma_first_window_prefix(s: Seq<(u32, bool)>, w: u32, i: int)
    requires
        0 <= i < s.len(),
        s[i].0 == w,
        first_window(s.take(i), w) < 0,
    ensures
        first_window(s, w) == i,
    decreases s.len(),
{
    if s.len() - 1 == i {
        assert(s.drop_last() =~= s.take(i));
    } else {
        assert(s.drop_last().take(i) =~= s.take(i));
        lemma_first_window_prefix(s.drop_last(), w, i);
    }
}

/// What a click on taskbar entry `i` does: the toggle, and the window that
/// then gets the focus.
pub fn taskbar_click(order: &[u32], windows: &[(u32, bool)], active: Option<u32>, i: usize) -> (r: (
    TaskbarToggle,
    Option<u32>,
))
    ensures
        r == taskbar_spec(order@, windows@, active, i as int),
{
    if i >= order.len() {
        return (TaskbarToggle::Nothing, None);
    }
    let w = order[i];
    let mut k: usize = 0;
    while k < windows.len()
        invariant
            k <= windows@.len(),
            i < order@.len(),
            w == order@[i as int],
            first_window(windows@.take(k as int), w) < 0,
        decreases windows@.len() - k,
    {
        proof {
            assert(windows@.take(k + 1).drop_last() =~= windows@.take(k as int));
        }
        if windows[k].0 == w {
            proof {
                lemma_first_window_prefix(windows@, w, k as int);
            }
            assert(first_window(windows@, w) == k);
            let t = if windows[k].1 {
                TaskbarToggle::Deiconify(w)
            } else if active == Some(w) {
                TaskbarToggle::Iconify(w)
            } else {
                TaskbarToggle::Nothing
            };
            return (t, Some(w));
        }
        k = k + 1;
    }
    proof {
        assert(windows@.take(k as int) =~= windows@);
    }
    (TaskbarToggle::Nothing, Some(w))
}

/// What the maximize button does to a window.
#[derive(Clone, Copy, Debug, PartialEq, Eq, Structural)]
pub enum MaximizeChoice {
    LeaveFullscreen,
    Restore,
    Maximize,
}

/// The maximize button leaves fullscreen; else it restores a window that is
/// maximized or already covers the workarea; else it maximizes.
pub open spec fn maximize_spec(fullscreen: bool, maximized: bool, geom: Rectangle, wa: Rectangle) -> MaximizeChoice {
    if fullscreen {
        MaximizeChoice::LeaveFullscreen
    } else if maximized || covers(geom, wa) {
        MaximizeChoice::Restore
    } else {
        MaximizeChoice::Maximize
    }
}

/// What a click on a window's maximize button does.
pub fn maximize_button(fullscreen: bool, maximized: bool, geom: Rectangle, wa: &Rectangle) -> (r: MaximizeChoice)
    requires
        !fullscreen && !maximized ==> covers_ok(geom, *wa),
    ensures
        r == maximize_spec(fullscreen, maximized, geom, *wa),
{
    if fullscreen {
        MaximizeChoice::LeaveFullscreen
    } else if maximized || covers_workarea(geom, wa) {
        MaximizeChoice::Restore
    } else {
        MaximizeChoice::Maximize
    }
}


// ---------------------------------------------------------------------------
// Event routing
// ---------------------------------------------------------------------------

/// An X event, as far as the screen's routing reads it.
#[derive(Clone, Copy, Debug, PartialEq, Eq, Structural)]
pub enum ScreenEvent {
    KeyPress { state: u16, detail: u8 },
    ButtonPress { event: u32, detail: u8, state: u16, event_x: i16, event_y: i16 },
    ButtonRelease,
    MotionNotify,
    Expose { window: u32 },
    MapRequest { window: u32, parent: u32 },
    CreateNotify { window: u32, parent: u32, override_redirect: bool },
    ConfigureRequest { window: u32 },
    UnmapNotify { window: u32 },
    DestroyNotify { window: u32 },
    PropertyNotify { window: u32, atom: u32 },
    ClientMessage { message_type: u32 },
    /// The screen's size or configuration changed (RandR).
    ScreenChange,
    /// The keyboard mapping changed; `keyboard` for a change of keycodes.
    MappingNotify { keyboard: bool },
    Other,
}

/// A managed window: its client id, its frame's windows, whether it is
/// iconified, and its title-bar buttons.
pub struct ManagedWindow {
    pub id: u32,
    pub frame: u32,
    pub title: u32,
    pub handle: u32,
    pub iconic: bool,
    pub buttons: Vec<FrameButton>,
}

/// What the routing reads of the screen.
pub struct ScreenSnapshot {
    pub root: u32,
    /// The open dialog's window and frame.
    pub dialog: Option<(u32, u32)>,
    pub menu_visible: bool,
    /// Our own decoration windows.
    pub frame_ids: Vec<u32>,
    /// Windows we unmapped on purpose.
    pub hidden: Vec<u32>,
    pub windows: Vec<ManagedWindow>,
    pub toolbar_window: u32,
    pub drag_active: bool,
    /// The atoms that property and client messages are compared with
    /// (0 where unknown).
    pub tray_opcode_atom: u32,
    pub wm_name_atom: u32,
    pub net_wm_name_atom: u32,
    pub normal_hints_atom: u32,
}

/// What the screen does about an event.
#[derive(Clone, Copy, Debug, PartialEq, Eq, Structural)]
pub enum EventAction {
    Nothing,
    /// Hand the key to the open dialog.
    DialogKey,
    RenderDialog,
    Reconfigure,
    RefreshKeyboard,
    /// Dock the window in the slit when it is a dock app, else manage it.
    AdoptWindow(u32),
    /// Dock the window in the slit when it is a dock app.
    AdoptDockApp(u32),
    Configure(u32),
    /// Take the icon out of the tray.
    Undock(u32),
    RemoveFromSlit(u32),
    /// Stop managing the window; `true` to give it back to the root first.
    Unmanage(u32, bool),
    UpdateName(u32),
    UpdateHints(u32),
    ExposeToolbar,
    ExposeSlit,
    ExposeTrayPopup,
    ExposeTray,
    /// Redraw the menu that owns the window, if any.
    ExposeMenu(u32),
    RedrawTitle(u32),
    ShowRootMenu,
    /// A click on the tray: chevron or status-notifier slot.
    TrayClick,
    /// A click on the toolbar: workspace or taskbar entry.
    ToolbarClick,
    /// Focus the window and resize it from its bottom handle.
    ResizeFromHandle(u32),
    CloseWindow(u32),
    MaximizeButton(u32),
    IconifyWindow(u32),
    /// Focus the window and start moving it.
    FocusAndMove(u32),
    Focus(u32),
    /// Resize the window by the part of the frame that was pressed.
    ResizeFromClient(u32),
    EndDrag,
    Drag,
    /// Run the action of this key binding.
    KeyBinding(usize),
    /// A system-tray opcode message.
    TrayOpcode,
}

/// The answer to an event, in order: focus the dialog (the click was inside
/// it), let the open menu take the pointer event first (when it does, stop),
/// close the tray popup, forget that the window was hidden, do `action`,
/// and finally let the frozen pointer event through to the client.
#[derive(Clone, Copy, Debug, PartialEq, Eq, Structural)]
pub struct EventPlan {
    pub focus_dialog: bool,
    pub route_menu: bool,
    pub dismiss_popup: bool,
    pub forget_hidden: bool,
    pub action: EventAction,
    pub replay: bool,
}

/// A plan that only does `action`.
pub open spec fn only(action: EventAction) -> EventPlan {
    EventPlan {
        focus_dialog: false,
        route_menu: false,
        dismiss_popup: false,
        forget_hidden: false,
        action,
        replay: false,
    }
}

/// How a window is looked up among the managed ones.
#[derive(Clone, Copy, Debug, PartialEq, Eq, Structural)]
pub enum Selector {
    /// By its client id.
    Id(u32),
    /// By its client or any of its frame's windows.
    Any(u32),
    /// By its title or frame window.
    TitleOrFrame(u32),
}

pub open spec fn selects(sel: Selector, w: ManagedWindow) -> bool {
    match sel {
        Selector::Id(x) => w.id == x,
        Selector::Any(x) => w.id == x || w.frame == x || w.title == x || w.handle == x,
        Selector::TitleOrFrame(x) => w.title == x || w.frame == x,
    }
}

/// Index of the first managed window that `sel` selects, or -1.
pub open spec fn find_sel(ws: Seq<ManagedWindow>, sel: Selector) -> int
    decreases ws.len(),
{
    if ws.len() == 0 {
        -1
    } else if selects(sel, ws.last()) && find_sel(ws.drop_last(), sel) < 0 {
        ws.len() - 1
    } else {
        find_sel(ws.drop_last(), sel)
    }
}

proof fn lemma_find_sel_prefix(ws: Seq<ManagedWindow>, sel: Selector, i: int)
    requires
        0 <= i < ws.len(),
        selects(sel, ws[i]),
        find_sel(ws.take(i), sel) < 0,
    ensures
        find_sel(ws, sel) == i,
    decreases ws.len(),
{
    if ws.len() - 1 == i {
        assert(ws.drop_last() =~= ws.take(i));
    } else {
        assert(ws.drop_last().take(i) =~= ws.take(i));
        lemma_find_sel_prefix(ws.drop_last(), sel, i);
    }
}

proof fn lemma_find_sel_range(ws: Seq<ManagedWindow>, sel: Selector)
    ensures
        -1 <= find_sel(ws, sel) < ws.len(),
        find_sel(ws, sel) >= 0 ==> selects(sel, ws[find_sel(ws, sel)]),
    decreases ws.len(),
{
    if ws.len() > 0 {
        lemma_find_sel_range(ws.drop_last(), sel);
    }
}

/// The managed window that `sel` selects.
pub fn find_window(ws: &Vec<ManagedWindow>, sel: Selector) -> (r: Option<usize>)
    ensures
        r is None ==> find_sel(ws@, sel) < 0,
        r matches Some(i) ==> find_sel(ws@, sel) == i && i < ws@.len() && selects(sel, ws@[i as int]),
{
    let mut i: usize = 0;
    while i < ws.len()
        invariant
            i <= ws@.len(),
            find_sel(ws@.take(i as int), sel) < 0,
        decreases ws@.len() - i,
    {
        proof {
            assert(ws@.take(i + 1).drop_last() =~= ws@.take(i as int));
        }
        let w = &ws[i];
        let hit = match sel {
            Selector::Id(x) => w.id == x,
            Selector::Any(x) => w.id == x || w.frame == x || w.title == x || w.handle == x,
            Selector::TitleOrFrame(x) => w.title == x || w.frame == x,
        };
        if hit {
            proof {
                lemma_find_sel_prefix(ws@, sel, i as int);
            }
            return Some(i);
        }
        i = i + 1;
    }
    proof {
        assert(ws@.take(i as int) =~= ws@);
    }
    None
}

/// Index of the first key binding that fires for a key event, or -1.
pub open spec fn first_binding(bs: Seq<KeyBinding>, state: u16, detail: u8) -> int
    decreases bs.len(),
{
    if bs.len() == 0 {
        -1
    } else if binding_matches(bs.last(), state, detail) && first_binding(bs.drop_last(), state, detail)
        < 0 {
        bs.len() - 1
    } else {
        first_binding(bs.drop_last(), state, detail)
    }
}

proof fn lemma_first_binding_prefix(bs: Seq<KeyBinding>, state: u16, detail: u8, i: int)
    requires
        0 <= i < bs.len(),
        binding_matches(bs[i], state, detail),
        first_binding(bs.take(i), state, detail) < 0,
    ensures
        first_binding(bs, state, detail) == i,
    decreases bs.len(),
{
    if bs.len() - 1 == i {
        assert(bs.drop_last() =~= bs.take(i));
    } else {
        assert(bs.drop_last().take(i) =~= bs.take(i));
        lemma_first_binding_prefix(bs.drop_last(), state, detail, i);
    }
}

/// The first key binding that fires for a key event.
fn find_binding(bs: &[KeyBinding], state: u16, detail: u8) -> (r: Option<usize>)
    ensures
        r is None ==> first_binding(bs@, state, detail) < 0,
        r matches Some(i) ==> first_binding(bs@, state, detail) == i,
{
    let mut i: usize = 0;
    while i < bs.len()
        invariant
            i <= bs@.len(),
            first_binding(bs@.take(i as int), state, detail) < 0,
        decreases bs@.len() - i,
    {
        proof {
            assert(bs@.take(i + 1).drop_last() =~= bs@.take(i as int));
        }
        let b = &bs[i];
        if b.keycode == detail && (b.modmask & !crate::keys::LOCK_MASK) == (state
            & !crate::keys::LOCK_MASK) {
            proof {
                lemma_first_binding_prefix(bs@, state, detail, i as int);
            }
            return Some(i);
        }
        i = i + 1;
    }
    proof {
        assert(bs@.take(i as int) =~= bs@);
    }
    None
}

/// Whether the screen's tray owns `w`: its window, its popup or an icon.
pub open spec fn tray_owns(tray: FbTray, w: u32) -> bool {
    w == tray.window_view() || w == tray.popup_view() || tray.icons_view().contains(w)
}

/// Who takes a window that is gone (unmapped or destroyed): the tray or the
/// slit when they own it (not for their own windows), else the window
/// manager when it manages it.
pub open spec fn removal(s: ScreenSnapshot, tray: FbTray, slit: FbSlit, w: u32, reparent: bool) -> EventAction {
    if tray_owns(tray, w) {
        if w != tray.window_view() {
            EventAction::Undock(w)
        } else {
            EventAction::Nothing
        }
    } else if slit.owns_window_spec(w) {
        if w != slit.window_view() {
            EventAction::RemoveFromSlit(w)
        } else {
            EventAction::Nothing
        }
    } else if find_sel(s.windows@, Selector::Id(w)) >= 0 {
        EventAction::Unmanage(w, reparent)
    } else {
        EventAction::Nothing
    }
}

/// A pointer press on a managed window's frame or client, once the dialog
/// and menus had their say.
pub open spec fn window_press(s: ScreenSnapshot, event: u32, detail: u8, state: u16, event_x: i16, event_y: i16) -> (
    EventAction,
    bool,
) {
    let ws = s.windows@;
    let t = find_sel(ws, Selector::Any(event));
    if t < 0 {
        (EventAction::Nothing, false)
    } else {
        let id = ws[t].id;
        let k = find_sel(ws, Selector::Id(id));
        let is_title = k >= 0 && event == ws[k].title;
        let is_handle = k >= 0 && event == ws[k].handle;
        if is_handle && detail == 1 {
            (EventAction::ResizeFromHandle(id), false)
        } else if is_title {
            match button_hit(ws[k].buttons@, event_x as int, event_y as int) {
                Some(ButtonType::Close) => (EventAction::CloseWindow(id), false),
                Some(ButtonType::Maximize) => (EventAction::MaximizeButton(id), false),
                Some(ButtonType::Iconify) => (EventAction::IconifyWindow(id), false),
                _ => if detail == 1 {
                    (EventAction::FocusAndMove(id), false)
                } else {
                    (EventAction::Focus(id), true)
                },
            }
        } else if state & 8 != 0 && detail == 3 {
            (EventAction::ResizeFromClient(id), false)
        } else {
            (EventAction::Focus(id), true)
        }
    }
}

/// What the screen does about event `ev`.
///
/// With a dialog open, keys go to the dialog, its exposures redraw it, and
/// a press outside it only lets the click through. With a menu open, motion
/// and presses go to the menu first. Then each event type is handled:
/// screen changes reconfigure, keyboard remaps refresh the grabs, map
/// requests of windows that are not ours adopt them, a gone window is taken
/// back by whoever holds it, name and size-hint changes are picked up,
/// exposures redraw what was exposed, presses go to the root menu, the tray,
/// the toolbar or the pressed window, drags follow the pointer, keys run
/// their first binding, and tray opcodes are served.
pub open spec fn plan_spec(
    s: ScreenSnapshot,
    tray: FbTray,
    slit: FbSlit,
    bindings: Seq<KeyBinding>,
    ev: ScreenEvent,
) -> EventPlan {
    let ws = s.windows@;
    match ev {
        ScreenEvent::KeyPress { state, detail } => if s.dialog is Some {
            only(EventAction::DialogKey)
        } else {
            let b = first_binding(bindings, state, detail);
            if b >= 0 {
                only(EventAction::KeyBinding(b as usize))
            } else {
                only(EventAction::Nothing)
            }
        },
        ScreenEvent::Expose { window } => if s.dialog matches Some((dw, _)) && window == dw {
            only(EventAction::RenderDialog)
        } else if window == s.toolbar_window {
            only(EventAction::ExposeToolbar)
        } else if slit.owns_window_spec(window) {
            only(EventAction::ExposeSlit)
        } else if tray_owns(tray, window) {
            if window == tray.popup_view() {
                only(EventAction::ExposeTrayPopup)
            } else {
                only(EventAction::ExposeTray)
            }
        } else if s.menu_visible {
            only(EventAction::ExposeMenu(window))
        } else {
            let k = find_sel(ws, Selector::TitleOrFrame(window));
            if k >= 0 {
                only(EventAction::RedrawTitle(ws[k].id))
            } else {
                only(EventAction::Nothing)
            }
        },
        ScreenEvent::ButtonPress { event, detail, state, event_x, event_y } => {
            let inside = match s.dialog {
                Some((dw, df)) => {
                    let k = find_sel(ws, Selector::Id(dw));
                    event == dw || event == df || (k >= 0 && (event == ws[k].frame || event
                        == ws[k].title || event == ws[k].handle))
                },
                None => true,
            };
            if !inside {
                EventPlan { replay: true, ..only(EventAction::Nothing) }
            } else {
                let dismiss = tray.is_popup_open() && event != tray.window_view() && event
                    != tray.popup_view();
                let (action, replay) = if event == s.root && detail == 3 {
                    (EventAction::ShowRootMenu, true)
                } else if event == tray.window_view() {
                    (EventAction::TrayClick, true)
                } else if event == s.toolbar_window {
                    (EventAction::ToolbarClick, true)
                } else {
                    window_press(s, event, detail, state, event_x, event_y)
                };
                EventPlan {
                    focus_dialog: s.dialog is Some,
                    route_menu: s.menu_visible,
                    dismiss_popup: dismiss,
                    forget_hidden: false,
                    action,
                    replay,
                }
            }
        },
        ScreenEvent::MotionNotify => EventPlan {
            route_menu: s.menu_visible,
            ..only(
                if s.drag_active {
                    EventAction::Drag
                } else {
                    EventAction::Nothing
                },
            )
        },
        ScreenEvent::ButtonRelease => only(
            if s.drag_active {
                EventAction::EndDrag
            } else {
                EventAction::Nothing
            },
        ),
        ScreenEvent::ScreenChange => only(EventAction::Reconfigure),
        ScreenEvent::MappingNotify { keyboard } => only(
            if keyboard {
                EventAction::RefreshKeyboard
            } else {
                EventAction::Nothing
            },
        ),
        ScreenEvent::MapRequest { window, parent } => only(
            if s.frame_ids@.contains(window) || parent != s.root {
                EventAction::Nothing
            } else {
                EventAction::AdoptWindow(window)
            },
        ),
        ScreenEvent::CreateNotify { window, parent, override_redirect } => only(
            if parent == s.root && override_redirect {
                EventAction::AdoptDockApp(window)
            } else {
                EventAction::Nothing
            },
        ),
        ScreenEvent::ConfigureRequest { window } => only(EventAction::Configure(window)),
        ScreenEvent::UnmapNotify { window } => {
            let k = find_sel(ws, Selector::Id(window));
            if s.hidden@.contains(window) || (k >= 0 && ws[k].iconic) || (s.dialog matches Some(
                (dw, _),
            ) && dw == window) {
                only(EventAction::Nothing)
            } else {
                only(removal(s, tray, slit, window, true))
            }
        },
        ScreenEvent::DestroyNotify { window } => EventPlan {
            forget_hidden: true,
            ..only(removal(s, tray, slit, window, false))
        },
        ScreenEvent::PropertyNotify { window, atom } => only(
            if atom == s.wm_name_atom || atom == s.net_wm_name_atom {
                EventAction::UpdateName(window)
            } else if atom == s.normal_hints_atom {
                EventAction::UpdateHints(window)
            } else {
                EventAction::Nothing
            },
        ),
        ScreenEvent::ClientMessage { message_type } => only(
            if s.tray_opcode_atom != 0 && message_type == s.tray_opcode_atom {
                EventAction::TrayOpcode
            } else {
                EventAction::Nothing
            },
        ),
        ScreenEvent::Other => only(EventAction::Nothing),
    }
}

fn contains_id(v: &Vec<u32>, x: u32) -> (r: bool)
    ensures
        r == v@.contains(x),
{
    contains_u32(v.as_slice(), x)
}

fn removal_exec(s: &ScreenSnapshot, tray: &FbTray, slit: &FbSlit, w: u32, reparent: bool) -> (r: EventAction)
    ensures
        r == removal(*s, *tray, *slit, w, reparent),
{
    if tray.owns_window(w) {
        if w != tray.window_id() {
            EventAction::Undock(w)
        } else {
            EventAction::Nothing
        }
    } else if slit.owns_window(w) {
        if w != slit.window_id() {
            EventAction::RemoveFromSlit(w)
        } else {
            EventAction::Nothing
        }
    } else if find_window(&s.windows, Selector::Id(w)).is_some() {
        EventAction::Unmanage(w, reparent)
    } else {
        EventAction::Nothing
    }
}

fn window_press_exec(s: &ScreenSnapshot, event: u32, detail: u8, state: u16, event_x: i16, event_y: i16) -> (r: (
    EventAction,
    bool,
))
    ensures
        r == window_press(*s, event, detail, state, event_x, event_y),
{
    let t = match find_window(&s.windows, Selector::Any(event)) {
        Some(t) => t,
        None => return (EventAction::Nothing, false),
    };
    let id = s.windows[t].id;
    let k = find_window(&s.windows, Selector::Id(id));
    let (is_title, is_handle) = match k {
        Some(k) => (event == s.windows[k].title, event == s.windows[k].handle),
        None => (false, false),
    };
    if is_handle && detail == 1 {
        (EventAction::ResizeFromHandle(id), false)
    } else if is_title {
        let k = k.unwrap();
        match hit_test_button(s.windows[k].buttons.as_slice(), event_x, event_y) {
            Some(ButtonType::Close) => (EventAction::CloseWindow(id), false),
            Some(ButtonType::Maximize) => (EventAction::MaximizeButton(id), false),
            Some(ButtonType::Iconify) => (EventAction::IconifyWindow(id), false),
            _ => if detail == 1 {
                (EventAction::FocusAndMove(id), false)
            } else {
                (EventAction::Focus(id), true)
            },
        }
    } else if state & 8 != 0 && detail == 3 {
        (EventAction::ResizeFromClient(id), false)
    } else {
        (EventAction::Focus(id), true)
    }
}

fn only_exec(action: EventAction) -> (r: EventPlan)
    ensures
        r == only(action),
{
    EventPlan {
        focus_dialog: false,
        route_menu: false,
        dismiss_popup: false,
        forget_hidden: false,
        action,
        replay: false,
    }
}

/// What the screen does about event `ev` (see `plan_spec`).
pub fn plan_event(
    s: &ScreenSnapshot,
    tray: &FbTray,
    slit: &FbSlit,
    bindings: &[KeyBinding],
    ev: ScreenEvent,
) -> (r: EventPlan)
    ensures
        r == plan_spec(*s, *tray, *slit, bindings@, ev),
{
    match ev {
        ScreenEvent::KeyPress { state, detail } => if s.dialog.is_some() {
            only_exec(EventAction::DialogKey)
        } else {
            match find_binding(bindings, state, detail) {
                Some(b) => only_exec(EventAction::KeyBinding(b)),
                None => only_exec(EventAction::Nothing),
            }
        },
        ScreenEvent::Expose { window } => {
            let is_dialog = match s.dialog {
                Some((dw, _)) => window == dw,
                None => false,
            };
            if is_dialog {
                only_exec(EventAction::RenderDialog)
            } else if window == s.toolbar_window {
                only_exec(EventAction::ExposeToolbar)
            } else if slit.owns_window(window) {
                only_exec(EventAction::ExposeSlit)
            } else if tray.owns_window(window) {
                if window == tray.popup_window_id() {
                    only_exec(EventAction::ExposeTrayPopup)
                } else {
                    only_exec(EventAction::ExposeTray)
                }
            } else if s.menu_visible {
                only_exec(EventAction::ExposeMenu(window))
            } else {
                match find_window(&s.windows, Selector::TitleOrFrame(window)) {
                    Some(k) => only_exec(EventAction::RedrawTitle(s.windows[k].id)),
                    None => only_exec(EventAction::Nothing),
                }
            }
        },
        ScreenEvent::ButtonPress { event, detail, state, event_x, event_y } => {
            let inside = match s.dialog {
                Some((dw, df)) => {
                    if event == dw || event == df {
                        true
                    } else {
                        match find_window(&s.windows, Selector::Id(dw)) {
                            Some(k) => event == s.windows[k].frame || event == s.windows[k].title
                                || event == s.windows[k].handle,
                            None => false,
                        }
                    }
                },
                None => true,
            };
            if !inside {
                let mut p = only_exec(EventAction::Nothing);
                p.replay = true;
                return p;
            }
            let dismiss = tray.popup_open() && event != tray.window_id() && event
                != tray.popup_window_id();
            let (action, replay) = if event == s.root && detail == 3 {
                (EventAction::ShowRootMenu, true)
            } else if event == tray.window_id() {
                (EventAction::TrayClick, true)
            } else if event == s.toolbar_window {
                (EventAction::ToolbarClick, true)
            } else {
                window_press_exec(s, event, detail, state, event_x, event_y)
            };
            EventPlan {
                focus_dialog: s.dialog.is_some(),
                route_menu: s.menu_visible,
                dismiss_popup: dismiss,
                forget_hidden: false,
                action,
                replay,
            }
        },
        ScreenEvent::MotionNotify => {
            let mut p = only_exec(
                if s.drag_active {
                    EventAction::Drag
                } else {
                    EventAction::Nothing
                },
            );
            p.route_menu = s.menu_visible;
            p
        },
        ScreenEvent::ButtonRelease => only_exec(
            if s.drag_active {
                EventAction::EndDrag
            } else {
                EventAction::Nothing
            },
        ),
        ScreenEvent::ScreenChange => only_exec(EventAction::Reconfigure),
        ScreenEvent::MappingNotify { keyboard } => only_exec(
            if keyboard {
                EventAction::RefreshKeyboard
            } else {
                EventAction::Nothing
            },
        ),
        ScreenEvent::MapRequest { window, parent } => only_exec(
            if contains_id(&s.frame_ids, window) || parent != s.root {
                EventAction::Nothing
            } else {
                EventAction::AdoptWindow(window)
            },
        ),
        ScreenEvent::CreateNotify { window, parent, override_redirect } => only_exec(
            if parent == s.root && override_redirect {
                EventAction::AdoptDockApp(window)
            } else {
                EventAction::Nothing
            },
        ),
        ScreenEvent::ConfigureRequest { window } => only_exec(EventAction::Configure(window)),
        ScreenEvent::UnmapNotify { window } => {
            if contains_id(&s.hidden, window) {
                return only_exec(EventAction::Nothing);
            }
            if let Some(k) = find_window(&s.windows, Selector::Id(window)) {
                if s.windows[k].iconic {
                    return only_exec(EventAction::Nothing);
                }
            }
            if let Some((dw, _)) = s.dialog {
                if dw == window {
                    return only_exec(EventAction::Nothing);
                }
            }
            only_exec(removal_exec(s, tray, slit, window, true))
        },
        ScreenEvent::DestroyNotify { window } => {
            let mut p = only_exec(removal_exec(s, tray, slit, window, false));
            p.forget_hidden = true;
            p
        },
        ScreenEvent::PropertyNotify { window, atom } => only_exec(
            if atom == s.wm_name_atom || atom == s.net_wm_name_atom {
                EventAction::UpdateName(window)
            } else if atom == s.normal_hints_atom {
                EventAction::UpdateHints(window)
            } else {
                EventAction::Nothing
            },
        ),
        ScreenEvent::ClientMessage { message_type } => only_exec(
            if s.tray_opcode_atom != 0 && message_type == s.tray_opcode_atom {
                EventAction::TrayOpcode
            } else {
                EventAction::Nothing
            },
        ),
        ScreenEvent::Other => only_exec(EventAction::Nothing),
    }
}


// ---------------------------------------------------------------------------
// Monitors, workarea and workspaces
// ---------------------------------------------------------------------------

/// The monitor holds the screen origin.
pub open spec fn at_origin(r: Rectangle) -> bool {
    r.x <= 0 && r.y <= 0 && r.x + r.width > 0 && r.y + r.height > 0
}

/// Index of the first monitor at the origin, or -1.
pub open spec fn origin_index(ms: Seq<Rectangle>) -> int
    decreases ms.len(),
{
    if ms.len() == 0 {
        -1
    } else if at_origin(ms.last()) && origin_index(ms.drop_last()) < 0 {
        ms.len() - 1
    } else {
        origin_index(ms.drop_last())
    }
}

/// Index of the last monitor of largest area, or -1.
pub open spec fn largest_index(ms: Seq<Rectangle>) -> int
    decreases ms.len(),
{
    if ms.len() == 0 {
        -1
    } else {
        let k = largest_index(ms.drop_last());
        if k < 0 || ms.last().width * ms.last().height >= ms[k].width * ms[k].height {
            ms.len() - 1
        } else {
            k
        }
    }
}

proof fn lemma_largest_index(ms: Seq<Rectangle>)
    ensures
        -1 <= largest_index(ms) < ms.len(),
        ms.len() > 0 ==> largest_index(ms) >= 0,
    decreases ms.len(),
{
    if ms.len() > 0 {
        lemma_largest_index(ms.drop_last());
    }
}

proof fn lemma_origin_index(ms: Seq<Rectangle>)
    ensures
        -1 <= origin_index(ms) < ms.len(),
    decreases ms.len(),
{
    if ms.len() > 0 {
        lemma_origin_index(ms.drop_last());
    }
}

/// The primary monitor: the first that holds the screen origin, else the
/// (last) largest, else the whole `root_w` x `root_h` screen.
pub open spec fn primary_spec(ms: Seq<Rectangle>, root_w: u16, root_h: u16) -> Rectangle {
    let o = origin_index(ms);
    let l = largest_index(ms);
    if o >= 0 {
        ms[o]
    } else if l >= 0 {
        ms[l]
    } else {
        Rectangle { x: 0, y: 0, width: root_w, height: root_h }
    }
}

/// The area of a rectangle.
fn area(r: Rectangle) -> (a: u32)
    ensures
        a == r.width * r.height,
{
    let w = r.width as u32;
    let h = r.height as u32;
    assert(w * h <= 0xffff_ffff) by (nonlinear_arith)
        requires
            w <= 65535,
            h <= 65535,
    ;
    w * h
}

/// The primary monitor among `monitors`.
pub fn primary_monitor(monitors: &[Rectangle], root_w: u16, root_h: u16) -> (r: Rectangle)
    ensures
        r == primary_spec(monitors@, root_w, root_h),
{
    let ghost ms = monitors@;
    let mut o: Option<usize> = None;
    let mut l: Option<usize> = None;
    let mut i: usize = 0;
    while i < monitors.len()
        invariant
            i <= ms.len(),
            ms == monitors@,
            match o {
                Some(k) => origin_index(ms.take(i as int)) == k && k < i,
                None => origin_index(ms.take(i as int)) < 0,
            },
            match l {
                Some(k) => largest_index(ms.take(i as int)) == k && k < i,
                None => largest_index(ms.take(i as int)) < 0 && i == 0,
            },
        decreases ms.len() - i,
    {
        let m = monitors[i];
        proof {
            let t = ms.take(i + 1);
            assert(t.drop_last() =~= ms.take(i as int));
            assert(t.last() == m);
            if let Some(k) = l {
                assert(t[k as int] == ms.take(i as int)[k as int]);
            }
        }
        if o.is_none() && (m.x as i32) <= 0 && (m.y as i32) <= 0 && (m.x as i32) + (m.width as i32)
            > 0 && (m.y as i32) + (m.height as i32) > 0 {
            o = Some(i);
        }
        let better = match l {
            None => true,
            Some(k) => area(m) >= area(monitors[k]),
        };
        if better {
            l = Some(i);
        }
        i = i + 1;
    }
    proof {
        assert(ms.take(i as int) =~= ms);
    }
    match o {
        Some(k) => monitors[k],
        None => match l {
            Some(k) => monitors[k],
            None => Rectangle::new(0, 0, root_w, root_h),
        },
    }
}

/// The workarea: the primary monitor less the reserved edges, at least one
/// pixel each way.
pub open spec fn workarea_spec(p: Rectangle, s: Strut) -> Rectangle {
    Rectangle {
        x: (p.x + as_i16(s.left)) as i16,
        y: (p.y + as_i16(s.top)) as i16,
        width: imax(p.width - (s.left + s.right), 1) as u16,
        height: imax(p.height - (s.top + s.bottom), 1) as u16,
    }
}

/// The usable area of the primary monitor `primary` once `struts` are
/// reserved.
pub fn workarea_of(primary: Rectangle, struts: Strut) -> (r: Rectangle)
    requires
        in_i16(primary.x + as_i16(struts.left)),
        in_i16(primary.y + as_i16(struts.top)),
        struts.left + struts.right <= u16::MAX,
        struts.top + struts.bottom <= u16::MAX,
    ensures
        r == workarea_spec(primary, struts),
{
    let x = primary.x + crate::core_types::rectangle::u16_as_i16(struts.left);
    let y = primary.y + crate::core_types::rectangle::u16_as_i16(struts.top);
    let dw = (primary.width as i32) - ((struts.left + struts.right) as i32);
    let dh = (primary.height as i32) - ((struts.top + struts.bottom) as i32);
    let w: u16 = if dw >= 1 {
        dw as u16
    } else {
        1
    };
    let h: u16 = if dh >= 1 {
        dh as u16
    } else {
        1
    };
    Rectangle::new(x, y, w, h)
}

/// The reserved edges: the largest of the toolbar's and the slit's on each
/// side.
pub fn screen_struts(toolbar: Strut, slit: Strut) -> (r: Strut)
    ensures
        r == (Strut { left: 0, right: 0, top: 0, bottom: 0 }).spec_expand(toolbar).spec_expand(slit),
{
    let mut s = Strut::zero();
    s.expand(&toolbar);
    s.expand(&slit);
    s
}

/// Switching to workspace `target` of `count`: each window (id, workspace)
/// with whether it is shown; nothing when there is no such workspace.
pub open spec fn switch_spec(count: usize, target: u32, windows: Seq<(u32, u32)>) -> Option<
    Seq<(u32, bool)>,
> {
    if target < count as u32 {
        Some(Seq::new(windows.len(), |i: int| (windows[i].0, windows[i].1 == target)))
    } else {
        None
    }
}

/// Which windows a switch to workspace `target` shows and hides.
pub fn workspace_switch(count: usize, target: u32, windows: &[(u32, u32)]) -> (r: Option<Vec<(u32, bool)>>)
    ensures
        match r {
            Some(v) => switch_spec(count, target, windows@) == Some(v@),
            None => switch_spec(count, target, windows@) is None,
        },
{
    if !(target < count as u32) {
        return None;
    }
    let mut out: Vec<(u32, bool)> = Vec::new();
    let mut i: usize = 0;
    while i < windows.len()
        invariant
            i <= windows@.len(),
            out@.len() == i,
            forall|k: int| 0 <= k < i ==> #[trigger] out@[k] == (windows@[k].0, windows@[k].1 == target),
        decreases windows@.len() - i,
    {
        out.push((windows[i].0, windows[i].1 == target));
        i = i + 1;
    }
    assert(out@ =~= Seq::new(windows@.len(), |k: int| (windows@[k].0, windows@[k].1 == target)));
    Some(out)
}

/// The saved workspace names: one line `id:name` per workspace, joined by
/// newlines.
pub open spec fn names_text(ws: Seq<(u32, Seq<char>)>) -> Seq<char>
    decreases ws.len(),
{
    if ws.len() == 0 {
        seq![]
    } else if ws.len() == 1 {
        decimal(ws[0].0 as nat) + seq![':'] + ws[0].1
    } else {
        names_text(ws.drop_last()) + seq!['\n'] + decimal(ws.last().0 as nat) + seq![':'] + ws.last().1
    }
}

/// The decimal digits of `n`, appended to `s`.
fn push_u32(s: &mut String, n: u32)
    ensures
        final(s)@ == old(s)@ + decimal(n as nat),
    decreases n,
{
    if n >= 10 {
        push_u32(s, n / 10);
    }
    let ghost before = s@;
    push_char(s, ((n % 10) as u8 + 48) as char);
    proof {
        if n >= 10 {
            assert(decimal(n as nat) == decimal((n / 10) as nat) + seq![((n % 10) + 48) as char]);
        } else {
            assert(decimal(n as nat) == seq![(n + 48) as char]);
        }
    }
}

/// The text of the saved workspace names.
pub fn workspace_names_text(ws: &[Workspace]) -> (r: String)
    ensures
        r@ == names_text(Seq::new(ws@.len(), |i: int| (ws@[i].id_view(), ws@[i].name_view()))),
{
    let ghost all = Seq::new(ws@.len(), |i: int| (ws@[i].id_view(), ws@[i].name_view()));
    let mut r = String::new();
    let mut i: usize = 0;
    while i < ws.len()
        invariant
            i <= ws@.len(),
            all == Seq::new(ws@.len(), |i: int| (ws@[i].id_view(), ws@[i].name_view())),
            r@ == names_text(all.take(i as int)),
        decreases ws@.len() - i,
    {
        let ghost before = r@;
        if i > 0 {
            push_char(&mut r, '\n');
        }
        push_u32(&mut r, ws[i].id());
        push_char(&mut r, ':');
        let name = ws[i].name();
        let n = name.unicode_len();
        let mut j: usize = 0;
        let ghost base = r@;
        while j < n
            invariant
                n == name@.len(),
                j <= n,
                r@ == base + name@.take(j as int),
            decreases n - j,
        {
            push_char(&mut r, name.get_char(j));
            assert(name@.take(j + 1) =~= name@.take(j as int).push(name@[j as int]));
            j = j + 1;
        }
        proof {
            let t = all.take(i + 1);
            assert(t.drop_last() =~= all.take(i as int));
            assert(name@.take(n as int) =~= name@);
            if i == 0 {
                assert(r@ =~= names_text(t));
            } else {
                assert(r@ =~= names_text(t));
            }
        }
        i = i + 1;
    }
    proof {
        assert(all.take(i as int) =~= all);
    }
    r
}

/// A line of the saved names: the number before the first `:` and the
/// rest, when the number reads as a `u32`.
pub open spec fn name_line(l: Seq<char>) -> Option<(u32, Seq<char>)> {
    let c = index_of(l, ':');
    if c < 0 {
        None
    } else {
        match parse_unsigned(l.take(c), 10, u32::MAX as nat) {
            Some(id) => Some((id as u32, l.skip(c + 1))),
            None => None,
        }
    }
}

/// Workspace names after the lines `ls` of a saved-names text: each line
/// that names a workspace that exists renames it; later lines win.
pub open spec fn names_after(names: Seq<Seq<char>>, ls: Seq<Seq<char>>) -> Seq<Seq<char>>
    decreases ls.len(),
{
    if ls.len() == 0 {
        names
    } else {
        let prev = names_after(names, ls.drop_last());
        match name_line(ls.last()) {
            Some((id, name)) => if id < prev.len() {
                prev.update(id as int, name)
            } else {
                prev
            },
            None => prev,
        }
    }
}

/// The names of a list of workspaces.
pub open spec fn ws_names(ws: Seq<Workspace>) -> Seq<Seq<char>> {
    Seq::new(ws.len(), |i: int| ws[i].name_view())
}

/// Rename the workspaces as the saved-names text `content` says; lines for
/// workspaces that do not exist are ignored.
pub fn load_workspace_names(ws: &mut Vec<Workspace>, content: &str)
    requires
        forall|i: int| 0 <= i < old(ws)@.len() ==> (#[trigger] old(ws)@[i]).wf(),
    ensures
        ws_names(final(ws)@) == names_after(ws_names(old(ws)@), lines_of(content@)),
        final(ws)@.len() == old(ws)@.len(),
        forall|i: int| 0 <= i < final(ws)@.len() ==> (#[trigger] final(ws)@[i]).wf() && final(ws)@[i].id_view()
            == old(ws)@[i].id_view() && final(ws)@[i].windows_view() == old(ws)@[i].windows_view(),
{
    let ls = lines(content);
    let ghost ids = Seq::new(ws@.len(), |i: int| ws@[i].id_view());
    let ghost wins = Seq::new(ws@.len(), |i: int| ws@[i].windows_view());
    let ghost start = ws_names(ws@);
    let mut k: usize = 0;
    while k < ls.len()
        invariant
            k <= ls@.len(),
            ls@.len() == lines_of(content@).len(),
            forall|j: int| 0 <= j < ls@.len() ==> (#[trigger] ls@[j])@ == lines_of(content@)[j],
            ws@.len() == ids.len(),
            ws@.len() == wins.len(),
            forall|i: int| 0 <= i < ws@.len() ==> (#[trigger] ws@[i]).wf() && ws@[i].id_view() == ids[i]
                && ws@[i].windows_view() == wins[i],
            ws_names(ws@) == names_after(start, lines_of(content@).take(k as int)),
        decreases ls@.len() - k,
    {
        let line = &ls[k];
        proof {
            assert(lines_of(content@).take(k + 1).drop_last() =~= lines_of(content@).take(k as int));
            assert(lines_of(content@).take(k + 1).last() == line@);
        }
        let n = line.len();
        match find_char(line, 0, n, ':') {
            Some(c) => {
                proof {
                    assert(line@.subrange(0, n as int) =~= line@);
                    assert(line@.take(c as int) =~= line@.subrange(0, c as int));
                    assert(line@.skip(c + 1) =~= line@.subrange(c + 1, n as int));
                }
                match parse_unsigned_range(line, 0, c, 10, 0xffff_ffff) {
                    Some(id) => {
                        let idx = id as usize;
                        if idx < ws.len() {
                            let name = string_of(line, c + 1, n);
                            let ghost before = ws@;
                            ws[idx].set_name(name.as_str());
                            proof {
                                assert(ws_names(ws@) =~= ws_names(before).update(idx as int, name@));
                            }
                        }
                    },
                    None => {},
                }
            },
            None => {
                proof {
                    assert(line@.subrange(0, n as int) =~= line@);
                }
            },
        }
        k = k + 1;
    }
    proof {
        assert(lines_of(content@).take(k as int) =~= lines_of(content@));
    }
}

/// What an input dialog is for.
#[derive(Clone, Copy, Debug, PartialEq, Eq, Structural)]
pub enum DialogAction {
    /// Rename the workspace with this index.
    RenameWorkspace(u32),
    /// Run the entered text as a shell command.
    RunCommand,
}

/// What a key press in an input dialog leads to.
#[derive(Debug, PartialEq, Eq)]
pub enum DialogEffect {
    /// Close the dialog, then rename this workspace to the text.
    Rename(u32, String),
    /// Close the dialog, then run the text as a shell command.
    Run(String),
    /// Close the dialog.
    Close,
    /// The text changed: draw the dialog again.
    Redraw,
    /// The key does nothing.
    Nothing,
}

/// Return and keypad Enter.
pub open spec fn is_enter(keysym: u32) -> bool {
    keysym == 0xff0d || keysym == 0xff8d
}

/// BackSpace and Delete.
pub open spec fn is_erase(keysym: u32) -> bool {
    keysym == 0xff08 || keysym == 0x7f
}

/// The keysym that a key press gives in a dialog: the first keysym of the
/// key's row of the keyboard map, or the second one when Shift is held and
/// the row has it; 0 for a key beyond the map.
pub fn dialog_keysym(detail: u8, state: u16, min_kc: u8, per: usize, syms: &[u32]) -> (r: u32)
    requires
        per <= 0x00ff_ffff,
    ensures
        ({
            let idx = (if detail >= min_kc { detail - min_kc } else { 0 }) * per;
            let base: u32 = if idx < syms@.len() { syms@[idx] } else { 0 };
            r == if state & 1 != 0 {
                if idx + 1 < syms@.len() { syms@[idx + 1] } else { base }
            } else {
                base
            }
        }),
{
    let row: usize = if detail >= min_kc { (detail - min_kc) as usize } else { 0 };
    assert(row * per <= 255 * 0x00ff_ffff) by (nonlinear_arith)
        requires
            row <= 255,
            per <= 0x00ff_ffff,
    ;
    let idx = row * per;
    let base: u32 = if idx < syms.len() { syms[idx] } else { 0 };
    if state & 1 != 0 {
        if idx + 1 < syms.len() {
            syms[idx + 1]
        } else {
            base
        }
    } else {
        base
    }
}

/// A key press in an input dialog whose text is `text`: Enter hands the
/// text over (when there is any) and closes the dialog, Escape closes it,
/// BackSpace and Delete remove the last character, a printable ASCII keysym
/// types its character, and other keys do nothing.
pub fn dialog_key(text: &mut String, action: DialogAction, keysym: u32) -> (r: DialogEffect)
    ensures
        is_enter(keysym) ==> final(text)@.len() == 0 && match r {
            DialogEffect::Rename(i, t) => action == DialogAction::RenameWorkspace(i) && t@ == old(text)@
                && old(text)@.len() > 0,
            DialogEffect::Run(t) => action == DialogAction::RunCommand && t@ == old(text)@
                && old(text)@.len() > 0,
            DialogEffect::Close => old(text)@.len() == 0,
            _ => false,
        },
        keysym == 0xff1b ==> r == DialogEffect::Close && final(text)@ == old(text)@,
        is_erase(keysym) ==> r == DialogEffect::Redraw && final(text)@ == (if old(text)@.len() > 0 {
            old(text)@.drop_last()
        } else {
            old(text)@
        }),
        0x20 <= keysym <= 0x7e ==> r == DialogEffect::Redraw && final(text)@ == old(text)@.push(
            keysym as char,
        ),
        !(is_enter(keysym) || keysym == 0xff1b || is_erase(keysym) || 0x20 <= keysym <= 0x7e) ==> r
            == DialogEffect::Nothing && final(text)@ == old(text)@,
{
    if keysym == 0xff0d || keysym == 0xff8d {
        let mut result = String::new();
        std::mem::swap(&mut result, text);
        let empty = result.unicode_len() == 0;
        if empty {
            DialogEffect::Close
        } else {
            match action {
                DialogAction::RenameWorkspace(i) => DialogEffect::Rename(i, result),
                DialogAction::RunCommand => DialogEffect::Run(result),
            }
        }
    } else if keysym == 0xff1b {
        DialogEffect::Close
    } else if keysym == 0xff08 || keysym == 0x7f {
        let v = crate::text::to_chars(text);
        if v.len() > 0 {
            *text = string_of(&v, 0, v.len() - 1);
            assert(v@.subrange(0, v@.len() - 1) =~= v@.drop_last());
        }
        DialogEffect::Redraw
    } else if 0x20 <= keysym && keysym <= 0x7e {
        let c = (keysym as u8) as char;
        push_char(text, c);
        DialogEffect::Redraw
    } else {
        DialogEffect::Nothing
    }
}

/// The taskbar label of a window: its name, or `Window <id>` when it has
/// none, in brackets followed by a space while it is iconified.
pub open spec fn entry_label(id: u32, name: Seq<char>, iconic: bool) -> Seq<char> {
    let base = if name.len() > 0 {
        name
    } else {
        seq!['W', 'i', 'n', 'd', 'o', 'w', ' '] + decimal(id as nat)
    };
    if iconic {
        seq!['['] + base + seq![']', ' ']
    } else {
        base
    }
}

/// The taskbar's entries for workspace `current`, in window-list order:
/// label, whether the window is the active one, and its id.
pub open spec fn entries_spec(ws: Seq<RustboxWindow>, current: u32, active: Option<u32>) -> Seq<
    (Seq<char>, bool, u32),
>
    decreases ws.len(),
{
    if ws.len() == 0 {
        seq![]
    } else {
        let rest = entries_spec(ws.drop_last(), current, active);
        let w = ws.last();
        if w.workspace_view() == current {
            rest.push(
                (
                    entry_label(w.id_view(), w.client_view().view().name, w.state_view().iconic),
                    active == Some(w.id_view()),
                    w.id_view(),
                ),
            )
        } else {
            rest
        }
    }
}

fn push_str(s: &mut String, t: &str)
    ensures
        final(s)@ == old(s)@ + t@,
{
    let v = crate::text::to_chars(t);
    let mut i: usize = 0;
    let ghost s0 = s@;
    while i < v.len()
        invariant
            i <= v@.len(),
            v@ == t@,
            s@ == s0 + v@.take(i as int),
        decreases v@.len() - i,
    {
        push_char(s, v[i]);
        assert(v@.take(i + 1) =~= v@.take(i as int).push(v@[i as int]));
        i = i + 1;
    }
    assert(v@.take(v@.len() as int) =~= v@);
}

/// The label of window `w` in the taskbar.
fn entry_text(w: &RustboxWindow) -> (r: String)
    ensures
        r@ == entry_label(w.id_view(), w.client_view().view().name, w.state_view().iconic),
{
    let name = w.client().name();
    let mut base = String::new();
    if name.unicode_len() > 0 {
        push_str(&mut base, name);
    } else {
        push_char(&mut base, 'W');
        push_char(&mut base, 'i');
        push_char(&mut base, 'n');
        push_char(&mut base, 'd');
        push_char(&mut base, 'o');
        push_char(&mut base, 'w');
        push_char(&mut base, ' ');
        push_u32(&mut base, w.id());
        assert(base@ =~= seq!['W', 'i', 'n', 'd', 'o', 'w', ' '] + decimal(w.id_view() as nat));
    }
    if w.is_iconic() {
        let mut r = String::new();
        push_char(&mut r, '[');
        push_str(&mut r, base.as_str());
        push_char(&mut r, ']');
        push_char(&mut r, ' ');
        assert(r@ =~= seq!['['] + base@ + seq![']', ' ']);
        r
    } else {
        base
    }
}

/// The taskbar of workspace `current`: the label and active flag of each of
/// its windows, and their ids in the same order (the order a click on the
/// taskbar refers to).
pub fn taskbar_entries(windows: &[RustboxWindow], current: u32, active: Option<u32>) -> (r: (
    Vec<(String, bool)>,
    Vec<u32>,
))
    ensures
        r.0@.len() == entries_spec(windows@, current, active).len(),
        r.1@.len() == r.0@.len(),
        forall|i: int|
            0 <= i < r.0@.len() ==> {
                let e = #[trigger] entries_spec(windows@, current, active)[i];
                r.0@[i].0@ == e.0 && r.0@[i].1 == e.1 && r.1@[i] == e.2
            },
{
    let mut items: Vec<(String, bool)> = Vec::new();
    let mut order: Vec<u32> = Vec::new();
    let mut i: usize = 0;
    while i < windows.len()
        invariant
            i <= windows@.len(),
            items@.len() == entries_spec(windows@.take(i as int), current, active).len(),
            order@.len() == items@.len(),
            forall|k: int|
                0 <= k < items@.len() ==> {
                    let e = #[trigger] entries_spec(windows@.take(i as int), current, active)[k];
                    items@[k].0@ == e.0 && items@[k].1 == e.1 && order@[k] == e.2
                },
        decreases windows@.len() - i,
    {
        let w = &windows[i];
        proof {
            assert(windows@.take(i + 1).drop_last() =~= windows@.take(i as int));
            assert(windows@.take(i + 1).last() == windows@[i as int]);
        }
        if w.workspace() == current {
            let label = entry_text(w);
            let id = w.id();
            let is_active = match active {
                Some(a) => a == id,
                None => false,
            };
            items.push((label, is_active));
            order.push(id);
        }
        i = i + 1;
    }
    assert(windows@.take(windows@.len() as int) =~= windows@);
    (items, order)
}

/// Whether a client lists `protocol` in its `WM_PROTOCOLS` (`protocols`,
/// none when the property could not be read); never for the atom 0.
pub fn supports_protocol(protocols: Option<&[u32]>, protocol: u32) -> (r: bool)
    ensures
        r == (protocol != 0 && match protocols {
            Some(p) => p@.contains(protocol),
            None => false,
        }),
{
    if protocol == 0 {
        return false;
    }
    match protocols {
        Some(p) => {
            let mut i: usize = 0;
            while i < p.len()
                invariant
                    i <= p@.len(),
                    protocol != 0,
                    protocols == Some(p),
                    forall|k: int| 0 <= k < i ==> p@[k] != protocol,
                decreases p@.len() - i,
            {
                if p[i] == protocol {
                    assert(p@[i as int] == protocol);
                    return true;
                }
                i = i + 1;
            }
            false
        },
        None => false,
    }
}

/// How a client is given the focus: whether to send it `WM_TAKE_FOCUS`
/// (it lists that protocol) and whether to set the input focus on it (unless
/// its `WM_HINTS` input field says it takes no input).
pub fn client_focus_plan(protocols: Option<&[u32]>, take_focus_atom: u32, input_hint: Option<bool>) -> (r: (
    bool,
    bool,
))
    ensures
        r.0 == (take_focus_atom != 0 && match protocols {
            Some(p) => p@.contains(take_focus_atom),
            None => false,
        }),
        r.1 == (input_hint != Some(false)),
{
    let take = supports_protocol(protocols, take_focus_atom);
    let set = match input_hint {
        Some(false) => false,
        _ => true,
    };
    (take, set)
}

/// What choosing a menu entry does.
#[derive(Debug, PartialEq, Eq)]
pub enum MenuCommand {
    /// Close the menus and run this shell command line.
    Run(String),
    /// Close the menus and leave the window manager.
    Exit,
    /// Close the menus (restart and reconfigure entries do no more).
    Close,
    /// Close the menus and switch to this workspace.
    SwitchWorkspace(u32),
    /// Close the menus, add a workspace and switch to it.
    CreateWorkspace,
    /// Close the menus and ask for a new name of this workspace.
    RenameWorkspace(u32),
    /// Close the menus and ask for a command to run.
    RunDialog,
    /// Leave the menus open (a submenu entry) or do nothing.
    Nothing,
}

/// The command of a chosen menu entry of kind `kind`.
pub open spec fn menu_command_spec(kind: KindView) -> MenuCommand {
    match kind {
        KindView::Exit => MenuCommand::Exit,
        KindView::Restart => MenuCommand::Close,
        KindView::Reconfig => MenuCommand::Close,
        KindView::Workspace(n) => MenuCommand::SwitchWorkspace(n),
        KindView::WorkspaceCreate => MenuCommand::CreateWorkspace,
        KindView::WorkspaceRename(n) => MenuCommand::RenameWorkspace(n),
        KindView::RunDialog => MenuCommand::RunDialog,
        _ => MenuCommand::Nothing,
    }
}

/// What choosing a menu entry of type `kind` does.
pub fn menu_command(kind: &MenuItemType) -> (r: MenuCommand)
    ensures
        kind_view(*kind) matches KindView::Exec(c) ==> r matches MenuCommand::Run(t) && t@ == c,
        !(kind_view(*kind) is Exec) ==> r == menu_command_spec(kind_view(*kind)),
{
    match kind {
        MenuItemType::Exec(cmd) => MenuCommand::Run(cmd.clone()),
        MenuItemType::Exit => MenuCommand::Exit,
        MenuItemType::Restart => MenuCommand::Close,
        MenuItemType::Reconfig => MenuCommand::Close,
        MenuItemType::Workspace(n) => MenuCommand::SwitchWorkspace(*n),
        MenuItemType::WorkspaceCreate => MenuCommand::CreateWorkspace,
        MenuItemType::WorkspaceRename(n) => MenuCommand::RenameWorkspace(*n),
        MenuItemType::RunDialog => MenuCommand::RunDialog,
        _ => MenuCommand::Nothing,
    }
}

/// Add a workspace after the others: its id is their number and its name
/// that number plus one, in decimal. Returns the new id.
pub fn add_workspace(ws: &mut Vec<Workspace>) -> (id: u32)
    requires
        old(ws)@.len() < u32::MAX,
    ensures
        id == old(ws)@.len(),
        final(ws)@.len() == old(ws)@.len() + 1,
        forall|i: int| 0 <= i < old(ws)@.len() ==> #[trigger] final(ws)@[i] == old(ws)@[i],
        final(ws)@[id as int].wf(),
        final(ws)@[id as int].id_view() == id,
        final(ws)@[id as int].name_view() == decimal(id as nat + 1),
        final(ws)@[id as int].windows_view().len() == 0,
{
    let id = ws.len() as u32;
    let mut name = String::new();
    push_u32(&mut name, id + 1);
    ws.push(Workspace::new(id, name.as_str()));
    id
}

/// How long a client may take to close after `WM_DELETE_WINDOW` before it
/// is killed, in milliseconds.
pub const CLOSE_TIMEOUT_MS: u64 = 5000;

/// The entries of `s` for windows other than `w`.
pub open spec fn other_windows(s: Seq<(u32, u64)>, w: u32) -> Seq<(u32, u64)>
    decreases s.len(),
{
    if s.len() == 0 {
        seq![]
    } else if s.last().0 == w {
        other_windows(s.drop_last(), w)
    } else {
        other_windows(s.drop_last(), w).push(s.last())
    }
}

/// A close request sent at `sent` has run out of time at `now`.
pub open spec fn close_expired(sent: u64, now: u64) -> bool {
    now >= sent && now - sent >= CLOSE_TIMEOUT_MS
}

/// The windows of the entries of `s` whose time ran out at `now`, in order.
pub open spec fn expired_windows(s: Seq<(u32, u64)>, now: u64) -> Seq<u32>
    decreases s.len(),
{
    if s.len() == 0 {
        seq![]
    } else if close_expired(s.last().1, now) {
        expired_windows(s.drop_last(), now).push(s.last().0)
    } else {
        expired_windows(s.drop_last(), now)
    }
}

/// The entries of `s` whose time has not run out at `now`, in order.
pub open spec fn still_waiting(s: Seq<(u32, u64)>, now: u64) -> Seq<(u32, u64)>
    decreases s.len(),
{
    if s.len() == 0 {
        seq![]
    } else if close_expired(s.last().1, now) {
        still_waiting(s.drop_last(), now)
    } else {
        still_waiting(s.drop_last(), now).push(s.last())
    }
}

/// Clients that were asked to close, with the time (in milliseconds of a
/// clock the caller keeps) the request was sent.
pub struct PendingCloses {
    entries: Vec<(u32, u64)>,
}

impl PendingCloses {
    /// The pending requests, oldest first.
    pub closed spec fn view(&self) -> Seq<(u32, u64)> {
        self.entries@
    }

    /// No pending requests.
    pub fn new() -> (r: Self)
        ensures
            r.view().len() == 0,
    {
        PendingCloses { entries: Vec::new() }
    }

    /// Remember that `window` was asked to close at `now` (replacing an
    /// earlier request of the same window).
    pub fn insert(&mut self, window: u32, now: u64)
        ensures
            final(self).view() == other_windows(old(self).view(), window).push((window, now)),
    {
        let mut kept: Vec<(u32, u64)> = Vec::new();
        let mut i: usize = 0;
        while i < self.entries.len()
            invariant
                i <= self.entries@.len(),
                self.entries@ == old(self).entries@,
                kept@ == other_windows(self.entries@.take(i as int), window),
            decreases self.entries@.len() - i,
        {
            proof {
                assert(self.entries@.take(i + 1).drop_last() =~= self.entries@.take(i as int));
            }
            let e = self.entries[i];
            if e.0 != window {
                kept.push(e);
            }
            i = i + 1;
        }
        assert(self.entries@.take(self.entries@.len() as int) =~= self.entries@);
        kept.push((window, now));
        self.entries = kept;
    }

    /// The windows whose close request ran out of time at `now`, oldest
    /// first; they are no longer pending.
    pub fn take_expired(&mut self, now: u64) -> (r: Vec<u32>)
        ensures
            r@ == expired_windows(old(self).view(), now),
            final(self).view() == still_waiting(old(self).view(), now),
    {
        let mut out: Vec<u32> = Vec::new();
        let mut kept: Vec<(u32, u64)> = Vec::new();
        let mut i: usize = 0;
        while i < self.entries.len()
            invariant
                i <= self.entries@.len(),
                self.entries@ == old(self).entries@,
                out@ == expired_windows(self.entries@.take(i as int), now),
                kept@ == still_waiting(self.entries@.take(i as int), now),
            decreases self.entries@.len() - i,
        {
            proof {
                assert(self.entries@.take(i + 1).drop_last() =~= self.entries@.take(i as int));
            }
            let e = self.entries[i];
            if now >= e.1 && now - e.1 >= CLOSE_TIMEOUT_MS {
                out.push(e.0);
            } else {
                kept.push(e);
            }
            i = i + 1;
        }
        assert(self.entries@.take(self.entries@.len() as int) =~= self.entries@);
        self.entries = kept;
        out
    }
}

} // verus!
