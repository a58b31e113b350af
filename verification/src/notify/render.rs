//! Where notification popups go, and what a click on one does.

use vstd::prelude::*;
use crate::core_types::Rectangle;
use crate::core_types::rectangle::as_i16;
use super::Corner;

verus! {

/// Outcome of a click inside a popup.
pub enum ClickResult {
    /// An action button was clicked (its key).
    Action(String),
    /// Anywhere else on the popup: dismiss it.
    Dismiss,
}

/// Where popup number `index` (from the corner) goes: `margin` from the
/// screen edges, popups `gap` apart.
pub open spec fn popup_xy(origin: Corner, w: int, h: int, sw: int, sh: int, margin: int, gap: int, index: int) -> (int, int) {
    let off = margin + index * (h + gap);
    match origin {
        Corner::TopRight => (sw - margin - w, off),
        Corner::TopLeft => (margin, off),
        Corner::BottomRight => (sw - margin - w, sh - margin - off - h),
        Corner::BottomLeft => (margin, sh - margin - off - h),
    }
}

pub open spec fn in_i16(v: int) -> bool {
    i16::MIN <= v <= i16::MAX
}

/// The position of popup number `index`, `w` x `h`, on a `sw` x `sh`
/// screen.
pub fn popup_position(
    origin: Corner,
    w: u16,
    h: u16,
    sw: u16,
    sh: u16,
    margin: i16,
    gap: i16,
    index: usize,
) -> (r: (i16, i16))
    requires
        w <= i16::MAX && h <= i16::MAX && sw <= i16::MAX && sh <= i16::MAX && index <= i16::MAX,
        in_i16(h + gap),
        in_i16(index * (h + gap)),
        in_i16(margin + index * (h + gap)),
        in_i16(sw - margin),
        in_i16(sw - margin - w),
        in_i16(sh - margin),
        in_i16(sh - margin - (margin + index * (h + gap))),
        in_i16(sh - margin - (margin + index * (h + gap)) - h),
    ensures
        r.0 == popup_xy(origin, w as int, h as int, sw as int, sh as int, margin as int, gap as int, index as int).0,
        r.1 == popup_xy(origin, w as int, h as int, sw as int, sh as int, margin as int, gap as int, index as int).1,
{
    let step = h as i16 + gap;
    let off = margin + (index as i16) * step;
    match origin {
        Corner::TopRight => (sw as i16 - margin - w as i16, off),
        Corner::TopLeft => (margin, off),
        Corner::BottomRight => (sw as i16 - margin - w as i16, sh as i16 - margin - off - h as i16),
        Corner::BottomLeft => (margin, sh as i16 - margin - off - h as i16),
    }
}

/// A point inside an action button (edges computed in 16-bit arithmetic).
pub open spec fn in_button(r: Rectangle, x: int, y: int) -> bool {
    r.x <= x < r.x + as_i16(r.width) && r.y <= y < r.y + as_i16(r.height)
}

/// The key of the first action button holding (`x`, `y`).
pub open spec fn action_hit(rects: Seq<(Rectangle, String)>, x: int, y: int) -> Option<Seq<char>>
    decreases rects.len(),
{
    if rects.len() == 0 {
        None
    } else if in_button(rects[0].0, x, y) {
        Some(rects[0].1@)
    } else {
        action_hit(rects.drop_first(), x, y)
    }
}

/// What a click at popup-local (`x`, `y`) on a `w` x `h` popup with these
/// action buttons does: an action, a dismissal, or nothing (outside).
pub fn hit_test(action_rects: &[(Rectangle, String)], w: u16, h: u16, x: i16, y: i16) -> (r: Option<ClickResult>)
    requires
        forall|i: int|
            0 <= i < action_rects@.len() ==> in_i16(#[trigger] action_rects@[i].0.x + as_i16(action_rects@[i].0.width))
                && in_i16(action_rects@[i].0.y + as_i16(action_rects@[i].0.height)),
    ensures
        match action_hit(action_rects@, x as int, y as int) {
            Some(k) => (r matches Some(ClickResult::Action(key)) && key@ == k),
            None => if 0 <= x < as_i16(w) && 0 <= y < as_i16(h) {
                r matches Some(ClickResult::Dismiss)
            } else {
                r is None
            },
        },
{
    let mut i: usize = 0;
    assert(action_rects@.skip(0) =~= action_rects@);
    while i < action_rects.len()
        invariant
            i <= action_rects@.len(),
            forall|j: int|
                0 <= j < action_rects@.len() ==> in_i16(#[trigger] action_rects@[j].0.x + as_i16(action_rects@[j].0.width))
                    && in_i16(action_rects@[j].0.y + as_i16(action_rects@[j].0.height)),
            action_hit(action_rects@, x as int, y as int) == action_hit(action_rects@.skip(i as int), x as int, y as int),
        decreases action_rects@.len() - i,
    {
        proof {
            assert(action_rects@.skip(i as int).drop_first() =~= action_rects@.skip(i + 1));
            assert(action_rects@.skip(i as int)[0] == action_rects@[i as int]);
            assert(in_i16(action_rects@[i as int].0.x + as_i16(action_rects@[i as int].0.width)));
        }
        let (r, key) = &action_rects[i];
        let rw = crate::core_types::rectangle::u16_as_i16(r.width);
        let rh = crate::core_types::rectangle::u16_as_i16(r.height);
        if x >= r.x && x < r.x + rw && y >= r.y && y < r.y + rh {
            return Some(ClickResult::Action(key.clone()));
        }
        i = i + 1;
    }
    assert(action_rects@.skip(i as int).len() == 0);
    let ww = crate::core_types::rectangle::u16_as_i16(w);
    let hh = crate::core_types::rectangle::u16_as_i16(h);
    if x >= 0 && x < ww && y >= 0 && y < hh {
        return Some(ClickResult::Dismiss);
    }
    None
}

} // verus!
