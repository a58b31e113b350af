//! Messages between the window manager and the StatusNotifierItem host, and
//! the choice of an item's icon among its sizes.

use vstd::prelude::*;

verus! {

/// What the host reports about tray items.
pub enum SniEvent {
    Registered { service: String },
    Unregistered { service: String },
    Updated { service: String, width: u32, height: u32, argb: Vec<u8> },
}

/// A click on an item, to be passed on as `Activate`.
pub struct ActivateRequest {
    pub service: String,
    pub x: i32,
    pub y: i32,
}

/// A right-click on an item, to be passed on as `ContextMenu`.
pub struct ContextMenuRequest {
    pub service: String,
    pub x: i32,
    pub y: i32,
}

pub open spec fn frame_area(f: (i32, i32, Vec<u8>)) -> int {
    f.0 * f.1
}

/// The icon frame with the largest area (the last of the largest, as
/// `max_by_key` picks), with a copy of its bytes; `None` for no frames.
pub fn largest_frame(frames: &[(i32, i32, Vec<u8>)]) -> (r: Option<(i32, i32, Vec<u8>)>)
    requires
        forall|i: int| 0 <= i < frames@.len() ==> i32::MIN <= #[trigger] frame_area(frames@[i]) <= i32::MAX,
    ensures
        frames@.len() == 0 ==> r is None,
        frames@.len() > 0 ==> exists|k: int| #![trigger frames@[k]]
            0 <= k < frames@.len() && (forall|j: int|
                0 <= j < frames@.len() ==> frame_area(frames@[j]) <= frame_area(frames@[k]))
                && (forall|j: int|
                0 <= j < frames@.len() && j > k ==> frame_area(frames@[j]) < frame_area(frames@[k]))
                && (r matches Some(t) && t.0 == frames@[k].0 && t.1 == frames@[k].1 && t.2@
                == frames@[k].2@),
{
    if frames.len() == 0 {
        return None;
    }
    let mut best: usize = 0;
    let mut i: usize = 1;
    while i < frames.len()
        invariant
            1 <= i <= frames@.len(),
            best < i,
            forall|j: int| 0 <= j < frames@.len() ==> i32::MIN <= #[trigger] frame_area(frames@[j]) <= i32::MAX,
            forall|j: int| 0 <= j < i ==> frame_area(frames@[j]) <= frame_area(frames@[best as int]),
            forall|j: int| best < j < i ==> frame_area(frames@[j]) < frame_area(frames@[best as int]),
        decreases frames@.len() - i,
    {
        let (w, h, _) = &frames[i];
        let (bw, bh, _) = &frames[best];
        proof {
            assert(i32::MIN <= frame_area(frames@[i as int]) <= i32::MAX);
            assert(i32::MIN <= frame_area(frames@[best as int]) <= i32::MAX);
        }
        if *w * *h >= *bw * *bh {
            best = i;
        }
        i = i + 1;
    }
    let (w, h, d) = &frames[best];
    let mut copy: Vec<u8> = Vec::new();
    let mut k: usize = 0;
    while k < d.len()
        invariant
            k <= d@.len(),
            copy@ == d@.take(k as int),
        decreases d@.len() - k,
    {
        copy.push(d[k]);
        assert(copy@ =~= d@.take(k + 1));
        k = k + 1;
    }
    assert(d@.take(k as int) =~= d@);
    Some((*w, *h, copy))
}

} // verus!
