//! The slit: a strip at one screen edge holding docked applets. Windows are
//! reparented and moved from outside; this keeps the dock list and the
//! strip's extent.

use vstd::prelude::*;
use crate::core_types::Strut;
use crate::core_types::strut::max_u16;

verus! {

#[derive(Debug, Clone, Copy, PartialEq, Eq, Structural)]
pub enum SlitPlacement {
    Left,
    Right,
    Top,
    Bottom,
}

pub struct SlitStyle {
    pub placement: SlitPlacement,
    pub gap: u16,
}

impl Default for SlitStyle {
    fn default() -> (r: Self)
        ensures
            r.placement == SlitPlacement::Right,
            r.gap == 2,
    {
        SlitStyle { placement: SlitPlacement::Right, gap: 2 }
    }
}

/// `a + b`, at most `u16::MAX`.
pub open spec fn sat_add(a: u16, b: u16) -> u16 {
    if a + b > u16::MAX {
        u16::MAX
    } else {
        (a + b) as u16
    }
}

/// The widest dock entry (0 for none).
pub open spec fn dock_thickness(d: Seq<(u32, u16, u16)>) -> u16
    decreases d.len(),
{
    if d.len() == 0 {
        0
    } else {
        max_u16(dock_thickness(d.drop_last()), d.last().1)
    }
}

/// The dock entries' heights, each followed by the gap, summed (saturating).
pub open spec fn dock_length(d: Seq<(u32, u16, u16)>, gap: u16) -> u16
    decreases d.len(),
{
    if d.len() == 0 {
        0
    } else {
        sat_add(sat_add(dock_length(d.drop_last(), gap), d.last().2), gap)
    }
}

/// The slit.
pub struct FbSlit {
    window: u32,
    gc: u32,
    bg_pixel: u32,
    screen_width: u16,
    screen_height: u16,
    style: SlitStyle,
    dock: Vec<(u32, u16, u16)>,
    thickness: u16,
    length: u16,
}

impl FbSlit {
    pub closed spec fn window_view(&self) -> u32 {
        self.window
    }

    /// Docked windows with their width and height, top first.
    pub closed spec fn dock_view(&self) -> Seq<(u32, u16, u16)> {
        self.dock@
    }

    pub closed spec fn placement_view(&self) -> SlitPlacement {
        self.style.placement
    }

    pub closed spec fn gap_view(&self) -> u16 {
        self.style.gap
    }

    pub closed spec fn screen_width_view(&self) -> u16 {
        self.screen_width
    }

    pub closed spec fn screen_height_view(&self) -> u16 {
        self.screen_height
    }

    pub closed spec fn thickness_view(&self) -> u16 {
        self.thickness
    }

    pub closed spec fn length_view(&self) -> u16 {
        self.length
    }

    /// The strip is as thick as its widest applet and as long as its
    /// applets and gaps.
    pub closed spec fn wf(&self) -> bool {
        &&& self.thickness == dock_thickness(self.dock@)
        &&& self.length == dock_length(self.dock@, self.style.gap)
    }

    /// An empty slit at `placement`, whose window (and drawing context) were
    /// created outside.
    pub fn new(
        window: u32,
        gc: u32,
        bg_pixel: u32,
        screen_width: u16,
        screen_height: u16,
        placement: SlitPlacement,
    ) -> (r: Self)
        ensures
            r.wf(),
            r.window_view() == window,
            r.thickness_view() == 0,
            r.length_view() == 0,
            r.dock_view().len() == 0,
            r.placement_view() == placement,
            r.gap_view() == 2,
    {
        let style = SlitStyle { placement, gap: SlitStyle::default().gap };
        FbSlit {
            window,
            gc,
            bg_pixel,
            screen_width,
            screen_height,
            style,
            dock: Vec::new(),
            thickness: 0,
            length: 0,
        }
    }

    pub fn window_id(&self) -> (r: u32)
        ensures
            r == self.window_view(),
    {
        self.window
    }

    /// The slit itself or one of its applets.
    pub fn owns_window(&self, window: u32) -> (r: bool)
        ensures
            r == (window == self.window_view() || exists|i: int|
                0 <= i < self.dock_view().len() && self.dock_view()[i].0 == window),
    {
        if window == self.window {
            return true;
        }
        let mut i: usize = 0;
        while i < self.dock.len()
            invariant
                i <= self.dock@.len(),
                forall|j: int| 0 <= j < i ==> self.dock@[j].0 != window,
            decreases self.dock@.len() - i,
        {
            if self.dock[i].0 == window {
                assert(self.dock_view()[i as int].0 == window);
                return true;
            }
            i = i + 1;
        }
        false
    }

    /// The space the slit reserves on its edge: its thickness, on its side,
    /// when it holds anything.
    pub fn strut(&self) -> (r: Strut)
        ensures
            (self.thickness_view() == 0 || self.length_view() == 0) ==> r == (Strut {
                left: 0,
                right: 0,
                top: 0,
                bottom: 0,
            }),
            !(self.thickness_view() == 0 || self.length_view() == 0) ==> r == (match self.placement_view() {
                SlitPlacement::Left => Strut { left: self.thickness_view(), right: 0, top: 0, bottom: 0 },
                SlitPlacement::Right => Strut { left: 0, right: self.thickness_view(), top: 0, bottom: 0 },
                SlitPlacement::Top => Strut { left: 0, right: 0, top: self.thickness_view(), bottom: 0 },
                SlitPlacement::Bottom => Strut { left: 0, right: 0, top: 0, bottom: self.thickness_view() },
            }),
    {
        if self.thickness == 0 || self.length == 0 {
            return Strut::zero();
        }
        match self.style.placement {
            SlitPlacement::Left => Strut::new(self.thickness, 0, 0, 0),
            SlitPlacement::Right => Strut::new(0, self.thickness, 0, 0),
            SlitPlacement::Top => Strut::new(0, 0, self.thickness, 0),
            SlitPlacement::Bottom => Strut::new(0, 0, 0, self.thickness),
        }
    }

    pub fn is_empty(&self) -> (r: bool)
        ensures
            r == (self.dock_view().len() == 0),
    {
        self.dock.len() == 0
    }

    /// Dock an applet of size `w` x `h` (once); the result is its offset
    /// along the strip, `None` when the window is the slit's already.
    pub fn add_window(&mut self, window: u32, w: u16, h: u16) -> (r: Option<u16>)
        requires
            old(self).wf(),
        ensures
            final(self).wf(),
            final(self).thickness_view() == dock_thickness(final(self).dock_view()),
            final(self).length_view() == dock_length(final(self).dock_view(), final(self).gap_view()),
            r is None <==> old(self).owns_window_spec(window),
            r is None ==> final(self).dock_view() == old(self).dock_view(),
            r matches Some(off) ==> off == old(self).length_view() && final(self).dock_view()
                == old(self).dock_view().push((window, w, h)),
            final(self).window_view() == old(self).window_view(),
            final(self).placement_view() == old(self).placement_view(),
            final(self).gap_view() == old(self).gap_view(),
    {
        if self.owns_window(window) {
            return None;
        }
        let offset = self.length;
        let ghost d0 = self.dock@;
        self.dock.push((window, w, h));
        self.thickness = if self.thickness >= w {
            self.thickness
        } else {
            w
        };
        let l1 = self.length.saturating_add(h);
        self.length = l1.saturating_add(self.style.gap);
        proof {
            assert(self.dock@.drop_last() =~= d0);
        }
        Some(offset)
    }

    pub open spec fn owns_window_spec(&self, window: u32) -> bool {
        window == self.window_view() || exists|i: int|
            0 <= i < self.dock_view().len() && self.dock_view()[i].0 == window
    }

    /// Take an applet (its first entry) out of the dock; the strip's extent
    /// is recomputed.
    pub fn remove_window(&mut self, window: u32) -> (removed: bool)
        requires
            old(self).wf(),
        ensures
            final(self).wf(),
            final(self).thickness_view() == dock_thickness(final(self).dock_view()),
            final(self).length_view() == dock_length(final(self).dock_view(), final(self).gap_view()),
            removed == exists|i: int|
                0 <= i < old(self).dock_view().len() && old(self).dock_view()[i].0 == window,
            removed ==> exists|i: int|
                0 <= i < old(self).dock_view().len() && old(self).dock_view()[i].0 == window
                    && (forall|j: int| 0 <= j < i ==> old(self).dock_view()[j].0 != window)
                    && final(self).dock_view() == old(self).dock_view().remove(i),
            !removed ==> final(self).dock_view() == old(self).dock_view(),
            final(self).window_view() == old(self).window_view(),
            final(self).placement_view() == old(self).placement_view(),
            final(self).gap_view() == old(self).gap_view(),
    {
        let mut i: usize = 0;
        while i < self.dock.len()
            invariant
                i <= self.dock@.len(),
                *self == *old(self),
                forall|j: int| 0 <= j < i ==> self.dock@[j].0 != window,
            decreases self.dock@.len() - i,
        {
            if self.dock[i].0 == window {
                let ghost d0 = self.dock@;
                assert(d0[i as int].0 == window);
                assert(old(self).dock_view() == d0);
                assert(forall|j: int| 0 <= j < i ==> old(self).dock_view()[j].0 != window);
                self.dock.remove(i);
                assert(self.dock@ =~= d0.remove(i as int));
                self.relayout();
                assert(self.dock_view() == d0.remove(i as int));
                return true;
            }
            i = i + 1;
        }
        false
    }

    /// Recompute the strip's extent from the dock.
    fn relayout(&mut self)
        ensures
            final(self).wf(),
            final(self).dock@ == old(self).dock@,
            final(self).window == old(self).window,
            final(self).style == old(self).style,
    {
        let gap = self.style.gap;
        let mut thickness: u16 = 0;
        let mut length: u16 = 0;
        let mut i: usize = 0;
        while i < self.dock.len()
            invariant
                i <= self.dock@.len(),
                gap == self.style.gap,
                thickness == dock_thickness(self.dock@.take(i as int)),
                length == dock_length(self.dock@.take(i as int), gap),
            decreases self.dock@.len() - i,
        {
            proof {
                assert(self.dock@.take(i + 1).drop_last() =~= self.dock@.take(i as int));
                assert(self.dock@.take(i + 1).last() == self.dock@[i as int]);
            }
            let (_w, dw, dh) = self.dock[i];
            thickness = if thickness >= dw {
                thickness
            } else {
                dw
            };
            length = length.saturating_add(dh).saturating_add(gap);
            i = i + 1;
        }
        assert(self.dock@.take(i as int) =~= self.dock@);
        self.thickness = thickness;
        self.length = length;
    }

    /// Where the strip goes (x, y, width, height), `None` while it is empty.
    pub fn placement_rect(&self) -> (r: Option<(i16, i16, u16, u16)>)
        requires
            self.screen_width_view() <= 0x7fff && self.screen_height_view() <= 0x7fff,
            self.thickness_view() <= 0x7fff,
        ensures
            (self.thickness_view() == 0 || self.length_view() == 0) ==> r is None,
            !(self.thickness_view() == 0 || self.length_view() == 0) ==> r == Some(
                match self.placement_view() {
                    SlitPlacement::Right => (
                        (self.screen_width_view() - self.thickness_view()) as i16,
                        0i16,
                        self.thickness_view(),
                        self.length_view(),
                    ),
                    SlitPlacement::Left => (0i16, 0i16, self.thickness_view(), self.length_view()),
                    SlitPlacement::Top => (0i16, 0i16, self.length_view(), self.thickness_view()),
                    SlitPlacement::Bottom => (
                        0i16,
                        (self.screen_height_view() - self.thickness_view()) as i16,
                        self.length_view(),
                        self.thickness_view(),
                    ),
                },
            ),
    {
        if self.thickness == 0 || self.length == 0 {
            return None;
        }
        Some(
            match self.style.placement {
                SlitPlacement::Right => (
                    (self.screen_width as i16) - (self.thickness as i16),
                    0,
                    self.thickness,
                    self.length,
                ),
                SlitPlacement::Left => (0, 0, self.thickness, self.length),
                SlitPlacement::Top => (0, 0, self.length, self.thickness),
                SlitPlacement::Bottom => (
                    0,
                    (self.screen_height as i16) - (self.thickness as i16),
                    self.length,
                    self.thickness,
                ),
            },
        )
    }

    /// The vertical offset of each docked window inside the strip, top
    /// first: each window sits below the ones before it and their gaps.
    pub fn dock_offsets(&self) -> (r: Vec<i16>)
        requires
            stack_offset(self.dock_view(), self.gap_view(), self.dock_view().len() as int) <= 0x7fff,
        ensures
            r@.len() == self.dock_view().len(),
            forall|k: int|
                0 <= k < r@.len() ==> #[trigger] r@[k] as int == stack_offset(
                    self.dock_view(),
                    self.gap_view(),
                    k,
                ),
    {
        let gap = self.style.gap;
        let mut out: Vec<i16> = Vec::new();
        let mut off: i16 = 0;
        let mut i: usize = 0;
        while i < self.dock.len()
            invariant
                i <= self.dock@.len(),
                out@.len() == i,
                off as int == stack_offset(self.dock@, gap, i as int),
                stack_offset(self.dock@, gap, self.dock@.len() as int) <= 0x7fff,
                forall|k: int|
                    0 <= k < i ==> #[trigger] out@[k] as int == stack_offset(self.dock@, gap, k),
            decreases self.dock@.len() - i,
        {
            out.push(off);
            proof {
                lemma_stack_offset_mono(self.dock@, gap, i as int, i as int + 1);
                lemma_stack_offset_mono(self.dock@, gap, i as int + 1, self.dock@.len() as int);
            }
            let dh = self.dock[i].2;
            assert(off + dh + gap <= 0x7fff);
            assert(dh as i16 == dh as int) by (bit_vector)
                requires
                    dh <= 0x7fff,
            ;
            assert(gap as i16 == gap as int) by (bit_vector)
                requires
                    gap <= 0x7fff,
            ;
            off = off + dh as i16 + gap as i16;
            i = i + 1;
        }
        out
    }
}

/// The heights of the first `k` dock entries, each followed by the gap.
pub open spec fn stack_offset(d: Seq<(u32, u16, u16)>, gap: u16, k: int) -> int
    decreases k,
{
    if k <= 0 {
        0
    } else {
        stack_offset(d, gap, k - 1) + d[k - 1].2 + gap
    }
}

proof fn lemma_stack_offset_mono(d: Seq<(u32, u16, u16)>, gap: u16, a: int, b: int)
    requires
        0 <= a <= b,
    ensures
        0 <= stack_offset(d, gap, a) <= stack_offset(d, gap, b),
    decreases b,
{
    if b > 0 {
        if a < b {
            lemma_stack_offset_mono(d, gap, a, b - 1);
        } else {
            lemma_stack_offset_mono(d, gap, 0, b - 1);
        }
    }
}

} // verus!
