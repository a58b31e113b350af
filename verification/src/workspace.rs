//! A workspace: the windows on it, the one focused last, and their stacking
//! order.

use vstd::prelude::*;
use crate::window::WindowId;

verus! {

/// The windows of `s` other than `id`, in order.
pub open spec fn without(s: Seq<WindowId>, id: WindowId) -> Seq<WindowId> {
    s.filter(|w: WindowId| w != id)
}

/// No window occurs twice in `s`.
pub open spec fn distinct(s: Seq<WindowId>) -> bool {
    forall|i: int, j: int| 0 <= i < j < s.len() ==> s[i] != s[j]
}

#[derive(Debug, Clone)]
pub struct Workspace {
    id: u32,
    name: String,
    windows: Vec<WindowId>,
    last_focused: Option<WindowId>,
    stacking_order: Vec<WindowId>,
}

proof fn lemma_without_contains(s: Seq<WindowId>, id: WindowId, w: WindowId)
    ensures
        without(s, id).contains(w) <==> (s.contains(w) && w != id),
    decreases s.len(),
{
    reveal(Seq::filter);
    if s.len() > 0 {
        lemma_without_contains(s.drop_last(), id, w);
        assert(s =~= s.drop_last().push(s.last()));
        if s.drop_last().contains(w) {
            let k = choose|k: int| 0 <= k < s.drop_last().len() && s.drop_last()[k] == w;
            assert(s[k] == w);
        }
        if s.contains(w) && w != id {
            let k = choose|k: int| 0 <= k < s.len() && s[k] == w;
            if k < s.len() - 1 {
                assert(s.drop_last()[k] == w);
            }
        }
        if without(s, id).contains(w) {
            let k = choose|k: int| 0 <= k < without(s, id).len() && without(s, id)[k] == w;
            if k < without(s.drop_last(), id).len() {
                assert(without(s.drop_last(), id)[k] == w);
            }
        }
    }
}

proof fn lemma_without_distinct(s: Seq<WindowId>, id: WindowId)
    requires
        distinct(s),
    ensures
        distinct(without(s, id)),
    decreases s.len(),
{
    reveal(Seq::filter);
    if s.len() > 0 {
        let p = s.drop_last();
        assert(distinct(p));
        lemma_without_distinct(p, id);
        lemma_without_contains(p, id, s.last());
        if !p.contains(s.last()) {
        } else {
            let k = choose|k: int| 0 <= k < p.len() && p[k] == s.last();
            assert(s[k] == s[s.len() - 1]);
        }
    }
}

impl Workspace {
    pub closed spec fn id_view(&self) -> u32 {
        self.id
    }

    pub closed spec fn name_view(&self) -> Seq<char> {
        self.name@
    }

    /// The windows on the workspace, in the order they were added.
    pub closed spec fn windows_view(&self) -> Seq<WindowId> {
        self.windows@
    }

    pub closed spec fn last_focused_view(&self) -> Option<WindowId> {
        self.last_focused
    }

    /// Raised or lowered windows, bottom first.
    pub closed spec fn stacking_view(&self) -> Seq<WindowId> {
        self.stacking_order@
    }

    /// No window is listed twice.
    pub closed spec fn wf(&self) -> bool {
        distinct(self.windows@) && distinct(self.stacking_order@)
    }

    pub fn new(id: u32, name: &str) -> (r: Self)
        ensures
            r.wf(),
            r.id_view() == id,
            r.name_view() == name@,
            r.windows_view().len() == 0,
            r.last_focused_view() is None,
            r.stacking_view().len() == 0,
    {
        Workspace {
            id,
            name: String::from_str(name),
            windows: Vec::new(),
            last_focused: None,
            stacking_order: Vec::new(),
        }
    }

    pub fn id(&self) -> (r: u32)
        ensures
            r == self.id_view(),
    {
        self.id
    }

    pub fn name(&self) -> (r: &str)
        ensures
            r@ == self.name_view(),
    {
        self.name.as_str()
    }

    pub fn set_name(&mut self, name: &str)
        requires
            old(self).wf(),
        ensures
            final(self).wf(),
            final(self).name_view() == name@,
            final(self).id_view() == old(self).id_view(),
            final(self).windows_view() == old(self).windows_view(),
            final(self).last_focused_view() == old(self).last_focused_view(),
            final(self).stacking_view() == old(self).stacking_view(),
    {
        self.name = String::from_str(name);
    }

    /// Add a window (once) and make it the last focused one.
    pub fn add_window(&mut self, id: WindowId)
        requires
            old(self).wf(),
        ensures
            final(self).wf(),
            final(self).windows_view() == (if old(self).windows_view().contains(id) {
                old(self).windows_view()
            } else {
                old(self).windows_view().push(id)
            }),
            final(self).last_focused_view() == Some(id),
            final(self).id_view() == old(self).id_view(),
            final(self).name_view() == old(self).name_view(),
            final(self).stacking_view() == old(self).stacking_view(),
    {
        if !self.has_window(id) {
            self.windows.push(id);
            proof {
                assert forall|i: int, j: int| 0 <= i < j < self.windows@.len() implies self.windows@[i]
                    != self.windows@[j] by {
                    if j == self.windows@.len() - 1 {
                        assert(old(self).windows@[i] == self.windows@[i]);
                    }
                }
            }
        }
        self.last_focused = Some(id);
    }

    /// Take a window off the workspace and out of the stacking order; when
    /// it was the last focused one, the last window left takes its place.
    pub fn remove_window(&mut self, id: WindowId)
        requires
            old(self).wf(),
        ensures
            final(self).wf(),
            final(self).windows_view() == without(old(self).windows_view(), id),
            final(self).stacking_view() == without(old(self).stacking_view(), id),
            final(self).last_focused_view() == (if old(self).last_focused_view() == Some(id) {
                if final(self).windows_view().len() > 0 {
                    Some(final(self).windows_view().last())
                } else {
                    None
                }
            } else {
                old(self).last_focused_view()
            }),
            !final(self).windows_view().contains(id),
            final(self).id_view() == old(self).id_view(),
            final(self).name_view() == old(self).name_view(),
    {
        let w = retain_not(&self.windows, id);
        let s = retain_not(&self.stacking_order, id);
        proof {
            lemma_without_distinct(self.windows@, id);
            lemma_without_distinct(self.stacking_order@, id);
            lemma_without_contains(self.windows@, id, id);
        }
        self.windows = w;
        self.stacking_order = s;
        if self.last_focused == Some(id) {
            self.last_focused = if self.windows.len() > 0 {
                Some(self.windows[self.windows.len() - 1])
            } else {
                None
            };
        }
    }

    pub fn has_window(&self, id: WindowId) -> (r: bool)
        ensures
            r == self.windows_view().contains(id),
    {
        let mut i: usize = 0;
        while i < self.windows.len()
            invariant
                i <= self.windows@.len(),
                forall|j: int| 0 <= j < i ==> self.windows@[j] != id,
            decreases self.windows@.len() - i,
        {
            if self.windows[i] == id {
                assert(self.windows@[i as int] == id);
                return true;
            }
            i = i + 1;
        }
        false
    }

    pub fn window_count(&self) -> (r: usize)
        ensures
            r == self.windows_view().len(),
    {
        self.windows.len()
    }

    pub fn windows(&self) -> (r: &[WindowId])
        ensures
            r@ == self.windows_view(),
    {
        self.windows.as_slice()
    }

    pub fn last_focused(&self) -> (r: Option<WindowId>)
        ensures
            r == self.last_focused_view(),
    {
        self.last_focused
    }

    pub fn set_last_focused(&mut self, id: WindowId)
        requires
            old(self).wf(),
        ensures
            final(self).wf(),
            final(self).last_focused_view() == Some(id),
            final(self).id_view() == old(self).id_view(),
            final(self).name_view() == old(self).name_view(),
            final(self).windows_view() == old(self).windows_view(),
            final(self).stacking_view() == old(self).stacking_view(),
    {
        self.last_focused = Some(id);
    }

    pub fn is_empty(&self) -> (r: bool)
        ensures
            r == (self.windows_view().len() == 0),
    {
        self.windows.len() == 0
    }

    /// Put a window on top of the stacking order.
    pub fn raise_window(&mut self, id: WindowId)
        requires
            old(self).wf(),
        ensures
            final(self).wf(),
            final(self).stacking_view() == without(old(self).stacking_view(), id).push(id),
            final(self).id_view() == old(self).id_view(),
            final(self).name_view() == old(self).name_view(),
            final(self).windows_view() == old(self).windows_view(),
            final(self).last_focused_view() == old(self).last_focused_view(),
    {
        let mut s = retain_not(&self.stacking_order, id);
        proof {
            lemma_without_distinct(self.stacking_order@, id);
            lemma_without_contains(self.stacking_order@, id, id);
        }
        let ghost before = s@;
        s.push(id);
        proof {
            assert forall|i: int, j: int| 0 <= i < j < s@.len() implies s@[i] != s@[j] by {
                if j == s@.len() - 1 {
                    assert(before[i] == s@[i]);
                    assert(before.contains(before[i]));
                }
            }
        }
        self.stacking_order = s;
    }

    /// Put a window at the bottom of the stacking order.
    pub fn lower_window(&mut self, id: WindowId)
        requires
            old(self).wf(),
        ensures
            final(self).wf(),
            final(self).stacking_view() == seq![id] + without(old(self).stacking_view(), id),
            final(self).id_view() == old(self).id_view(),
            final(self).name_view() == old(self).name_view(),
            final(self).windows_view() == old(self).windows_view(),
            final(self).last_focused_view() == old(self).last_focused_view(),
    {
        let mut s = retain_not(&self.stacking_order, id);
        proof {
            lemma_without_distinct(self.stacking_order@, id);
            lemma_without_contains(self.stacking_order@, id, id);
        }
        let ghost before = s@;
        s.insert(0, id);
        proof {
            assert(s@ =~= seq![id] + before);
            assert forall|i: int, j: int| 0 <= i < j < s@.len() implies s@[i] != s@[j] by {
                if i == 0 {
                    assert(before[j - 1] == s@[j]);
                    assert(before.contains(before[j - 1]));
                } else {
                    assert(before[i - 1] == s@[i]);
                    assert(before[j - 1] == s@[j]);
                }
            }
        }
        self.stacking_order = s;
    }
}

/// The windows of `v` other than `id`, in order.
fn retain_not(v: &Vec<WindowId>, id: WindowId) -> (r: Vec<WindowId>)
    ensures
        r@ == without(v@, id),
{
    let mut out: Vec<WindowId> = Vec::new();
    let mut i: usize = 0;
    proof {
        reveal(Seq::filter);
        assert(v@.take(0) =~= seq![]);
    }
    while i < v.len()
        invariant
            i <= v@.len(),
            out@ == without(v@.take(i as int), id),
        decreases v@.len() - i,
    {
        proof {
            reveal(Seq::filter);
            assert(v@.take(i + 1).drop_last() =~= v@.take(i as int));
            assert(v@.take(i + 1).last() == v@[i as int]);
        }
        if v[i] != id {
            out.push(v[i]);
        }
        i = i + 1;
    }
    assert(v@.take(i as int) =~= v@);
    out
}

/// Raising a window puts it on top, and lowering it puts it at the bottom,
/// whatever the order before; neither changes which windows are stacked
/// besides it.
pub proof fn lemma_raise_lower_ends(s: Seq<WindowId>, id: WindowId)
    ensures
        without(s, id).push(id).last() == id,
        (seq![id] + without(s, id))[0] == id,
        without(without(s, id).push(id), id) == without(s, id),
        without(seq![id] + without(s, id), id) == without(s, id),
{
    reveal(Seq::filter);
    let w = without(s, id);
    lemma_without_idempotent(s, id);
    assert(w.push(id).drop_last() =~= w);
    assert(w.push(id).last() == id);
    assert(without(w.push(id), id) == without(w, id));
    let one: Seq<WindowId> = seq![id];
    assert(one.drop_last() =~= Seq::<WindowId>::empty());
    assert(one.last() == id);
    assert(without(Seq::<WindowId>::empty(), id) =~= Seq::<WindowId>::empty());
    assert(without(one, id) =~= Seq::<WindowId>::empty());
    Seq::filter_distributes_over_add(one, w, |x: WindowId| x != id);
    assert(Seq::<WindowId>::empty() + w =~= w);
}

proof fn lemma_without_idempotent(s: Seq<WindowId>, id: WindowId)
    ensures
        without(without(s, id), id) == without(s, id),
    decreases s.len(),
{
    reveal(Seq::filter);
    if s.len() > 0 {
        lemma_without_idempotent(s.drop_last(), id);
        if s.last() != id {
            assert(without(s, id).drop_last() =~= without(s.drop_last(), id));
        }
    }
}

} // verus!
