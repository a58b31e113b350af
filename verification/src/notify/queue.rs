//! The daemon's bookkeeping: which notifications are shown, which wait for a
//! free slot, which are kept in history, and which grouping key points at
//! which notification. Windows and the bus are driven from outside; each
//! operation says what to do with them.

use vstd::prelude::*;
use super::{opt_str, RawNotification, Rule};
use super::rules::{apply_rules, effect_of, rules_effect, same_but_effect};
use crate::text::str_eq;

verus! {

/// Notifications kept in history, at most.
pub const HISTORY_MAX: usize = 50;

/// Notifications waiting for a free slot, at most.
pub const WAITING_MAX: usize = 100;

/// What became of a notification handed to `enqueue`.
#[derive(Debug)]
pub enum Admission {
    /// The rules keep it off the screen; it is closed with the undefined
    /// reason (its id is given).
    Skipped(u32),
    /// A slot is free: show it (and report it with `push_displayed`).
    Show(RawNotification),
    /// All slots are taken: it waits.
    Queued,
}

/// The notification as it goes into history: without its raw icon bytes.
pub open spec fn stripped(n: RawNotification) -> RawNotification {
    RawNotification { icon_data: None, ..n }
}

/// `s` with `x` appended, the oldest entry dropped when it grows past `cap`.
pub open spec fn bounded_push(s: Seq<RawNotification>, x: RawNotification, cap: nat) -> Seq<
    RawNotification,
> {
    if s.len() + 1 > cap {
        s.push(x).drop_first()
    } else {
        s.push(x)
    }
}

/// The notifications of `s` whose id is not `id`, in order.
pub open spec fn without_id(s: Seq<RawNotification>, id: u32) -> Seq<RawNotification> {
    s.filter(|n: RawNotification| n.id != id)
}

/// Index of the first notification of `s` with id `id`, or -1.
pub open spec fn find_id(s: Seq<RawNotification>, id: u32) -> int
    decreases s.len(),
{
    if s.len() == 0 {
        -1
    } else if s[0].id == id {
        0
    } else {
        let r = find_id(s.drop_first(), id);
        if r < 0 {
            -1
        } else {
            r + 1
        }
    }
}

pub proof fn lemma_find_id(s: Seq<RawNotification>, id: u32)
    ensures
        -1 <= find_id(s, id) < s.len(),
        find_id(s, id) >= 0 ==> s[find_id(s, id)].id == id,
        find_id(s, id) >= 0 ==> forall|j: int| 0 <= j < find_id(s, id) ==> s[j].id != id,
        find_id(s, id) < 0 ==> forall|j: int| 0 <= j < s.len() ==> s[j].id != id,
    decreases s.len(),
{
    if s.len() > 0 && s[0].id != id {
        lemma_find_id(s.drop_first(), id);
        assert forall|j: int| 0 < j < s.len() implies s[j].id == s.drop_first()[j - 1].id by {}
    }
}

/// The id that the key `key` points at, if any.
pub open spec fn sync_lookup(m: Seq<(Seq<char>, u32)>, key: Seq<char>) -> Option<u32>
    decreases m.len(),
{
    if m.len() == 0 {
        None
    } else if m.last().0 == key {
        Some(m.last().1)
    } else {
        sync_lookup(m.drop_last(), key)
    }
}

/// Grouping keys as texts.
pub open spec fn sync_pairs(v: Seq<(String, u32)>) -> Seq<(Seq<char>, u32)> {
    v.map_values(|p: (String, u32)| (p.0@, p.1))
}

/// The keys of `m` are distinct.
pub open spec fn keys_distinct(m: Seq<(Seq<char>, u32)>) -> bool {
    forall|i: int, j: int| 0 <= i < j < m.len() ==> (#[trigger] m[i]).0 != (#[trigger] m[j]).0
}

/// The notification daemon's state apart from its windows and bus.
pub struct NotifyQueue {
    next_id: u32,
    paused: bool,
    displayed: Vec<RawNotification>,
    waiting: Vec<RawNotification>,
    history: Vec<RawNotification>,
    sync_map: Vec<(String, u32)>,
}

impl NotifyQueue {
    pub closed spec fn next_id_view(&self) -> u32 {
        self.next_id
    }

    pub closed spec fn is_paused(&self) -> bool {
        self.paused
    }

    /// The notifications shown, in slot order.
    pub closed spec fn displayed_view(&self) -> Seq<RawNotification> {
        self.displayed@
    }

    /// The notifications waiting for a slot, oldest first.
    pub closed spec fn waiting_view(&self) -> Seq<RawNotification> {
        self.waiting@
    }

    /// The notifications kept in history, oldest first.
    pub closed spec fn history_view(&self) -> Seq<RawNotification> {
        self.history@
    }

    /// Grouping keys and the ids they point at.
    pub closed spec fn sync_view(&self) -> Seq<(Seq<char>, u32)> {
        sync_pairs(self.sync_map@)
    }

    /// What always holds: ids are handed out from 1 on, history and the
    /// waiting queue stay bounded, and a key points at one id.
    pub closed spec fn wf(&self) -> bool {
        &&& self.next_id != 0
        &&& self.history@.len() <= HISTORY_MAX
        &&& self.waiting@.len() <= WAITING_MAX
        &&& keys_distinct(self.sync_view())
    }

    /// An empty daemon state; ids start at 1.
    pub fn new() -> (r: NotifyQueue)
        ensures
            r.wf(),
            r.next_id_view() == 1,
            !r.is_paused(),
            r.displayed_view().len() == 0,
            r.waiting_view().len() == 0,
            r.history_view().len() == 0,
            r.sync_view().len() == 0,
    {
        let r = NotifyQueue {
            next_id: 1,
            paused: false,
            displayed: Vec::new(),
            waiting: Vec::new(),
            history: Vec::new(),
            sync_map: Vec::new(),
        };
        assert(r.sync_view() =~= seq![]);
        r
    }

    pub fn set_paused(&mut self, paused: bool)
        requires
            old(self).wf(),
        ensures
            final(self).wf(),
            final(self).is_paused() == paused,
            final(self).next_id_view() == old(self).next_id_view(),
            final(self).displayed_view() == old(self).displayed_view(),
            final(self).waiting_view() == old(self).waiting_view(),
            final(self).history_view() == old(self).history_view(),
            final(self).sync_view() == old(self).sync_view(),
    {
        self.paused = paused;
    }

    pub fn paused(&self) -> (r: bool)
        ensures
            r == self.is_paused(),
    {
        self.paused
    }

    /// The next id, which skips 0 when the counter wraps.
    fn bump_id(&mut self) -> (id: u32)
        requires
            old(self).wf(),
        ensures
            final(self).wf(),
            id == old(self).next_id_view(),
            final(self).next_id_view() == (if id == u32::MAX {
                1u32
            } else {
                (id + 1) as u32
            }),
            final(self).is_paused() == old(self).is_paused(),
            final(self).displayed_view() == old(self).displayed_view(),
            final(self).waiting_view() == old(self).waiting_view(),
            final(self).history_view() == old(self).history_view(),
            final(self).sync_view() == old(self).sync_view(),
    {
        let id = self.next_id;
        self.next_id = if id == u32::MAX {
            1
        } else {
            id + 1
        };
        id
    }

    fn sync_get(&self, key: &str) -> (r: Option<u32>)
        ensures
            r == sync_lookup(self.sync_view(), key@),
    {
        let mut i = self.sync_map.len();
        let ghost m = self.sync_view();
        assert(m.take(i as int) =~= m);
        while i > 0
            invariant
                i <= self.sync_map@.len(),
                m == self.sync_view(),
                sync_lookup(m, key@) == sync_lookup(m.take(i as int), key@),
            decreases i,
        {
            let (k, v) = &self.sync_map[i - 1];
            proof {
                assert(m.take(i as int).drop_last() =~= m.take(i - 1));
                assert(m.take(i as int).last() == m[i - 1]);
            }
            if str_eq(k.as_str(), key) {
                return Some(*v);
            }
            i = i - 1;
        }
        assert(m.take(0) =~= seq![]);
        None
    }

    /// Point `key` at `id`, replacing what it pointed at.
    fn sync_insert(&mut self, key: &str, id: u32)
        requires
            old(self).wf(),
        ensures
            final(self).wf(),
            sync_lookup(final(self).sync_view(), key@) == Some(id),
            forall|k: Seq<char>|
                k != key@ ==> sync_lookup(final(self).sync_view(), k) == sync_lookup(
                    old(self).sync_view(),
                    k,
                ),
            final(self).next_id_view() == old(self).next_id_view(),
            final(self).is_paused() == old(self).is_paused(),
            final(self).displayed_view() == old(self).displayed_view(),
            final(self).waiting_view() == old(self).waiting_view(),
            final(self).history_view() == old(self).history_view(),
    {
        self.sync_remove(key);
        let ghost before = self.sync_view();
        self.sync_map.push((String::from_str(key), id));
        proof {
            assert(self.sync_view() =~= before.push((key@, id)));
            assert(self.sync_view().drop_last() =~= before);
            assert forall|k: Seq<char>| k != key@ implies sync_lookup(self.sync_view(), k)
                == sync_lookup(before, k) by {}
        }
    }

    /// Drop `key` from the grouping keys.
    fn sync_remove(&mut self, key: &str)
        requires
            old(self).wf(),
        ensures
            final(self).wf(),
            sync_lookup(final(self).sync_view(), key@) is None,
            forall|k: Seq<char>| #![all_triggers]
                k != key@ ==> sync_lookup(final(self).sync_view(), k) == sync_lookup(
                    old(self).sync_view(),
                    k,
                ),
            forall|i: int|
                0 <= i < final(self).sync_view().len() ==> (#[trigger] final(self).sync_view()[i]).0
                    != key@,
            final(self).next_id_view() == old(self).next_id_view(),
            final(self).is_paused() == old(self).is_paused(),
            final(self).displayed_view() == old(self).displayed_view(),
            final(self).waiting_view() == old(self).waiting_view(),
            final(self).history_view() == old(self).history_view(),
    {
        let ghost m0 = self.sync_view();
        let mut kept: Vec<(String, u32)> = Vec::new();
        let mut i: usize = 0;
        while i < self.sync_map.len()
            invariant
                i <= self.sync_map@.len(),
                m0 == self.sync_view(),
                keys_distinct(m0),
                keys_distinct(sync_pairs(kept@)),
                forall|j: int|
                    0 <= j < kept@.len() ==> (#[trigger] sync_pairs(kept@)[j]).0 != key@,
                forall|j: int|
                    0 <= j < kept@.len() ==> exists|t: int|
                        0 <= t < i && #[trigger] sync_pairs(kept@)[j]
                            == m0[t],
                forall|k: Seq<char>| #![all_triggers]
                    k != key@ ==> sync_lookup(sync_pairs(kept@), k)
                        == sync_lookup(m0.take(i as int), k),
                sync_lookup(sync_pairs(kept@), key@) is None,
            decreases self.sync_map@.len() - i,
        {
            let ghost kv = sync_pairs(kept@);
            let (k, v) = &self.sync_map[i];
            proof {
                assert(m0.take(i + 1).drop_last() =~= m0.take(i as int));
                assert(m0.take(i + 1).last() == m0[i as int]);
            }
            if !str_eq(k.as_str(), key) {
                kept.push((k.clone(), *v));
                proof {
                    let kv2 = sync_pairs(kept@);
                    assert(kv2 =~= kv.push(m0[i as int]));
                    assert(kv2.drop_last() =~= kv);
                    assert forall|a: int, b: int| 0 <= a < b < kv2.len() implies (#[trigger] kv2[a]).0
                        != (#[trigger] kv2[b]).0 by {
                        if b == kv2.len() - 1 {
                            let t = choose|t: int| 0 <= t < i && kv[a] == m0[t];
                            assert(m0[t].0 != m0[i as int].0);
                        }
                    }
                    assert forall|j: int| 0 <= j < kv2.len() implies exists|t: int|
                        0 <= t < i + 1 && #[trigger] kv2[j] == m0[t] by {
                        if j == kv2.len() - 1 {
                            assert(kv2[j] == m0[i as int]);
                        } else {
                            assert(kv2[j] == kv[j]);
                        }
                    }
                    assert forall|k2: Seq<char>| k2 != key@ implies sync_lookup(kv2, k2) == sync_lookup(
                        m0.take(i + 1),
                        k2,
                    ) by {
                        assert(kv2.last() == m0.take(i + 1).last());
                        assert(kv2.drop_last() == kv);
                        assert(m0.take(i + 1).drop_last() == m0.take(i as int));
                        assert(sync_lookup(kv, k2) == sync_lookup(m0.take(i as int), k2));
                    }
                    assert(sync_lookup(kv2, key@) is None);
                }
            } else {
                proof {
                    assert forall|j: int| 0 <= j < kv.len() implies exists|t: int|
                        0 <= t < i + 1 && #[trigger] kv[j] == m0[t] by {}
                    assert forall|k2: Seq<char>| k2 != key@ implies sync_lookup(kv, k2) == sync_lookup(
                        m0.take(i + 1),
                        k2,
                    ) by {
                        assert(m0.take(i + 1).last().0 == key@);
                    }
                }
            }
            i = i + 1;
        }
        proof {
            assert(m0.take(self.sync_map@.len() as int) =~= m0);
        }
        self.sync_map = kept;
    }

    /// The id of a `Notify` request: the id it replaces, else the id that its
    /// grouping key points at, else a fresh one. The key then points at it.
    pub fn alloc_id(&mut self, replaces_id: u32, replace_key: Option<&str>) -> (id: u32)
        requires
            old(self).wf(),
        ensures
            final(self).wf(),
            id != 0,
            id == (if replaces_id != 0 {
                replaces_id
            } else {
                match replace_key {
                    Some(k) => match sync_lookup(old(self).sync_view(), k@) {
                        Some(v) => if v != 0 {
                            v
                        } else {
                            old(self).next_id_view()
                        },
                        None => old(self).next_id_view(),
                    },
                    None => old(self).next_id_view(),
                }
            }),
            final(self).next_id_view() == (if id == old(self).next_id_view() && (replaces_id == 0) && (
            match replace_key {
                Some(k) => match sync_lookup(old(self).sync_view(), k@) {
                    Some(v) => v == 0,
                    None => true,
                },
                None => true,
            }) {
                if id == u32::MAX {
                    1u32
                } else {
                    (id + 1) as u32
                }
            } else {
                old(self).next_id_view()
            }),
            replace_key matches Some(k) ==> sync_lookup(final(self).sync_view(), k@) == Some(id),
            replace_key matches Some(k) ==> forall|k2: Seq<char>|
                k2 != k@ ==> sync_lookup(final(self).sync_view(), k2) == sync_lookup(
                    old(self).sync_view(),
                    k2,
                ),
            replace_key is None ==> final(self).sync_view() == old(self).sync_view(),
            final(self).is_paused() == old(self).is_paused(),
            final(self).displayed_view() == old(self).displayed_view(),
            final(self).waiting_view() == old(self).waiting_view(),
            final(self).history_view() == old(self).history_view(),
    {
        let rid = if replaces_id != 0 {
            replaces_id
        } else {
            match replace_key {
                Some(k) => match self.sync_get(k) {
                    Some(v) => v,
                    None => 0,
                },
                None => 0,
            }
        };
        let id = if rid != 0 {
            rid
        } else {
            self.bump_id()
        };
        if let Some(k) = replace_key {
            self.sync_insert(k, id);
        }
        id
    }

    /// Give a notification without an id (0) the next id.
    pub fn assign_id(&mut self, notif: &mut RawNotification)
        requires
            old(self).wf(),
        ensures
            final(self).wf(),
            old(notif).id == 0 ==> final(notif).id == old(self).next_id_view() && final(self).next_id_view() == (if old(self).next_id_view() == u32::MAX {
                1u32
            } else {
                (old(self).next_id_view() + 1) as u32
            }),
            old(notif).id != 0 ==> final(notif).id == old(notif).id && final(self).next_id_view()
                == old(self).next_id_view(),
            *final(notif) == (RawNotification { id: final(notif).id, ..*old(notif) }),
            final(self).is_paused() == old(self).is_paused(),
            final(self).displayed_view() == old(self).displayed_view(),
            final(self).waiting_view() == old(self).waiting_view(),
            final(self).history_view() == old(self).history_view(),
            final(self).sync_view() == old(self).sync_view(),
    {
        if notif.id == 0 {
            notif.id = self.bump_id();
        }
    }

    /// Keep `notif` in history (without its icon bytes), dropping the oldest
    /// entry past the limit.
    fn remember(&mut self, notif: RawNotification)
        requires
            old(self).wf(),
        ensures
            final(self).wf(),
            final(self).history_view() == bounded_push(
                old(self).history_view(),
                stripped(notif),
                HISTORY_MAX as nat,
            ),
            final(self).next_id_view() == old(self).next_id_view(),
            final(self).is_paused() == old(self).is_paused(),
            final(self).displayed_view() == old(self).displayed_view(),
            final(self).waiting_view() == old(self).waiting_view(),
            final(self).sync_view() == old(self).sync_view(),
    {
        let mut n = notif;
        n.icon_data = None;
        self.history.push(n);
        if self.history.len() > HISTORY_MAX {
            self.history.remove(0);
        }
        proof {
            assert(n == stripped(notif));
        }
    }

    /// Admit a notification: apply the rules; when they keep it off the
    /// screen it goes to history (unless it is to be ignored there), when a
    /// slot is free it is to be shown, otherwise it waits (the oldest waiting
    /// one dropped past the limit).
    pub fn enqueue(&mut self, notif: RawNotification, rules: &[Rule], max_visible: usize) -> (r:
        Admission)
        requires
            old(self).wf(),
        ensures
            final(self).wf(),
            final(self).next_id_view() == old(self).next_id_view(),
            final(self).is_paused() == old(self).is_paused(),
            final(self).displayed_view() == old(self).displayed_view(),
            final(self).sync_view() == old(self).sync_view(),
            ({
                let e = rules_effect(
                    effect_of(notif, false),
                    notif,
                    rules@.map_values(|r: Rule| r.view()),
                );
                if e.skip {
                    &&& r == Admission::Skipped(notif.id)
                    &&& final(self).waiting_view() == old(self).waiting_view()
                    &&& e.history_ignore ==> final(self).history_view() == old(self).history_view()
                    &&& !e.history_ignore ==> final(self).history_view().len() > 0
                        && final(self).history_view().drop_last() == (if old(self).history_view().len()
                        + 1 > HISTORY_MAX {
                        old(self).history_view().drop_first()
                    } else {
                        old(self).history_view()
                    })
                    &&& !e.history_ignore ==> same_but_effect(stripped(notif), final(self).history_view().last())
                        && effect_of(final(self).history_view().last(), true) == e
                        && final(self).history_view().last().icon_data is None
                } else if old(self).displayed_view().len() < max_visible {
                    &&& r matches Admission::Show(n) && same_but_effect(notif, n) && effect_of(n, false)
                        == e
                    &&& final(self).waiting_view() == old(self).waiting_view()
                    &&& final(self).history_view() == old(self).history_view()
                } else {
                    &&& r == Admission::Queued
                    &&& final(self).history_view() == old(self).history_view()
                    &&& final(self).waiting_view().len() > 0
                    &&& final(self).waiting_view().drop_last() == (if old(self).waiting_view().len()
                        >= WAITING_MAX {
                        old(self).waiting_view().drop_first()
                    } else {
                        old(self).waiting_view()
                    })
                    &&& same_but_effect(notif, final(self).waiting_view().last())
                    &&& effect_of(final(self).waiting_view().last(), false) == e
                }
            }),
    {
        let mut n = notif;
        let skip = apply_rules(&mut n, rules);
        if skip {
            let id = n.id;
            if !n.history_ignore {
                let ghost n1 = n;
                self.remember(n);
                proof {
                    let h = self.history_view();
                    assert(h.last() == stripped(n1));
                    if old(self).history_view().len() + 1 > HISTORY_MAX {
                        assert(h.drop_last() =~= old(self).history_view().drop_first());
                    } else {
                        assert(h.drop_last() =~= old(self).history_view());
                    }
                }
            }
            return Admission::Skipped(id);
        }
        if self.displayed.len() < max_visible {
            return Admission::Show(n);
        }
        let ghost w0 = self.waiting@;
        if self.waiting.len() >= WAITING_MAX {
            self.waiting.remove(0);
        }
        let ghost w1 = self.waiting@;
        self.waiting.push(n);
        proof {
            assert(self.waiting@.drop_last() =~= w1);
            if w0.len() >= WAITING_MAX {
                assert(w1 =~= w0.drop_first());
            }
        }
        Admission::Queued
    }

    /// The next waiting notification to show, when a slot is free (it leaves
    /// the waiting queue).
    pub fn next_to_show(&mut self, max_visible: usize) -> (r: Option<RawNotification>)
        requires
            old(self).wf(),
        ensures
            final(self).wf(),
            (old(self).displayed_view().len() < max_visible && old(self).waiting_view().len() > 0)
                ==> r == Some(old(self).waiting_view()[0]) && final(self).waiting_view()
                == old(self).waiting_view().drop_first(),
            !(old(self).displayed_view().len() < max_visible && old(self).waiting_view().len() > 0)
                ==> r is None && final(self).waiting_view() == old(self).waiting_view(),
            final(self).next_id_view() == old(self).next_id_view(),
            final(self).is_paused() == old(self).is_paused(),
            final(self).displayed_view() == old(self).displayed_view(),
            final(self).history_view() == old(self).history_view(),
            final(self).sync_view() == old(self).sync_view(),
    {
        if self.displayed.len() < max_visible && self.waiting.len() > 0 {
            let n = self.waiting.remove(0);
            assert(self.waiting@ =~= old(self).waiting_view().drop_first());
            Some(n)
        } else {
            None
        }
    }

    /// Record that `notif` is shown in the next slot.
    pub fn push_displayed(&mut self, notif: RawNotification)
        requires
            old(self).wf(),
        ensures
            final(self).wf(),
            final(self).displayed_view() == old(self).displayed_view().push(notif),
            final(self).next_id_view() == old(self).next_id_view(),
            final(self).is_paused() == old(self).is_paused(),
            final(self).waiting_view() == old(self).waiting_view(),
            final(self).history_view() == old(self).history_view(),
            final(self).sync_view() == old(self).sync_view(),
    {
        self.displayed.push(notif);
    }

    /// Drop the shown notification `id`, if there is one, without keeping it
    /// anywhere (it is being replaced); its slot is the result.
    pub fn remove_displayed(&mut self, id: u32) -> (r: Option<usize>)
        requires
            old(self).wf(),
        ensures
            final(self).wf(),
            r is None <==> find_id(old(self).displayed_view(), id) < 0,
            r matches Some(p) ==> p == find_id(old(self).displayed_view(), id) && final(self).displayed_view() == old(self).displayed_view().remove(p as int),
            r is None ==> final(self).displayed_view() == old(self).displayed_view(),
            final(self).next_id_view() == old(self).next_id_view(),
            final(self).is_paused() == old(self).is_paused(),
            final(self).waiting_view() == old(self).waiting_view(),
            final(self).history_view() == old(self).history_view(),
            final(self).sync_view() == old(self).sync_view(),
    {
        proof {
            lemma_find_id(self.displayed@, id);
        }
        match self.position_of(id) {
            Some(p) => {
                self.displayed.remove(p);
                Some(p)
            },
            None => None,
        }
    }

    fn position_of(&self, id: u32) -> (r: Option<usize>)
        ensures
            r is None <==> find_id(self.displayed@, id) < 0,
            r matches Some(p) ==> p == find_id(self.displayed@, id),
    {
        proof {
            lemma_find_id(self.displayed@, id);
        }
        let mut i: usize = 0;
        while i < self.displayed.len()
            invariant
                i <= self.displayed@.len(),
                forall|j: int| 0 <= j < i ==> self.displayed@[j].id != id,
                -1 <= find_id(self.displayed@, id) < self.displayed@.len(),
                find_id(self.displayed@, id) >= 0 ==> self.displayed@[find_id(
                    self.displayed@,
                    id,
                )].id == id,
                find_id(self.displayed@, id) >= 0 ==> forall|j: int|
                    0 <= j < find_id(self.displayed@, id) ==> self.displayed@[j].id != id,
                find_id(self.displayed@, id) < 0 ==> forall|j: int|
                    0 <= j < self.displayed@.len() ==> self.displayed@[j].id != id,
            decreases self.displayed@.len() - i,
        {
            if self.displayed[i].id == id {
                return Some(i);
            }
            i = i + 1;
        }
        None
    }

    /// Close notification `id`. When it is shown it leaves its slot (the
    /// result), goes to history unless it is transient or to be ignored
    /// there, and its grouping key is dropped if it still points at it; the
    /// caller then reports the close and refills. Otherwise it leaves the
    /// waiting queue.
    pub fn close(&mut self, id: u32) -> (r: Option<usize>)
        requires
            old(self).wf(),
        ensures
            final(self).wf(),
            r is None <==> find_id(old(self).displayed_view(), id) < 0,
            r matches Some(p) ==> ({
                let n = old(self).displayed_view()[p as int];
                &&& p == find_id(old(self).displayed_view(), id)
                &&& final(self).displayed_view() == old(self).displayed_view().remove(p as int)
                &&& final(self).waiting_view() == old(self).waiting_view()
                &&& final(self).history_view() == (if !n.transient && !n.history_ignore {
                    bounded_push(old(self).history_view(), stripped(n), HISTORY_MAX as nat)
                } else {
                    old(self).history_view()
                })
                &&& forall|k: Seq<char>|
                    (opt_str(n.sync_key) != Some(k) || sync_lookup(old(self).sync_view(), k) != Some(id))
                        ==> sync_lookup(final(self).sync_view(), k) == sync_lookup(
                        old(self).sync_view(),
                        k,
                    )
                &&& forall|k: Seq<char>|
                    (opt_str(n.sync_key) == Some(k) && sync_lookup(old(self).sync_view(), k) == Some(id))
                        ==> sync_lookup(final(self).sync_view(), k) is None
            }),
            r is None ==> final(self).displayed_view() == old(self).displayed_view()
                && final(self).waiting_view() == without_id(old(self).waiting_view(), id)
                && final(self).history_view() == old(self).history_view() && final(self).sync_view()
                == old(self).sync_view(),
            final(self).next_id_view() == old(self).next_id_view(),
            final(self).is_paused() == old(self).is_paused(),
    {
        proof {
            lemma_find_id(self.displayed@, id);
        }
        match self.position_of(id) {
            Some(p) => {
                let n = self.displayed.remove(p);
                let ghost nv = n;
                let sync_key = n.sync_key.clone();
                if !n.transient && !n.history_ignore {
                    self.remember(n);
                }
                if let Some(key) = sync_key {
                    if self.sync_get(key.as_str()) == Some(id) {
                        self.sync_remove(key.as_str());
                    }
                }
                Some(p)
            },
            None => {
                self.retain_waiting(id);
                None
            },
        }
    }

    fn retain_waiting(&mut self, id: u32)
        requires
            old(self).wf(),
        ensures
            final(self).wf(),
            final(self).waiting_view() == without_id(old(self).waiting_view(), id),
            final(self).next_id_view() == old(self).next_id_view(),
            final(self).is_paused() == old(self).is_paused(),
            final(self).displayed_view() == old(self).displayed_view(),
            final(self).history_view() == old(self).history_view(),
            final(self).sync_view() == old(self).sync_view(),
    {
        let ghost w0 = self.waiting@;
        let mut kept: Vec<RawNotification> = Vec::new();
        let mut rest: Vec<RawNotification> = Vec::new();
        std::mem::swap(&mut rest, &mut self.waiting);
        let total = rest.len();
        let mut taken: usize = 0;
        proof {
            reveal(Seq::filter);
            assert(w0.take(0) =~= seq![]);
            assert(w0.skip(0) =~= w0);
        }
        while rest.len() > 0
            invariant
                taken + rest@.len() == w0.len(),
                total == w0.len(),
                rest@ == w0.skip(taken as int),
                kept@ == without_id(w0.take(taken as int), id),
                w0 == old(self).waiting@,
            decreases rest@.len(),
        {
            let n = rest.remove(0);
            proof {
                reveal(Seq::filter);
                assert(w0.take(taken + 1).drop_last() =~= w0.take(taken as int));
                assert(w0.take(taken + 1).last() == n);
                assert(rest@ =~= w0.skip(taken + 1));
            }
            if n.id != id {
                kept.push(n);
            }
            taken = taken + 1;
        }
        proof {
            assert(w0.take(taken as int) =~= w0);
            w0.lemma_filter_len(|x: RawNotification| x.id != id);
        }
        self.waiting = kept;
    }

    /// The ids of the shown notifications whose time is up, given how long
    /// each has been shown (`elapsed_ms[i]` for slot `i`): a notification's
    /// own timeout, or the configured one when it has none, if positive.
    /// Nothing expires while paused.
    pub fn expired(&self, default_timeout_ms: i32, elapsed_ms: &[u128]) -> (r: Vec<u32>)
        requires
            elapsed_ms@.len() == self.displayed_view().len(),
        ensures
            r@ == (if self.is_paused() {
                seq![]
            } else {
                expired_ids(self.displayed_view(), default_timeout_ms, elapsed_ms@)
            }),
    {
        let mut out: Vec<u32> = Vec::new();
        if self.paused {
            return out;
        }
        let ghost d = self.displayed@;
        let mut i: usize = 0;
        while i < self.displayed.len()
            invariant
                i <= self.displayed@.len(),
                d == self.displayed@,
                elapsed_ms@.len() == d.len(),
                out@ == expired_ids(d.take(i as int), default_timeout_ms, elapsed_ms@.take(i as int)),
            decreases self.displayed@.len() - i,
        {
            let n = &self.displayed[i];
            let t = if n.expire_timeout < 0 {
                default_timeout_ms
            } else {
                n.expire_timeout
            };
            let e = elapsed_ms[i];
            proof {
                assert(d.take(i + 1).drop_last() =~= d.take(i as int));
                assert(elapsed_ms@.take(i + 1).drop_last() =~= elapsed_ms@.take(i as int));
            }
            if t > 0 && (e as i32) >= t {
                out.push(n.id);
            }
            i = i + 1;
        }
        assert(d.take(i as int) =~= d);
        assert(elapsed_ms@.take(i as int) =~= elapsed_ms@);
        out
    }

    /// The ids of the shown notifications, in slot order.
    pub fn displayed_ids(&self) -> (r: Vec<u32>)
        ensures
            r@ == self.displayed_view().map_values(|n: RawNotification| n.id),
    {
        let mut out: Vec<u32> = Vec::new();
        let mut i: usize = 0;
        while i < self.displayed.len()
            invariant
                i <= self.displayed@.len(),
                out@ == self.displayed@.take(i as int).map_values(|n: RawNotification| n.id),
            decreases self.displayed@.len() - i,
        {
            out.push(self.displayed[i].id);
            assert(self.displayed@.take(i + 1) =~= self.displayed@.take(i as int).push(
                self.displayed@[i as int],
            ));
            assert(out@ =~= self.displayed@.take(i + 1).map_values(|n: RawNotification| n.id));
            i = i + 1;
        }
        assert(self.displayed@.take(i as int) =~= self.displayed@);
        out
    }

    /// The id of the last shown notification, if any.
    pub fn last_displayed_id(&self) -> (r: Option<u32>)
        ensures
            r == if self.displayed_view().len() > 0 {
                Some(self.displayed_view().last().id)
            } else {
                None
            },
    {
        let n = self.displayed.len();
        if n > 0 {
            Some(self.displayed[n - 1].id)
        } else {
            None
        }
    }

    /// Forget the history entries with id `id`.
    pub fn remove_from_history(&mut self, id: u32)
        requires
            old(self).wf(),
        ensures
            final(self).wf(),
            final(self).history_view() == drop_id(old(self).history_view(), id),
            final(self).next_id_view() == old(self).next_id_view(),
            final(self).is_paused() == old(self).is_paused(),
            final(self).displayed_view() == old(self).displayed_view(),
            final(self).waiting_view() == old(self).waiting_view(),
            final(self).sync_view() == old(self).sync_view(),
    {
        let ghost orig = self.history@;
        let mut kept: Vec<RawNotification> = Vec::new();
        proof {
            lemma_drop_id_len(orig, id);
        }
        while self.history.len() > 0
            invariant
                kept@ + drop_id(self.history@, id) == drop_id(orig, id),
                drop_id(orig, id).len() <= orig.len(),
                orig.len() <= HISTORY_MAX,
                kept@.len() + drop_id(self.history@, id).len() <= HISTORY_MAX,
                self.next_id == old(self).next_id,
                self.paused == old(self).paused,
                self.displayed@ == old(self).displayed@,
                self.waiting@ == old(self).waiting@,
                self.sync_map@ == old(self).sync_map@,
                old(self).wf(),
            decreases self.history@.len(),
        {
            let ghost h = self.history@;
            let n = self.history.remove(0);
            proof {
                assert(h.drop_first() =~= self.history@);
                lemma_drop_id_len(self.history@, id);
            }
            if n.id != id {
                let ghost k0 = kept@;
                kept.push(n);
                proof {
                    assert(kept@ + drop_id(self.history@, id) =~= k0 + drop_id(h, id));
                }
            }
        }
        self.history = kept;
        proof {
            assert(drop_id(seq![], id) =~= Seq::<RawNotification>::empty());
            assert(self.history@ =~= drop_id(orig, id));
        }
    }

    /// The actions of notification `id`: of the shown one if it is shown,
    /// else of the first history entry with that id, else none.
    pub fn context_actions(&self, id: u32) -> (r: Vec<(String, String)>)
        ensures
            pairs_of(r@) == ({
                let d = find_id(self.displayed_view(), id);
                let h = find_id(self.history_view(), id);
                if d >= 0 {
                    pairs_of(self.displayed_view()[d].actions@)
                } else if h >= 0 {
                    pairs_of(self.history_view()[h].actions@)
                } else {
                    seq![]
                }
            }),
    {
        proof {
            lemma_find_id(self.displayed@, id);
            lemma_find_id(self.history@, id);
        }
        match self.position_of(id) {
            Some(p) => copy_pairs(&self.displayed[p].actions),
            None => {
                let mut i: usize = 0;
                while i < self.history.len()
                    invariant
                        i <= self.history@.len(),
                        forall|j: int| 0 <= j < i ==> self.history@[j].id != id,
                        find_id(self.displayed@, id) < 0,
                        -1 <= find_id(self.history@, id) < self.history@.len(),
                        find_id(self.history@, id) >= 0 ==> self.history@[find_id(self.history@, id)].id
                            == id,
                        find_id(self.history@, id) >= 0 ==> forall|j: int|
                            0 <= j < find_id(self.history@, id) ==> self.history@[j].id != id,
                        find_id(self.history@, id) < 0 ==> forall|j: int|
                            0 <= j < self.history@.len() ==> self.history@[j].id != id,
                    decreases self.history@.len() - i,
                {
                    if self.history[i].id == id {
                        return copy_pairs(&self.history[i].actions);
                    }
                    i = i + 1;
                }
                Vec::new()
            },
        }
    }

    /// The history as (id, application, summary, body, urgency code)
    /// entries, oldest first.
    pub fn history_entries(&self) -> (r: Vec<(u32, String, String, String, u32)>)
        ensures
            r@.len() == self.history_view().len(),
            forall|i: int|
                0 <= i < r@.len() ==> {
                    let n = self.history_view()[i];
                    &&& (#[trigger] r@[i]).0 == n.id
                    &&& r@[i].1@ == n.app_name@
                    &&& r@[i].2@ == n.summary@
                    &&& r@[i].3@ == n.body@
                    &&& r@[i].4 == super::urgency_code(n.urgency)
                },
    {
        let mut out: Vec<(u32, String, String, String, u32)> = Vec::new();
        let mut i: usize = 0;
        while i < self.history.len()
            invariant
                i <= self.history@.len(),
                out@.len() == i,
                forall|k: int|
                    0 <= k < i ==> {
                        let n = self.history_view()[k];
                        &&& (#[trigger] out@[k]).0 == n.id
                        &&& out@[k].1@ == n.app_name@
                        &&& out@[k].2@ == n.summary@
                        &&& out@[k].3@ == n.body@
                        &&& out@[k].4 == super::urgency_code(n.urgency)
                    },
            decreases self.history@.len() - i,
        {
            let n = &self.history[i];
            out.push(
                (n.id, n.app_name.clone(), n.summary.clone(), n.body.clone(), n.urgency.code()),
            );
            i = i + 1;
        }
        out
    }

    /// The number of notifications in history.
    pub fn history_count(&self) -> (r: usize)
        ensures
            r == self.history_view().len(),
    {
        self.history.len()
    }

    /// Forget all history.
    pub fn clear_history(&mut self)
        requires
            old(self).wf(),
        ensures
            final(self).wf(),
            final(self).history_view().len() == 0,
            final(self).next_id_view() == old(self).next_id_view(),
            final(self).is_paused() == old(self).is_paused(),
            final(self).displayed_view() == old(self).displayed_view(),
            final(self).waiting_view() == old(self).waiting_view(),
            final(self).sync_view() == old(self).sync_view(),
    {
        self.history.clear();
    }

    /// The most recent history entry, which leaves history.
    pub fn pop_history(&mut self) -> (r: Option<RawNotification>)
        requires
            old(self).wf(),
        ensures
            final(self).wf(),
            old(self).history_view().len() == 0 ==> r is None && final(self).history_view()
                == old(self).history_view(),
            old(self).history_view().len() > 0 ==> r == Some(old(self).history_view().last())
                && final(self).history_view() == old(self).history_view().drop_last(),
            final(self).next_id_view() == old(self).next_id_view(),
            final(self).is_paused() == old(self).is_paused(),
            final(self).displayed_view() == old(self).displayed_view(),
            final(self).waiting_view() == old(self).waiting_view(),
            final(self).sync_view() == old(self).sync_view(),
    {
        self.history.pop()
    }
}

/// The ids, in order, of the notifications of `d` whose time is up after
/// `elapsed[i]` milliseconds each (timeouts compared as the 32-bit number of
/// milliseconds).
pub open spec fn expired_ids(d: Seq<RawNotification>, default_timeout_ms: i32, elapsed: Seq<u128>) -> Seq<
    u32,
>
    decreases d.len(),
{
    if d.len() == 0 || elapsed.len() != d.len() {
        seq![]
    } else {
        let prev = expired_ids(d.drop_last(), default_timeout_ms, elapsed.drop_last());
        let n = d.last();
        let t = if n.expire_timeout < 0 {
            default_timeout_ms
        } else {
            n.expire_timeout
        };
        if t > 0 && (elapsed.last() as i32) >= t {
            prev.push(n.id)
        } else {
            prev
        }
    }
}


/// `s` without the notifications with id `id`, order kept.
pub open spec fn drop_id(s: Seq<RawNotification>, id: u32) -> Seq<RawNotification>
    decreases s.len(),
{
    if s.len() == 0 {
        s
    } else if s[0].id == id {
        drop_id(s.drop_first(), id)
    } else {
        seq![s[0]] + drop_id(s.drop_first(), id)
    }
}

proof fn lemma_drop_id_len(s: Seq<RawNotification>, id: u32)
    ensures
        drop_id(s, id).len() <= s.len(),
    decreases s.len(),
{
    if s.len() > 0 {
        lemma_drop_id_len(s.drop_first(), id);
    }
}

/// The views of (key, label) pairs.
pub open spec fn pairs_of(v: Seq<(String, String)>) -> Seq<(Seq<char>, Seq<char>)> {
    Seq::new(v.len(), |i: int| (v[i].0@, v[i].1@))
}

/// A copy of a list of (key, label) pairs.
fn copy_pairs(v: &Vec<(String, String)>) -> (r: Vec<(String, String)>)
    ensures
        pairs_of(r@) == pairs_of(v@),
{
    let mut r: Vec<(String, String)> = Vec::new();
    let mut i: usize = 0;
    while i < v.len()
        invariant
            i <= v@.len(),
            r@.len() == i,
            forall|k: int| 0 <= k < i ==> (#[trigger] r@[k]).0@ == v@[k].0@ && r@[k].1@ == v@[k].1@,
        decreases v@.len() - i,
    {
        r.push((v[i].0.clone(), v[i].1.clone()));
        i = i + 1;
    }
    assert(pairs_of(r@) =~= pairs_of(v@));
    r
}

} // verus!
