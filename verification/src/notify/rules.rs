//! Applying matching rules to a notification.

use vstd::prelude::*;
use super::{opt_str, RawNotification, Rule, RuleView, Urgency};
use super::pattern::{regex_matches, Pattern};

verus! {

/// The fields of a notification that rules change, and whether it is to be
/// kept off the screen.
pub struct Effect {
    pub expire_timeout: i32,
    pub urgency: Urgency,
    pub app_icon: Seq<char>,
    pub transient: bool,
    pub history_ignore: bool,
    pub skip: bool,
}

pub open spec fn effect_of(n: RawNotification, skip: bool) -> Effect {
    Effect {
        expire_timeout: n.expire_timeout,
        urgency: n.urgency,
        app_icon: n.app_icon@,
        transient: n.transient,
        history_ignore: n.history_ignore,
        skip,
    }
}

/// A filter on a text: none, or a pattern that matches somewhere in it.
pub open spec fn filter_ok(p: Option<Seq<char>>, text: Seq<char>) -> bool {
    match p {
        Some(s) => regex_matches(s, text),
        None => true,
    }
}

/// A filter on an optional text: none, or a pattern that matches somewhere
/// in a text that is there.
pub open spec fn opt_filter_ok(p: Option<Seq<char>>, text: Option<Seq<char>>) -> bool {
    match p {
        Some(s) => match text {
            Some(t) => regex_matches(s, t),
            None => false,
        },
        None => true,
    }
}

/// Rule `r` matches notification `n` whose urgency is (by now) `urgency`.
pub open spec fn rule_matches(r: RuleView, n: RawNotification, urgency: Urgency) -> bool {
    &&& filter_ok(r.appname, n.app_name@)
    &&& filter_ok(r.summary, n.summary@)
    &&& filter_ok(r.body, n.body@)
    &&& match r.urgency {
        Some(u) => urgency == u,
        None => true,
    }
    &&& opt_filter_ok(r.category, opt_str(n.category))
    &&& opt_filter_ok(r.stack_tag, opt_str(n.stack_tag))
    &&& opt_filter_ok(r.desktop_entry, opt_str(n.desktop_entry))
}

/// What a matching rule does.
pub open spec fn apply_effect(e: Effect, r: RuleView) -> Effect {
    Effect {
        expire_timeout: match r.expire_timeout {
            Some(t) => t,
            None => e.expire_timeout,
        },
        urgency: match r.set_urgency {
            Some(u) => u,
            None => e.urgency,
        },
        app_icon: match r.new_icon {
            Some(i) => i,
            None => e.app_icon,
        },
        transient: match r.set_transient {
            Some(t) => t,
            None => e.transient,
        },
        history_ignore: e.history_ignore || r.history_ignore,
        skip: e.skip || r.skip_display,
    }
}

/// The effect of `rules`, in order, on `n` starting from `e`: each rule is
/// tested against the urgency that the rules before it left.
pub open spec fn rules_effect(e: Effect, n: RawNotification, rules: Seq<RuleView>) -> Effect
    decreases rules.len(),
{
    if rules.len() == 0 {
        e
    } else {
        let prev = rules_effect(e, n, rules.drop_last());
        if rule_matches(rules.last(), n, prev.urgency) {
            apply_effect(prev, rules.last())
        } else {
            prev
        }
    }
}

/// `b` is `a` with only the fields that rules change changed.
pub open spec fn same_but_effect(a: RawNotification, b: RawNotification) -> bool {
    &&& b.id == a.id
    &&& b.app_name@ == a.app_name@
    &&& b.summary@ == a.summary@
    &&& b.body@ == a.body@
    &&& b.actions@ == a.actions@
    &&& b.created == a.created
    &&& b.icon_data == a.icon_data
    &&& opt_str(b.sync_key) == opt_str(a.sync_key)
    &&& opt_str(b.stack_tag) == opt_str(a.stack_tag)
    &&& opt_str(b.category) == opt_str(a.category)
    &&& opt_str(b.desktop_entry) == opt_str(a.desktop_entry)
    &&& b.progress == a.progress
}

fn filter_ok_exec(p: &Option<Pattern>, text: &str) -> (r: bool)
    ensures
        r == filter_ok(super::opt_pat(*p), text@),
{
    match p {
        Some(re) => re.is_match(text),
        None => true,
    }
}

fn opt_filter_ok_exec(p: &Option<Pattern>, text: &Option<String>) -> (r: bool)
    ensures
        r == opt_filter_ok(super::opt_pat(*p), opt_str(*text)),
{
    match p {
        Some(re) => match text {
            Some(t) => re.is_match(t.as_str()),
            None => false,
        },
        None => true,
    }
}

/// Whether rule `r` matches `notif` as it stands.
pub fn rule_matches_now(r: &Rule, notif: &RawNotification) -> (m: bool)
    ensures
        m == rule_matches(r.view(), *notif, notif.urgency),
{
    let app_ok = filter_ok_exec(&r.appname_re, notif.app_name.as_str());
    let sum_ok = filter_ok_exec(&r.summary_re, notif.summary.as_str());
    let body_ok = filter_ok_exec(&r.body_re, notif.body.as_str());
    let urg_ok = match r.urgency {
        Some(u) => notif.urgency == u,
        None => true,
    };
    let cat_ok = opt_filter_ok_exec(&r.category_re, &notif.category);
    let tag_ok = opt_filter_ok_exec(&r.stack_tag_re, &notif.stack_tag);
    let de_ok = opt_filter_ok_exec(&r.desktop_entry_re, &notif.desktop_entry);
    app_ok && sum_ok && body_ok && urg_ok && cat_ok && tag_ok && de_ok
}

/// Apply rule `r` to `notif` when it `matched`; the result is whether the
/// rule keeps the notification off the screen.
pub fn apply_rule(notif: &mut RawNotification, r: &Rule, matched: bool) -> (skip: bool)
    ensures
        same_but_effect(*old(notif), *final(notif)),
        matched ==> effect_of(*final(notif), skip) == apply_effect(
            effect_of(*old(notif), false),
            r.view(),
        ),
        !matched ==> effect_of(*final(notif), skip) == effect_of(*old(notif), false),
{
    if !matched {
        return false;
    }
    if let Some(t) = r.expire_timeout {
        notif.expire_timeout = t;
    }
    if let Some(u) = r.set_urgency {
        notif.urgency = u;
    }
    if let Some(icon) = &r.new_icon {
        notif.app_icon = icon.clone();
    }
    if let Some(t) = r.set_transient {
        notif.transient = t;
    }
    if r.history_ignore {
        notif.history_ignore = true;
    }
    r.skip_display
}

/// Apply the matching rules to `notif` in order, returning whether the
/// notification is to be kept off the screen.
pub fn apply_rules(notif: &mut RawNotification, rules: &[Rule]) -> (skip: bool)
    ensures
        same_but_effect(*old(notif), *final(notif)),
        effect_of(*final(notif), skip) == rules_effect(
            effect_of(*old(notif), false),
            *old(notif),
            rules@.map_values(|r: Rule| r.view()),
        ),
{
    let ghost n0 = *notif;
    let ghost rv = rules@.map_values(|r: Rule| r.view());
    let mut skip = false;
    let mut i: usize = 0;
    assert(rv.take(0) =~= seq![]);
    while i < rules.len()
        invariant
            i <= rules@.len(),
            rv == rules@.map_values(|r: Rule| r.view()),
            n0 == *old(notif),
            same_but_effect(n0, *notif),
            effect_of(*notif, skip) == rules_effect(effect_of(n0, false), n0, rv.take(i as int)),
        decreases rules@.len() - i,
    {
        let ghost before = *notif;
        let m = rule_matches_now(&rules[i], notif);
        proof {
            assert(rv.take(i + 1).drop_last() =~= rv.take(i as int));
            assert(rv.take(i + 1).last() == rules@[i as int].view());
            assert(rule_matches(rules@[i as int].view(), *notif, notif.urgency) == rule_matches(
                rules@[i as int].view(),
                n0,
                notif.urgency,
            ));
        }
        let s = apply_rule(notif, &rules[i], m);
        skip = skip || s;
        i = i + 1;
    }
    assert(rv.take(rules@.len() as int) =~= rv);
    skip
}

/// Rules that match nothing leave a notification as it is.
pub proof fn lemma_no_match_no_change(e: Effect, n: RawNotification, rules: Seq<RuleView>)
    requires
        forall|i: int| 0 <= i < rules.len() ==> !#[trigger] rule_matches(rules[i], n, e.urgency),
    ensures
        rules_effect(e, n, rules) == e,
    decreases rules.len(),
{
    if rules.len() > 0 {
        let p = rules.drop_last();
        assert forall|i: int| 0 <= i < p.len() implies !#[trigger] rule_matches(p[i], n, e.urgency) by {
            assert(p[i] == rules[i]);
        }
        lemma_no_match_no_change(e, n, p);
        assert(!rule_matches(rules[rules.len() - 1], n, e.urgency));
    }
}

/// A notification is kept off the screen exactly when some rule that matches
/// it, at its turn, asks for that.
pub proof fn lemma_skip_iff(e: Effect, n: RawNotification, rules: Seq<RuleView>)
    ensures
        rules_effect(e, n, rules).skip == (e.skip || exists|i: int|
            0 <= i < rules.len() && (#[trigger] rules[i]).skip_display && rule_matches(
                rules[i],
                n,
                rules_effect(e, n, rules.take(i)).urgency,
            )),
    decreases rules.len(),
{
    if rules.len() > 0 {
        let p = rules.drop_last();
        let k = rules.len() - 1;
        lemma_skip_iff(e, n, p);
        assert(rules.take(k) =~= p);
        assert forall|i: int| 0 <= i < p.len() implies #[trigger] p.take(i) == rules.take(i) && p[i]
            == rules[i] by {
            assert(p.take(i) =~= rules.take(i));
        }
        if exists|i: int|
            0 <= i < p.len() && (#[trigger] p[i]).skip_display && rule_matches(
                p[i],
                n,
                rules_effect(e, n, p.take(i)).urgency,
            ) {
            let i = choose|i: int|
                0 <= i < p.len() && (#[trigger] p[i]).skip_display && rule_matches(
                    p[i],
                    n,
                    rules_effect(e, n, p.take(i)).urgency,
                );
            assert(rules[i].skip_display);
        }
        if exists|i: int|
            0 <= i < rules.len() && (#[trigger] rules[i]).skip_display && rule_matches(
                rules[i],
                n,
                rules_effect(e, n, rules.take(i)).urgency,
            ) {
            let i = choose|i: int|
                0 <= i < rules.len() && (#[trigger] rules[i]).skip_display && rule_matches(
                    rules[i],
                    n,
                    rules_effect(e, n, rules.take(i)).urgency,
                );
            if i < k {
                assert(p[i].skip_display);
            }
        }
    }
}

/// A later matching rule overrides what earlier rules set: when the last rule
/// matches, every field it sets has its value.
pub proof fn lemma_last_rule_wins(e: Effect, n: RawNotification, rules: Seq<RuleView>, r: RuleView)
    requires
        rule_matches(r, n, rules_effect(e, n, rules).urgency),
    ensures
        r.expire_timeout matches Some(t) ==> rules_effect(e, n, rules.push(r)).expire_timeout == t,
        r.set_urgency matches Some(u) ==> rules_effect(e, n, rules.push(r)).urgency == u,
        r.new_icon matches Some(i) ==> rules_effect(e, n, rules.push(r)).app_icon == i,
        r.set_transient matches Some(t) ==> rules_effect(e, n, rules.push(r)).transient == t,
        r.skip_display ==> rules_effect(e, n, rules.push(r)).skip,
{
    assert(rules.push(r).drop_last() =~= rules);
}

} // verus!
