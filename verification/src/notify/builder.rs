//! Building notifications in Rust, without the bus.

use vstd::prelude::*;
use super::{now, opt_str, RawNotification, Urgency};

verus! {

/// Builder for notifications raised entirely in Rust.
pub struct NotificationBuilder {
    notif: RawNotification,
}

/// `b` is `a` with only the fields named by `keep_*` allowed to differ.
pub open spec fn same_except(
    a: RawNotification,
    b: RawNotification,
    body: bool,
    icon: bool,
    icon_data: bool,
    urgency: bool,
    timeout: bool,
    transient: bool,
    stack_tag: bool,
    category: bool,
    desktop_entry: bool,
    progress: bool,
    sync_key: bool,
    history_ignore: bool,
    actions: bool,
) -> bool {
    &&& b.id == a.id
    &&& b.app_name@ == a.app_name@
    &&& b.summary@ == a.summary@
    &&& b.created == a.created
    &&& (!body ==> b.body@ == a.body@)
    &&& (!icon ==> b.app_icon@ == a.app_icon@)
    &&& (!icon_data ==> b.icon_data == a.icon_data)
    &&& (!urgency ==> b.urgency == a.urgency)
    &&& (!timeout ==> b.expire_timeout == a.expire_timeout)
    &&& (!transient ==> b.transient == a.transient)
    &&& (!stack_tag ==> opt_str(b.stack_tag) == opt_str(a.stack_tag))
    &&& (!category ==> opt_str(b.category) == opt_str(a.category))
    &&& (!desktop_entry ==> opt_str(b.desktop_entry) == opt_str(a.desktop_entry))
    &&& (!progress ==> b.progress == a.progress)
    &&& (!sync_key ==> opt_str(b.sync_key) == opt_str(a.sync_key))
    &&& (!history_ignore ==> b.history_ignore == a.history_ignore)
    &&& (!actions ==> b.actions@.map_values(|p: (String, String)| (p.0@, p.1@))
        == a.actions@.map_values(|p: (String, String)| (p.0@, p.1@)))
}

impl NotificationBuilder {
    /// The notification being built.
    pub closed spec fn view(&self) -> RawNotification {
        self.notif
    }

    /// Start a notification from `app_name` with the given `summary`: no id
    /// yet, normal urgency, the configured timeout, nothing else.
    pub fn new(app_name: &str, summary: &str) -> (r: Self)
        ensures
            r.view().id == 0,
            r.view().app_name@ == app_name@,
            r.view().summary@ == summary@,
            r.view().app_icon@ == Seq::<char>::empty(),
            r.view().body@ == Seq::<char>::empty(),
            r.view().actions@.len() == 0,
            r.view().urgency == Urgency::Normal,
            !r.view().transient,
            r.view().expire_timeout == -1,
            r.view().icon_data is None,
            r.view().sync_key is None,
            r.view().stack_tag is None,
            r.view().category is None,
            r.view().desktop_entry is None,
            r.view().progress is None,
            !r.view().history_ignore,
    {
        NotificationBuilder {
            notif: RawNotification {
                id: 0,
                app_name: String::from_str(app_name),
                app_icon: String::new(),
                summary: String::from_str(summary),
                body: String::new(),
                actions: Vec::new(),
                urgency: Urgency::Normal,
                transient: false,
                expire_timeout: -1,
                created: now(),
                icon_data: None,
                sync_key: None,
                stack_tag: None,
                category: None,
                desktop_entry: None,
                progress: None,
                history_ignore: false,
            },
        }
    }

    pub fn body(self, body: &str) -> (r: Self)
        ensures
            r.view().body@ == body@,
            same_except(
                self.view(),
                r.view(),
                true,
                false,
                false,
                false,
                false,
                false,
                false,
                false,
                false,
                false,
                false,
                false,
                false,
            ),
    {
        let mut nb = self;
        nb.notif.body = String::from_str(body);
        nb
    }

    /// Icon by file path or theme icon name.
    pub fn icon(self, icon: &str) -> (r: Self)
        ensures
            r.view().app_icon@ == icon@,
            same_except(
                self.view(),
                r.view(),
                false,
                true,
                false,
                false,
                false,
                false,
                false,
                false,
                false,
                false,
                false,
                false,
                false,
            ),
    {
        let mut nb = self;
        nb.notif.app_icon = String::from_str(icon);
        nb
    }

    /// Raw RGBA8 icon bytes (taking precedence over `icon`).
    pub fn icon_data(self, rgba: Vec<u8>) -> (r: Self)
        ensures
            r.view().icon_data == Some(rgba),
            same_except(
                self.view(),
                r.view(),
                false,
                false,
                true,
                false,
                false,
                false,
                false,
                false,
                false,
                false,
                false,
                false,
                false,
            ),
    {
        let mut nb = self;
        nb.notif.icon_data = Some(rgba);
        nb
    }

    pub fn urgency(self, u: Urgency) -> (r: Self)
        ensures
            r.view().urgency == u,
            same_except(
                self.view(),
                r.view(),
                false,
                false,
                false,
                true,
                false,
                false,
                false,
                false,
                false,
                false,
                false,
                false,
                false,
            ),
    {
        let mut nb = self;
        nb.notif.urgency = u;
        nb
    }

    /// Milliseconds; -1 => configured default, 0 => sticky.
    pub fn timeout(self, ms: i32) -> (r: Self)
        ensures
            r.view().expire_timeout == ms,
            same_except(
                self.view(),
                r.view(),
                false,
                false,
                false,
                false,
                true,
                false,
                false,
                false,
                false,
                false,
                false,
                false,
                false,
            ),
    {
        let mut nb = self;
        nb.notif.expire_timeout = ms;
        nb
    }

    pub fn transient(self, b: bool) -> (r: Self)
        ensures
            r.view().transient == b,
            same_except(
                self.view(),
                r.view(),
                false,
                false,
                false,
                false,
                false,
                true,
                false,
                false,
                false,
                false,
                false,
                false,
                false,
            ),
    {
        let mut nb = self;
        nb.notif.transient = b;
        nb
    }

    pub fn stack_tag(self, tag: &str) -> (r: Self)
        ensures
            opt_str(r.view().stack_tag) == Some(tag@),
            same_except(
                self.view(),
                r.view(),
                false,
                false,
                false,
                false,
                false,
                false,
                true,
                false,
                false,
                false,
                false,
                false,
                false,
            ),
    {
        let mut nb = self;
        nb.notif.stack_tag = Some(String::from_str(tag));
        nb
    }

    pub fn category(self, c: &str) -> (r: Self)
        ensures
            opt_str(r.view().category) == Some(c@),
            same_except(
                self.view(),
                r.view(),
                false,
                false,
                false,
                false,
                false,
                false,
                false,
                true,
                false,
                false,
                false,
                false,
                false,
            ),
    {
        let mut nb = self;
        nb.notif.category = Some(String::from_str(c));
        nb
    }

    pub fn desktop_entry(self, d: &str) -> (r: Self)
        ensures
            opt_str(r.view().desktop_entry) == Some(d@),
            same_except(
                self.view(),
                r.view(),
                false,
                false,
                false,
                false,
                false,
                false,
                false,
                false,
                true,
                false,
                false,
                false,
                false,
            ),
    {
        let mut nb = self;
        nb.notif.desktop_entry = Some(String::from_str(d));
        nb
    }

    /// A 0..=100 progress bar; larger values are taken as 100.
    pub fn progress(self, value: u8) -> (r: Self)
        ensures
            r.view().progress == Some(
                if value > 100 {
                    100u8
                } else {
                    value
                },
            ),
            same_except(
                self.view(),
                r.view(),
                false,
                false,
                false,
                false,
                false,
                false,
                false,
                false,
                false,
                true,
                false,
                false,
                false,
            ),
    {
        let mut nb = self;
        nb.notif.progress = Some(
            if value > 100 {
                100
            } else {
                value
            },
        );
        nb
    }

    /// Key under which a later notification replaces this one instead of
    /// stacking.
    pub fn sync_key(self, key: &str) -> (r: Self)
        ensures
            opt_str(r.view().sync_key) == Some(key@),
            same_except(
                self.view(),
                r.view(),
                false,
                false,
                false,
                false,
                false,
                false,
                false,
                false,
                false,
                false,
                true,
                false,
                false,
            ),
    {
        let mut nb = self;
        nb.notif.sync_key = Some(String::from_str(key));
        nb
    }

    /// Drop from history when closed.
    pub fn history_ignore(self, b: bool) -> (r: Self)
        ensures
            r.view().history_ignore == b,
            same_except(
                self.view(),
                r.view(),
                false,
                false,
                false,
                false,
                false,
                false,
                false,
                false,
                false,
                false,
                false,
                true,
                false,
            ),
    {
        let mut nb = self;
        nb.notif.history_ignore = b;
        nb
    }

    /// Add an action button (key and label) after the ones already there.
    pub fn action(self, key: &str, label: &str) -> (r: Self)
        ensures
            r.view().actions@.map_values(|p: (String, String)| (p.0@, p.1@)) == self.view().actions@.map_values(
                |p: (String, String)| (p.0@, p.1@),
            ).push((key@, label@)),
            same_except(
                self.view(),
                r.view(),
                false,
                false,
                false,
                false,
                false,
                false,
                false,
                false,
                false,
                false,
                false,
                false,
                true,
            ),
    {
        let mut nb = self;
        let ghost before = nb.notif.actions@;
        nb.notif.actions.push((String::from_str(key), String::from_str(label)));
        assert(nb.notif.actions@.map_values(|p: (String, String)| (p.0@, p.1@)) =~= before.map_values(
            |p: (String, String)| (p.0@, p.1@),
        ).push((key@, label@)));
        nb
    }

    /// The notification built.
    pub fn build(self) -> (r: RawNotification)
        ensures
            r == self.view(),
    {
        self.notif
    }
}

/// Start building a notification (see `NotificationBuilder::new`).
pub fn notify(app_name: &str, summary: &str) -> (r: NotificationBuilder)
    ensures
        r.view().id == 0,
        r.view().app_name@ == app_name@,
        r.view().summary@ == summary@,
        r.view().app_icon@ == Seq::<char>::empty(),
        r.view().body@ == Seq::<char>::empty(),
        r.view().actions@.len() == 0,
        r.view().urgency == Urgency::Normal,
        !r.view().transient,
        r.view().expire_timeout == -1,
        r.view().icon_data is None,
        r.view().sync_key is None,
        r.view().stack_tag is None,
        r.view().category is None,
        r.view().desktop_entry is None,
        r.view().progress is None,
        !r.view().history_ignore,
{
    NotificationBuilder::new(app_name, summary)
}

} // verus!
