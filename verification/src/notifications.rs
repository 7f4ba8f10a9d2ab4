//! In-app notifications: one row per recipient of an event, listed newest
//! first in pages of a bounded size, and marked read one by one or all at
//! once.
use vstd::prelude::*;
use vstd::relations::sorted_by;
use crate::error::ApiError;
use crate::auth::AuthenticatedUser;
use crate::text::str_eq;
use crate::rows::{Duplicate, select_sorted, count_where, rewrite};
use crate::pagination::{page, page_start, page_end};
use crate::runtime::{new_uuid, now_local};

verus! {

broadcast use vstd::seq_lib::group_seq_properties, vstd::seq::group_seq_axioms;

/// One row of the notifications table.
#[derive(Debug)]
pub struct Notification {
    pub id: String,
    pub recipient_id: String,
    pub event_type: String,
    /// The event's JSON payload, as text.
    pub payload: String,
    pub is_read: bool,
    pub email_sent: bool,
    /// Local wall-clock time, in seconds.
    pub created_at: i64,
}

impl Duplicate for Notification {
    fn duplicate(&self) -> (r: Self) {
        Notification {
            id: self.id.clone(),
            recipient_id: self.recipient_id.clone(),
            event_type: self.event_type.clone(),
            payload: self.payload.clone(),
            is_read: self.is_read,
            email_sent: self.email_sent,
            created_at: self.created_at,
        }
    }
}

/// Where notification e-mails would go.
pub struct SmtpConfig {
    pub host: String,
    pub port: u16,
    pub user: String,
    pub pass: String,
    pub from: String,
}

/// Selects the notifications of `user`.
pub open spec fn notification_for(user: Seq<char>) -> spec_fn(Notification) -> bool {
    |n: Notification| n.recipient_id@ == user
}

/// Selects the unread notifications of `user`.
pub open spec fn unread_for(user: Seq<char>) -> spec_fn(Notification) -> bool {
    |n: Notification| n.recipient_id@ == user && !n.is_read
}

/// Selects the notification `id` of `user`.
pub open spec fn notification_key(id: Seq<char>, user: Seq<char>) -> spec_fn(Notification) -> bool {
    |n: Notification| n.id@ == id && n.recipient_id@ == user
}

/// Orders notifications newest first.
pub open spec fn newest_first() -> spec_fn(Notification, Notification) -> bool {
    |a: Notification, b: Notification| a.created_at >= b.created_at
}

/// Marks the notification `id` of `user` read.
pub open spec fn mark_read_fn(id: Seq<char>, user: Seq<char>) -> spec_fn(Notification) -> Notification {
    |n: Notification| if notification_key(id, user)(n) { Notification { is_read: true, ..n } } else { n }
}

/// Marks the notification `id` as e-mailed.
pub open spec fn mark_emailed_fn(id: Seq<char>) -> spec_fn(Notification) -> Notification {
    |n: Notification| if n.id@ == id { Notification { email_sent: true, ..n } } else { n }
}

/// Marks every unread notification of `user` read.
pub open spec fn mark_all_fn(user: Seq<char>) -> spec_fn(Notification) -> Notification {
    |n: Notification| if unread_for(user)(n) { Notification { is_read: true, ..n } } else { n }
}

/// The page number a listing uses: 1 unless given, and at least 1.
pub open spec fn page_number(page: Option<i64>) -> int {
    let p = match page { Some(p) => p as int, None => 1 };
    if p < 1 { 1 } else { p }
}

/// The page size a listing uses: 20 unless given, and between 1 and 100.
pub open spec fn page_size_of(page_size: Option<i64>) -> int {
    let s = match page_size { Some(s) => s as int, None => 20 };
    if s > 100 { 100 } else if s < 1 { 1 } else { s }
}

/// Whether `n` is a notification of `k`.
pub fn is_notification_for(k: &&str, n: &Notification) -> (b: bool)
    ensures
        b == notification_for(k@)(*n),
{
    str_eq(n.recipient_id.as_str(), *k)
}

/// Whether `n` is an unread notification of `k`.
pub fn is_unread_for(k: &&str, n: &Notification) -> (b: bool)
    ensures
        b == unread_for(k@)(*n),
{
    str_eq(n.recipient_id.as_str(), *k) && !n.is_read
}

/// Whether `n` is the notification `k`.
pub fn is_notification_key(k: &(&str, &str), n: &Notification) -> (b: bool)
    ensures
        b == notification_key(k.0@, k.1@)(*n),
{
    str_eq(n.id.as_str(), k.0) && str_eq(n.recipient_id.as_str(), k.1)
}

/// Whether `a` is no older than `b`.
pub fn newer_before(_k: &(), a: &Notification, b: &Notification) -> (r: bool)
    ensures
        r == newest_first()(*a, *b),
{
    a.created_at >= b.created_at
}

/// The notification `n`, read if it is `k`.
pub fn apply_mark_read(k: &(&str, &str), n: &Notification) -> (r: Notification)
    ensures
        r == mark_read_fn(k.0@, k.1@)(*n),
{
    let mut r = n.duplicate();
    if is_notification_key(k, n) {
        r.is_read = true;
    }
    r
}

/// The notification `n`, read if it is an unread one of `k`.
pub fn apply_mark_all(k: &&str, n: &Notification) -> (r: Notification)
    ensures
        r == mark_all_fn(k@)(*n),
{
    let mut r = n.duplicate();
    if is_unread_for(k, n) {
        r.is_read = true;
    }
    r
}

/// The notification `n`, marked e-mailed if its id is `k`.
pub fn apply_mark_emailed(k: &&str, n: &Notification) -> (r: Notification)
    ensures
        r == mark_emailed_fn(k@)(*n),
{
    let mut r = n.duplicate();
    if str_eq(n.id.as_str(), *k) {
        r.email_sent = true;
    }
    r
}

/// A page of a user's notifications, with the user's totals.
#[derive(Debug)]
pub struct NotificationList {
    pub notifications: Vec<Notification>,
    pub unread_count: usize,
    pub total: usize,
}

/// The notifications table.
pub struct NotificationsRepository {
    pub notifications: Vec<Notification>,
}

impl NotificationsRepository {
    /// A repository over `notifications`.
    pub fn new(notifications: Vec<Notification>) -> (r: Self)
        ensures
            r.notifications@ == notifications@,
    {
        NotificationsRepository { notifications }
    }

    /// Adds a notification.
    pub fn insert_notification(&mut self, n: Notification)
        ensures
            final(self).notifications@ == old(self).notifications@.push(n),
    {
        self.notifications.push(n);
    }

    /// A page of the notifications of `recipient_id`, newest first, with how
    /// many it has and how many of them are unread.
    pub fn list_notifications(&self, recipient_id: &str, page_no: i64, page_size: i64) -> (r: NotificationList)
        requires
            page_no >= 1,
            page_size >= 1,
            (page_no - 1) * page_size <= i64::MAX,
        ensures
            r.total == self.notifications@.filter(notification_for(recipient_id@)).len(),
            r.unread_count == self.notifications@.filter(unread_for(recipient_id@)).len(),
            exists|all: Seq<Notification>| {
                &&& sorted_by(all, newest_first())
                &&& #[trigger] all.to_multiset() == self.notifications@.filter(notification_for(recipient_id@)).to_multiset()
                &&& r.notifications@ == all.subrange(
                    page_start(all.len() as int, (page_no - 1) * page_size),
                    page_end(all.len() as int, (page_no - 1) * page_size, page_size as int),
                )
            },
    {
        let offset: i64 = (page_no - 1) * page_size;
        let all = select_sorted(&self.notifications, is_notification_for, &recipient_id, Ghost(notification_for(recipient_id@)),
            newer_before, &(), Ghost(newest_first()));
        let items = page(&all, offset, page_size);
        let total = count_where(&self.notifications, is_notification_for, &recipient_id, Ghost(notification_for(recipient_id@)));
        let unread_count = count_where(&self.notifications, is_unread_for, &recipient_id, Ghost(unread_for(recipient_id@)));
        assert(all@.to_multiset() == self.notifications@.filter(notification_for(recipient_id@)).to_multiset());
        NotificationList { notifications: items, unread_count, total }
    }

    /// Marks the notification `id` of `recipient_id` read; returns how many
    /// rows it touched.
    pub fn mark_read(&mut self, id: &str, recipient_id: &str) -> (c: usize)
        ensures
            c == old(self).notifications@.filter(notification_key(id@, recipient_id@)).len(),
            final(self).notifications@ == old(self).notifications@.map_values(mark_read_fn(id@, recipient_id@)),
    {
        let c = count_where(&self.notifications, is_notification_key, &(id, recipient_id), Ghost(notification_key(id@, recipient_id@)));
        self.notifications = rewrite(&self.notifications, apply_mark_read, &(id, recipient_id), Ghost(mark_read_fn(id@, recipient_id@)));
        c
    }

    /// Records that the notification `id` went out by e-mail.
    pub fn mark_email_sent(&mut self, id: &str)
        ensures
            final(self).notifications@ == old(self).notifications@.map_values(mark_emailed_fn(id@)),
    {
        self.notifications = rewrite(&self.notifications, apply_mark_emailed, &id, Ghost(mark_emailed_fn(id@)));
    }

    /// Marks every unread notification of `recipient_id` read; returns how
    /// many there were.
    pub fn mark_all_read(&mut self, recipient_id: &str) -> (c: usize)
        ensures
            c == old(self).notifications@.filter(unread_for(recipient_id@)).len(),
            final(self).notifications@ == old(self).notifications@.map_values(mark_all_fn(recipient_id@)),
    {
        let c = count_where(&self.notifications, is_unread_for, &recipient_id, Ghost(unread_for(recipient_id@)));
        self.notifications = rewrite(&self.notifications, apply_mark_all, &recipient_id, Ghost(mark_all_fn(recipient_id@)));
        c
    }
}

/// The notification rules over a repository.
pub struct NotificationService {
    pub repo: NotificationsRepository,
    pub smtp_config: Option<SmtpConfig>,
}

/// What notifying `recipient_ids` at `now` does to the service `old_s`,
/// giving `new_s`.
pub open spec fn notify_done(old_s: NotificationService, new_s: NotificationService, recipient_ids: &Vec<String>, event_type: &str, payload: &str, now: i64) -> bool {
    &&& (new_s.repo.notifications@.len() == old_s.repo.notifications@.len() + recipient_ids@.len())
    &&& (new_s.repo.notifications@.take(old_s.repo.notifications@.len() as int) == old_s.repo.notifications@)
    &&& (forall|i: int| 0 <= i < recipient_ids@.len() ==> {
        let n = #[trigger] new_s.repo.notifications@[old_s.repo.notifications@.len() + i];
        &&& n.recipient_id == recipient_ids@[i]
        &&& n.event_type@ == event_type@
        &&& n.payload@ == payload@
        &&& !n.is_read
        &&& !n.email_sent
        &&& n.created_at == now
    })
}

impl NotificationService {
    /// A service over `repo`, e-mailing through `smtp_config` if given.
    pub fn new(repo: NotificationsRepository, smtp_config: Option<SmtpConfig>) -> (s: Self)
        ensures
            s.repo == repo,
            s.smtp_config == smtp_config,
    {
        NotificationService { repo, smtp_config }
    }

    /// Records, at time `now`, one unread notification of `event_type` with
    /// `payload` for each recipient, in order.
    pub fn notify_at(&mut self, recipient_ids: &Vec<String>, event_type: &str, payload: &str, now: i64)
        ensures
            notify_done(*old(self), *final(self), recipient_ids, event_type, payload, now),
    {
        let ghost n0 = self.repo.notifications@.len();
        for i in 0..recipient_ids.len()
            invariant
                n0 == old(self).repo.notifications@.len(),
                self.repo.notifications@.len() == n0 + i,
                self.repo.notifications@.take(n0 as int) == old(self).repo.notifications@,
                forall|k: int| 0 <= k < i ==> {
                    let n = #[trigger] self.repo.notifications@[n0 + k];
                    &&& n.recipient_id == recipient_ids@[k]
                    &&& n.event_type@ == event_type@
                    &&& n.payload@ == payload@
                    &&& !n.is_read
                    &&& !n.email_sent
                    &&& n.created_at == now
                },
        {
            let n = Notification {
                id: new_uuid(),
                recipient_id: recipient_ids[i].clone(),
                event_type: event_type.to_owned(),
                payload: payload.to_owned(),
                is_read: false,
                email_sent: false,
                created_at: now,
            };
            let ghost before = self.repo.notifications@;
            self.repo.insert_notification(n);
            assert(self.repo.notifications@.take(n0 as int) =~= before.take(n0 as int));
        }
    }

    /// Records one notification per recipient, stamped with the local
    /// wall-clock time.
    pub fn notify(&mut self, recipient_ids: &Vec<String>, event_type: &str, payload: &str)
        ensures
            exists|now: i64| notify_done(*old(self), *final(self), recipient_ids, event_type, payload, now),
    {
        let now = now_local();
        self.notify_at(recipient_ids, event_type, payload, now)
    }

    /// A page of the caller's notifications: page 1 unless given and at least
    /// 1; 20 to a page unless given, and between 1 and 100.
    pub fn get_notifications(&self, user: &AuthenticatedUser, page_no: Option<i64>, page_size: Option<i64>) -> (r: NotificationList)
        requires
            (page_number(page_no) - 1) * page_size_of(page_size) <= i64::MAX,
        ensures
            r.total == self.repo.notifications@.filter(notification_for(user.user_id@)).len(),
            r.unread_count == self.repo.notifications@.filter(unread_for(user.user_id@)).len(),
            exists|all: Seq<Notification>| {
                &&& sorted_by(all, newest_first())
                &&& #[trigger] all.to_multiset() == self.repo.notifications@.filter(notification_for(user.user_id@)).to_multiset()
                &&& r.notifications@ == all.subrange(
                    page_start(all.len() as int, (page_number(page_no) - 1) * page_size_of(page_size)),
                    page_end(all.len() as int, (page_number(page_no) - 1) * page_size_of(page_size), page_size_of(page_size)),
                )
            },
    {
        let p = match page_no { Some(p) => p, None => 1 };
        let p = if p < 1 { 1 } else { p };
        let s = match page_size { Some(s) => s, None => 20 };
        let s = if s > 100 { 100 } else if s < 1 { 1 } else { s };
        self.repo.list_notifications(user.user_id.as_str(), p, s)
    }

    /// Marks one of the caller's notifications read; it must exist.
    pub fn mark_read(&mut self, user: &AuthenticatedUser, notification_id: &str) -> (r: Result<(), ApiError>)
        ensures
            final(self).repo.notifications@ == old(self).repo.notifications@.map_values(mark_read_fn(notification_id@, user.user_id@)),
            (r is Ok) == (old(self).repo.notifications@.filter(notification_key(notification_id@, user.user_id@)).len() > 0),
            r is Err ==> r == Err::<(), ApiError>(ApiError::NotificationNotFound),
    {
        let updated = self.repo.mark_read(notification_id, user.user_id.as_str());
        if updated == 0 {
            return Err(ApiError::NotificationNotFound);
        }
        Ok(())
    }

    /// Marks every notification of the caller read.
    pub fn mark_all_read(&mut self, user: &AuthenticatedUser)
        ensures
            final(self).repo.notifications@ == old(self).repo.notifications@.map_values(mark_all_fn(user.user_id@)),
    {
        self.repo.mark_all_read(user.user_id.as_str());
    }
}

/// Law: after marking all read, the user has no unread notification, and
/// nobody else's notifications changed.
pub proof fn law_mark_all_read_leaves_none_unread(s: Seq<Notification>, user: Seq<char>)
    ensures
        s.map_values(mark_all_fn(user)).filter(unread_for(user)).len() == 0,
        forall|i: int| 0 <= i < s.len() && s[i].recipient_id@ != user ==> #[trigger] s.map_values(mark_all_fn(user))[i] == s[i],
{
    let t = s.map_values(mark_all_fn(user));
    assert forall|i: int| 0 <= i < t.len() implies !unread_for(user)(#[trigger] t[i]) by {
        assert(t[i] == mark_all_fn(user)(s[i]));
    }
    crate::seqs::lemma_filter_none(t, unread_for(user));
}

/// Law: a listed page never holds more than 100 notifications.
pub proof fn law_page_size_bounded(page_size: Option<i64>)
    ensures
        1 <= page_size_of(page_size) <= 100,
{
}

/// Law: marking reads and e-mails. The user's notification `id` becomes
/// read; marking all makes every unread notification of the user read;
/// marking e-mailed sets only that flag; nothing else changes.
pub proof fn law_mark_rows(n: Notification, id: Seq<char>, user: Seq<char>)
    ensures
        n.id@ == id && n.recipient_id@ == user ==> mark_read_fn(id, user)(n) == (Notification { is_read: true, ..n }),
        !(n.id@ == id && n.recipient_id@ == user) ==> mark_read_fn(id, user)(n) == n,
        n.recipient_id@ == user ==> mark_all_fn(user)(n).is_read,
        n.recipient_id@ == user ==> mark_all_fn(user)(n) == (Notification { is_read: true, ..n }),
        n.recipient_id@ != user ==> mark_all_fn(user)(n) == n,
        n.id@ == id ==> mark_emailed_fn(id)(n).email_sent && mark_emailed_fn(id)(n) == (Notification { email_sent: true, ..n }),
        n.id@ != id ==> mark_emailed_fn(id)(n) == n,
{
}

/// Selects the ids that are `u`.
pub open spec fn is_id(u: Seq<char>) -> spec_fn(String) -> bool {
    |x: String| x@ == u
}

/// Unread notifications addressed one to one to `ids` count, for each user,
/// as often as the user is listed.
proof fn lemma_unread_per_listing(a: Seq<Notification>, ids: Seq<String>, u: Seq<char>)
    requires
        a.len() == ids.len(),
        forall|i: int| 0 <= i < a.len() ==> (#[trigger] a[i]).recipient_id == ids[i] && !a[i].is_read,
    ensures
        a.filter(unread_for(u)).len() == ids.filter(is_id(u)).len(),
    decreases a.len(),
{
    if a.len() > 0 {
        let a0 = a.drop_last();
        let i0 = ids.drop_last();
        assert forall|i: int| 0 <= i < a0.len() implies (#[trigger] a0[i]).recipient_id == i0[i] && !a0[i].is_read by {
            assert(a0[i] == a[i]);
        }
        lemma_unread_per_listing(a0, i0, u);
        assert(a =~= a0.push(a.last()));
        assert(ids =~= i0.push(ids.last()));
        a0.lemma_filter_push(a.last(), unread_for(u));
        i0.lemma_filter_push(ids.last(), is_id(u));
        assert(a[a.len() - 1].recipient_id == ids[ids.len() - 1]);
    }
}

/// Law: notifying a list of users leaves the earlier notifications as they
/// were and gives each user exactly as many new unread notifications as
/// times the list names them.
pub proof fn law_notify_adds_one_unread_per_listing(old_s: NotificationService, new_s: NotificationService, recipient_ids: &Vec<String>, event_type: &str, payload: &str, now: i64, u: Seq<char>)
    requires
        notify_done(old_s, new_s, recipient_ids, event_type, payload, now),
    ensures
        new_s.repo.notifications@.filter(unread_for(u)).len()
            == old_s.repo.notifications@.filter(unread_for(u)).len() + recipient_ids@.filter(is_id(u)).len(),
{
    let o = old_s.repo.notifications@;
    let n = new_s.repo.notifications@;
    let added = n.skip(o.len() as int);
    assert(n =~= o + added);
    assert forall|i: int| 0 <= i < added.len() implies (#[trigger] added[i]).recipient_id == recipient_ids@[i] && !added[i].is_read by {
        assert(added[i] == n[o.len() + i]);
    }
    lemma_unread_per_listing(added, recipient_ids@, u);
    Seq::filter_distributes_over_add(o, added, unread_for(u));
}

} // verus!
