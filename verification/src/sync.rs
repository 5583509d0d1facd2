//! The sync engine: the owner of the locally held notification set.
//!
//! The engine is a state machine. Every user intent, timer tick, or network
//! response is applied through one of the methods below; each returns a
//! [`Command`] telling the host what to perform against the notification
//! service. The engine itself never touches the network, so every state
//! transition is verified.

use vstd::prelude::*;
use vstd::string::*;
use vstd::pervasive::VecAdditionalExecFns;
use crate::github::Notification;
use crate::github::Repository;
use crate::github::Subject;
use crate::github::get_notification_url;
use crate::github::view_opt;
use crate::github::web_url_spec;

verus! {

/// The period, in seconds, at which the host should fire the auto-refresh
/// timer.
pub const AUTO_REFRESH_INTERVAL: u64 = 30;

/// How many seconds must have passed since the last successful refresh
/// before a timer tick is allowed to start another one.
pub const REFRESH_GUARD: u64 = 25;

/// An effect the engine asks its host to perform against the notification
/// service.
#[derive(Debug, Clone, Copy, PartialEq, Eq, Structural)]
pub enum Command {
    /// Nothing to do.
    Idle,
    /// Fetch the notification list, including already-read items when `all`.
    FetchList { all: bool },
    /// Mark the notification with this identifier as read.
    MarkRead { id: u64 },
    /// Mark every notification as read.
    MarkAllRead,
}

/// The number of unread notifications in `s`.
pub open spec fn count_unread(s: Seq<Notification>) -> nat
    decreases s.len(),
{
    if s.len() == 0 {
        0
    } else {
        count_unread(s.drop_last()) + (if s.last().unread {
            1nat
        } else {
            0nat
        })
    }
}

/// No two notifications in `s` share an identifier.
pub open spec fn unique_ids(s: Seq<Notification>) -> bool {
    forall|i: int, j: int| 0 <= i < j < s.len() ==> s[i].id != s[j].id
}

/// Some notification in `s` carries the identifier `id`.
pub open spec fn has_id(s: Seq<Notification>, id: u64) -> bool {
    exists|i: int| 0 <= i < s.len() && s[i].id == id
}

/// `n` with its unread flag cleared.
pub open spec fn marked_read(n: Notification) -> Notification {
    Notification {
        id: n.id,
        subject: n.subject,
        repository: n.repository,
        reason: n.reason,
        unread: false,
        updated_at: n.updated_at,
    }
}

/// What a confirmed single mark-as-read does to the held sequence: the
/// notification carrying the identifier, if it is still held, has its unread
/// flag cleared; every other notification is untouched. An identifier that a
/// newer refresh has already dropped changes nothing; the next refresh is
/// the reconciler.
pub open spec fn mark_read_applied(
    pre: Seq<Notification>,
    post: Seq<Notification>,
    id: u64,
) -> bool {
    &&& post.len() == pre.len()
    &&& forall|j: int| 0 <= j < pre.len() && pre[j].id != id ==> post[j] == pre[j]
    &&& forall|j: int| 0 <= j < pre.len() && pre[j].id == id ==> post[j] == marked_read(pre[j])
}

/// What a refresh does: a no-op while a refresh is already in flight or
/// while unauthenticated; otherwise it enters the loading state, clears the
/// error slot, and asks the host for a fetch with the current filter.
pub open spec fn refresh_transition(pre: SyncState, post: SyncState, cmd: Command) -> bool {
    if pre.is_loading || !pre.authenticated {
        &&& post == pre
        &&& cmd == Command::Idle
    } else {
        &&& post.is_loading
        &&& post.error_message is None
        &&& post.notifications == pre.notifications
        &&& post.unread_count == pre.unread_count
        &&& post.show_all == pre.show_all
        &&& post.last_refresh == pre.last_refresh
        &&& post.authenticated == pre.authenticated
        &&& cmd == (Command::FetchList { all: pre.show_all })
    }
}

/// Whether a timer tick at `now` is allowed to start a refresh: only when
/// the guard threshold has passed since the last successful refresh. The
/// guard looks at the last success, never the last attempt, so repeated
/// failures do not suppress retries.
pub open spec fn auto_refresh_due_spec(s: SyncState, now: u64) -> bool {
    match s.last_refresh {
        None => true,
        Some(t) => now >= t && now - t > REFRESH_GUARD,
    }
}

/// The engine's state: the server-ordered notification sequence, the unread
/// count derived from it, the loading flag that gates refreshes, the single
/// error slot, the show-all filter, the time of the last successful refresh
/// (seconds since the Unix epoch), and whether a credential was available at
/// startup.
#[derive(Debug, PartialEq, Eq)]
pub struct SyncState {
    pub notifications: Vec<Notification>,
    pub unread_count: usize,
    pub is_loading: bool,
    pub error_message: Option<String>,
    pub show_all: bool,
    pub last_refresh: Option<u64>,
    pub authenticated: bool,
}

/// Replacing one element changes the unread count exactly by the difference
/// of the two elements' unread flags.
proof fn lemma_count_unread_update(s: Seq<Notification>, i: int, x: Notification)
    requires
        0 <= i < s.len(),
    ensures
        count_unread(s.update(i, x)) + (if s[i].unread {
            1nat
        } else {
            0nat
        }) == count_unread(s) + (if x.unread {
            1nat
        } else {
            0nat
        }),
    decreases s.len(),
{
    let t = s.update(i, x);
    if i == s.len() - 1 {
        assert(t.drop_last() =~= s.drop_last());
    } else {
        assert(t.drop_last() =~= s.drop_last().update(i, x));
        lemma_count_unread_update(s.drop_last(), i, x);
    }
}

/// The number of unread notifications in `v`.
fn count_unread_vec(v: &Vec<Notification>) -> (c: usize)
    ensures
        c == count_unread(v@),
{
    let mut c: usize = 0;
    let mut i: usize = 0;
    while i < v.len()
        invariant
            i <= v@.len(),
            c <= i,
            c == count_unread(v@.take(i as int)),
        decreases v@.len() - i,
    {
        let ghost pre = v@.take(i as int);
        if v[i].unread {
            c += 1;
        }
        i += 1;
        proof {
            assert(v@.take(i as int).drop_last() =~= pre);
            assert(v@.take(i as int).last() == v@[i - 1]);
        }
    }
    proof {
        assert(v@.take(v@.len() as int) =~= v@);
    }
    c
}

/// The position of the notification carrying `id`, if one is held.
fn find_index(v: &Vec<Notification>, id: u64) -> (r: Option<usize>)
    ensures
        match r {
            Some(i) => i < v@.len() && v@[i as int].id == id,
            None => !has_id(v@, id),
        },
{
    let mut i: usize = 0;
    while i < v.len()
        invariant
            i <= v@.len(),
            forall|j: int| 0 <= j < i ==> v@[j].id != id,
        decreases v@.len() - i,
    {
        if v[i].id == id {
            return Some(i);
        }
        i += 1;
    }
    None
}

/// An empty record used only to swap a held element out of the sequence
/// while it is being edited.
fn placeholder_notification() -> Notification {
    Notification {
        id: 0,
        subject: Subject { title: String::new(), kind: String::new(), url: None },
        repository: Repository { full_name: None, html_url: None },
        reason: String::new(),
        unread: false,
        updated_at: 0,
    }
}

impl SyncState {
    /// The state is well formed: the unread count is derived from the held
    /// sequence, and identifiers are unique within it.
    pub open spec fn wf(&self) -> bool {
        &&& self.unread_count == count_unread(self.notifications@)
        &&& unique_ids(self.notifications@)
    }

    /// The state at startup: empty, not loading, showing only unread items.
    /// With a credential available the engine immediately asks for a first
    /// fetch; without one it enters the degraded unauthenticated state with
    /// a descriptive error, and no command is ever issued afterwards.
    pub fn new(authenticated: bool) -> (r: (SyncState, Command))
        ensures
            r.0.wf(),
            r.0.notifications@ == Seq::<Notification>::empty(),
            r.0.unread_count == 0,
            !r.0.show_all,
            r.0.last_refresh is None,
            r.0.authenticated == authenticated,
            authenticated ==> r.0.is_loading && r.0.error_message is None && r.1 == (
            Command::FetchList { all: false }),
            !authenticated ==> !r.0.is_loading && r.1 == Command::Idle && (
            match r.0.error_message {
                Some(m) => m@
                    == "GitHub token not found. Please set GITHUB_TOKEN environment variable."@,
                None => false,
            }),
    {
        let mut st = SyncState {
            notifications: Vec::new(),
            unread_count: 0,
            is_loading: false,
            error_message: None,
            show_all: false,
            last_refresh: None,
            authenticated,
        };
        let cmd = if authenticated {
            st.refresh()
        } else {
            st.error_message = Some(
                String::from_str(
                    "GitHub token not found. Please set GITHUB_TOKEN environment variable.",
                ),
            );
            Command::Idle
        };
        (st, cmd)
    }

    /// Start a refresh. While one is already in flight this is a no-op: at
    /// most one refresh is ever outstanding. Otherwise the loading flag is
    /// set, the error slot is cleared, and the host is asked to fetch with
    /// the current filter.
    pub fn refresh(&mut self) -> (cmd: Command)
        requires
            old(self).wf(),
        ensures
            final(self).wf(),
            refresh_transition(*old(self), *final(self), cmd),
    {
        if self.is_loading || !self.authenticated {
            return Command::Idle;
        }
        self.is_loading = true;
        self.error_message = None;
        Command::FetchList { all: self.show_all }
    }

    /// Apply the outcome of a fetch. On success the held sequence is
    /// replaced wholesale (the server is the source of truth), the unread
    /// count is recomputed from the replacement, the error slot is cleared,
    /// and the time of this success is recorded. On failure only the error
    /// slot changes: stale data beats no data, and the guard keeps looking
    /// at the last success.
    pub fn on_refresh_result(&mut self, result: Result<Vec<Notification>, String>, now: u64)
        requires
            old(self).wf(),
            result matches Ok(list) ==> unique_ids(list@),
        ensures
            final(self).wf(),
            !final(self).is_loading,
            final(self).show_all == old(self).show_all,
            final(self).authenticated == old(self).authenticated,
            result matches Ok(list) ==> {
                &&& final(self).notifications == list
                &&& final(self).unread_count == count_unread(list@)
                &&& final(self).error_message is None
                &&& final(self).last_refresh == Some(now)
            },
            result matches Err(e) ==> {
                &&& final(self).notifications == old(self).notifications
                &&& final(self).unread_count == old(self).unread_count
                &&& final(self).error_message == Some(e)
                &&& final(self).last_refresh == old(self).last_refresh
            },
    {
        self.is_loading = false;
        match result {
            Ok(list) => {
                self.unread_count = count_unread_vec(&list);
                self.notifications = list;
                self.error_message = None;
                self.last_refresh = Some(now);
            },
            Err(e) => {
                self.error_message = Some(e);
            },
        }
    }

    /// Ask the host to mark one notification as read. The identifier must
    /// come from the currently held state; passing any other identifier is a
    /// caller error. The local state does not change until the host reports
    /// the outcome.
    pub fn request_mark_as_read(&self, id: u64) -> (cmd: Command)
        requires
            self.wf(),
            has_id(self.notifications@, id),
        ensures
            self.authenticated ==> cmd == (Command::MarkRead { id }),
            !self.authenticated ==> cmd == Command::Idle,
    {
        if self.authenticated {
            Command::MarkRead { id }
        } else {
            Command::Idle
        }
    }

    /// Ask the host to mark every notification as read. On success the host
    /// reports back and an implicit refresh fetches the authoritative state,
    /// so stale unread flags are never displayed indefinitely.
    pub fn mark_all_as_read(&self) -> (cmd: Command)
        ensures
            self.authenticated ==> cmd == Command::MarkAllRead,
            !self.authenticated ==> cmd == Command::Idle,
    {
        if self.authenticated {
            Command::MarkAllRead
        } else {
            Command::Idle
        }
    }

    /// Clear the unread flag of the held notification carrying `id`, if any,
    /// keeping the derived unread count in step. Everything else is
    /// untouched.
    fn apply_mark_read(&mut self, id: u64)
        requires
            old(self).wf(),
        ensures
            final(self).wf(),
            mark_read_applied(old(self).notifications@, final(self).notifications@, id),
            final(self).is_loading == old(self).is_loading,
            final(self).error_message == old(self).error_message,
            final(self).show_all == old(self).show_all,
            final(self).last_refresh == old(self).last_refresh,
            final(self).authenticated == old(self).authenticated,
    {
        let idx = find_index(&self.notifications, id);
        match idx {
            Some(i) => {
                let ghost pre = old(self).notifications@;
                let ghost orig = pre[i as int];
                let mut taken = placeholder_notification();
                self.notifications.set_and_swap(i, &mut taken);
                let was_unread = taken.unread;
                taken.unread = false;
                self.notifications.set(i, taken);
                proof {
                    assert(self.notifications@ =~= pre.update(i as int, marked_read(orig)));
                    lemma_count_unread_update(pre, i as int, marked_read(orig));
                    assert forall|a: int, b: int|
                        0 <= a < b < self.notifications@.len() implies self.notifications@[a].id
                        != self.notifications@[b].id by {
                        assert(self.notifications@[a].id == pre[a].id);
                        assert(self.notifications@[b].id == pre[b].id);
                    }
                    assert forall|j: int|
                        0 <= j < pre.len() && pre[j].id == id implies self.notifications@[j]
                        == marked_read(pre[j]) by {
                        assert(unique_ids(pre));
                    }
                }
                if was_unread {
                    self.unread_count = self.unread_count - 1;
                }
            },
            None => {
            },
        }
    }

    /// Apply the outcome of a mark-as-read or mark-all operation. A
    /// confirmed single mark clears that notification's unread flag locally
    /// (the optimistic update; the next refresh is authoritative). A
    /// confirmed mark-all triggers the implicit refresh. On failure the
    /// state is unchanged but for the error slot, and the engine remains
    /// usable.
    pub fn on_mark_read_result(&mut self, result: Result<Option<u64>, String>) -> (cmd: Command)
        requires
            old(self).wf(),
        ensures
            final(self).wf(),
            result matches Ok(Some(id)) ==> {
                &&& mark_read_applied(old(self).notifications@, final(self).notifications@, id)
                &&& final(self).is_loading == old(self).is_loading
                &&& final(self).error_message == old(self).error_message
                &&& final(self).show_all == old(self).show_all
                &&& final(self).last_refresh == old(self).last_refresh
                &&& final(self).authenticated == old(self).authenticated
                &&& cmd == Command::Idle
            },
            result matches Ok(opt) && opt is None ==> refresh_transition(
                *old(self),
                *final(self),
                cmd,
            ),
            result matches Err(e) ==> {
                &&& final(self).notifications == old(self).notifications
                &&& final(self).unread_count == old(self).unread_count
                &&& final(self).is_loading == old(self).is_loading
                &&& final(self).show_all == old(self).show_all
                &&& final(self).last_refresh == old(self).last_refresh
                &&& final(self).authenticated == old(self).authenticated
                &&& (match final(self).error_message {
                    Some(m) => m@ == "Failed to mark as read: "@ + e@,
                    None => false,
                })
            },
    {
        match result {
            Ok(Some(id)) => {
                self.apply_mark_read(id);
                Command::Idle
            },
            Ok(None) => self.refresh(),
            Err(e) => {
                let mut msg = String::from_str("Failed to mark as read: ");
                msg.append(e.as_str());
                self.error_message = Some(msg);
                Command::Idle
            },
        }
    }

    /// Set the show-all filter and trigger a refresh so the displayed set
    /// reflects the new query scope. Whatever the flag's previous value,
    /// exactly one refresh is triggered whenever one can be; re-setting the
    /// current value is not an error.
    pub fn toggle_show_all(&mut self, show_all: bool) -> (cmd: Command)
        requires
            old(self).wf(),
        ensures
            final(self).wf(),
            final(self).show_all == show_all,
            !old(self).is_loading && old(self).authenticated ==> {
                &&& cmd == (Command::FetchList { all: show_all })
                &&& final(self).is_loading
                &&& final(self).error_message is None
                &&& final(self).notifications == old(self).notifications
                &&& final(self).unread_count == old(self).unread_count
                &&& final(self).last_refresh == old(self).last_refresh
                &&& final(self).authenticated == old(self).authenticated
            },
            old(self).is_loading || !old(self).authenticated ==> {
                &&& cmd == Command::Idle
                &&& final(self).notifications == old(self).notifications
                &&& final(self).unread_count == old(self).unread_count
                &&& final(self).is_loading == old(self).is_loading
                &&& final(self).error_message == old(self).error_message
                &&& final(self).last_refresh == old(self).last_refresh
                &&& final(self).authenticated == old(self).authenticated
            },
    {
        self.show_all = show_all;
        self.refresh()
    }

    /// Whether a timer tick at `now` may start a refresh.
    pub fn auto_refresh_due(&self, now: u64) -> (r: bool)
        ensures
            r == auto_refresh_due_spec(*self, now),
    {
        match self.last_refresh {
            None => true,
            Some(t) => now >= t && now - t > REFRESH_GUARD,
        }
    }

    /// A periodic timer tick: refresh only when the guard threshold has
    /// passed since the last successful refresh, so a manual refresh is not
    /// at once followed by a redundant timer-triggered one.
    pub fn on_timer_tick(&mut self, now: u64) -> (cmd: Command)
        requires
            old(self).wf(),
        ensures
            final(self).wf(),
            auto_refresh_due_spec(*old(self), now) ==> refresh_transition(
                *old(self),
                *final(self),
                cmd,
            ),
            !auto_refresh_due_spec(*old(self), now) ==> *final(self) == *old(self) && cmd
                == Command::Idle,
    {
        if self.auto_refresh_due(now) {
            self.refresh()
        } else {
            Command::Idle
        }
    }

    /// Derive the navigable URL for a notification and, when it is unread,
    /// couple viewing with acknowledging by asking the host to mark it as
    /// read. A missing URL means there is no navigable target, not an error.
    pub fn open_notification(&self, notification: &Notification) -> (r: (Option<String>, Command))
        ensures
            self.authenticated ==> view_opt(r.0) == web_url_spec(*notification),
            self.authenticated && notification.unread ==> r.1 == (Command::MarkRead {
                id: notification.id,
            }),
            self.authenticated && !notification.unread ==> r.1 == Command::Idle,
            !self.authenticated ==> r.0 is None && r.1 == Command::Idle,
    {
        if !self.authenticated {
            return (None, Command::Idle);
        }
        let url = get_notification_url(notification);
        let cmd = if notification.unread {
            Command::MarkRead { id: notification.id }
        } else {
            Command::Idle
        };
        (url, cmd)
    }
}

} // verus!
