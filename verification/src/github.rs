//! The notification data model and the pure mapping functions that turn a
//! raw notification record into display-ready fields.

use vstd::prelude::*;
use vstd::string::*;
use crate::text::contains_seq;
use crate::text::contains_str;
use crate::text::dec_str;
use crate::text::replace;
use crate::text::replace_seq;
use crate::text::str_eq;
use crate::text::u64_to_string;

verus! {

/// What a notification is about: its display title, the kind of entity it
/// refers to (a server-controlled open vocabulary such as `PullRequest`,
/// `Issue`, `Release`, ...), and, when the server provides one, the API
/// resource URL of that entity.
#[derive(Debug, Clone, PartialEq, Eq)]
pub struct Subject {
    pub title: String,
    pub kind: String,
    pub url: Option<String>,
}

/// The repository a notification belongs to.
#[derive(Debug, Clone, PartialEq, Eq)]
pub struct Repository {
    pub full_name: Option<String>,
    pub html_url: Option<String>,
}

/// A single notification record. The identifier is server-assigned, unique
/// within a fetch, and stable across refreshes; it is the sole key used for
/// state reconciliation. The timestamp is seconds since the Unix epoch.
#[derive(Debug, Clone, PartialEq, Eq)]
pub struct Notification {
    pub id: u64,
    pub subject: Subject,
    pub repository: Repository,
    pub reason: String,
    pub unread: bool,
    pub updated_at: u64,
}

/// The views of the strings held in an optional string.
pub open spec fn view_opt(o: Option<String>) -> Option<Seq<char>> {
    match o {
        Some(s) => Some(s@),
        None => None,
    }
}

/// The browser-facing URL a notification navigates to, if any: the API
/// resource URL with the API host replaced by the web host, pull-request
/// paths rewritten from `/pulls/` to `/pull/`, issue paths kept; any other
/// resource kind, or a missing resource URL, falls back to the repository's
/// web URL.
pub open spec fn web_url_spec(n: Notification) -> Option<Seq<char>> {
    match n.subject.url {
        Some(u) => {
            let r = replace_seq(u@, "api.github.com/repos"@, "github.com"@);
            if contains_seq(r, "/pulls/"@) {
                Some(replace_seq(r, "/pulls/"@, "/pull/"@))
            } else if contains_seq(r, "/issues/"@) {
                Some(r)
            } else {
                view_opt(n.repository.html_url)
            }
        },
        None => view_opt(n.repository.html_url),
    }
}

/// A copy of an optional string.
fn clone_opt_string(o: &Option<String>) -> (r: Option<String>)
    ensures
        view_opt(r) == view_opt(*o),
{
    match o {
        Some(s) => Some(s.clone()),
        None => None,
    }
}

/// The navigable URL for a notification, derived from its API resource URL
/// or, failing that, from its repository's web URL. `None` means there is no
/// navigable target; that is not an error.
pub fn get_notification_url(notification: &Notification) -> (r: Option<String>)
    ensures
        view_opt(r) == web_url_spec(*notification),
{
    proof {
        reveal_strlit("api.github.com/repos");
        reveal_strlit("github.com");
        reveal_strlit("/pulls/");
        reveal_strlit("/pull/");
        reveal_strlit("/issues/");
    }
    match &notification.subject.url {
        Some(url) => {
            let rewritten = replace(url.as_str(), "api.github.com/repos", "github.com");
            if contains_str(rewritten.as_str(), "/pulls/") {
                Some(replace(rewritten.as_str(), "/pulls/", "/pull/"))
            } else if contains_str(rewritten.as_str(), "/issues/") {
                Some(rewritten)
            } else {
                clone_opt_string(&notification.repository.html_url)
            }
        },
        None => clone_opt_string(&notification.repository.html_url),
    }
}

/// The human-readable phrase for a notification reason code. The vocabulary
/// is server-controlled and open: an unrecognized code passes through
/// unchanged.
pub open spec fn reason_label_spec(reason: Seq<char>) -> Seq<char> {
    if reason == "assign"@ {
        "You were assigned"@
    } else if reason == "author"@ {
        "You authored this"@
    } else if reason == "comment"@ {
        "You commented"@
    } else if reason == "invitation"@ {
        "You were invited"@
    } else if reason == "manual"@ {
        "You subscribed"@
    } else if reason == "mention"@ {
        "You were mentioned"@
    } else if reason == "review_requested"@ {
        "Review requested"@
    } else if reason == "security_alert"@ {
        "Security alert"@
    } else if reason == "state_change"@ {
        "State changed"@
    } else if reason == "subscribed"@ {
        "You're subscribed"@
    } else if reason == "team_mention"@ {
        "Team mentioned"@
    } else if reason == "ci_activity"@ {
        "Workflow activity"@
    } else {
        reason
    }
}

/// The display label for a reason code.
pub fn format_reason(reason: &str) -> (r: String)
    ensures
        r@ == reason_label_spec(reason@),
{
    if str_eq(reason, "assign") {
        String::from_str("You were assigned")
    } else if str_eq(reason, "author") {
        String::from_str("You authored this")
    } else if str_eq(reason, "comment") {
        String::from_str("You commented")
    } else if str_eq(reason, "invitation") {
        String::from_str("You were invited")
    } else if str_eq(reason, "manual") {
        String::from_str("You subscribed")
    } else if str_eq(reason, "mention") {
        String::from_str("You were mentioned")
    } else if str_eq(reason, "review_requested") {
        String::from_str("Review requested")
    } else if str_eq(reason, "security_alert") {
        String::from_str("Security alert")
    } else if str_eq(reason, "state_change") {
        String::from_str("State changed")
    } else if str_eq(reason, "subscribed") {
        String::from_str("You're subscribed")
    } else if str_eq(reason, "team_mention") {
        String::from_str("Team mentioned")
    } else if str_eq(reason, "ci_activity") {
        String::from_str("Workflow activity")
    } else {
        reason.to_owned()
    }
}

/// The symbolic icon identifier for a subject kind. The vocabulary is
/// server-controlled and open: an unrecognized kind maps to a generic
/// default.
pub open spec fn icon_key_spec(kind: Seq<char>) -> Seq<char> {
    if kind == "PullRequest"@ {
        "pull-request-symbolic"@
    } else if kind == "Issue"@ {
        "issue-symbolic"@
    } else if kind == "Release"@ {
        "package-symbolic"@
    } else if kind == "RepositoryInvitation"@ {
        "mail-message-new-symbolic"@
    } else if kind == "SecurityAlert"@ {
        "security-high-symbolic"@
    } else if kind == "Discussion"@ {
        "chat-symbolic"@
    } else {
        "mail-unread-symbolic"@
    }
}

/// The symbolic icon identifier for a subject kind.
pub fn icon_key(kind: &str) -> (r: String)
    ensures
        r@ == icon_key_spec(kind@),
{
    if str_eq(kind, "PullRequest") {
        String::from_str("pull-request-symbolic")
    } else if str_eq(kind, "Issue") {
        String::from_str("issue-symbolic")
    } else if str_eq(kind, "Release") {
        String::from_str("package-symbolic")
    } else if str_eq(kind, "RepositoryInvitation") {
        String::from_str("mail-message-new-symbolic")
    } else if str_eq(kind, "SecurityAlert") {
        String::from_str("security-high-symbolic")
    } else if str_eq(kind, "Discussion") {
        String::from_str("chat-symbolic")
    } else {
        String::from_str("mail-unread-symbolic")
    }
}

/// The elapsed seconds between a record's timestamp and `now`, clamped at
/// zero for timestamps in the future.
pub open spec fn elapsed_since(updated_at: u64, now: u64) -> int {
    if now >= updated_at {
        now - updated_at
    } else {
        0
    }
}

/// The coarse "time ago" phrase for a record last updated at `updated_at`,
/// seen from `now` (both in seconds since the Unix epoch): whole days if at
/// least one, else whole hours, else whole minutes, else "Just now".
pub open spec fn time_ago_spec(updated_at: u64, now: u64) -> Seq<char> {
    let e = elapsed_since(updated_at, now);
    if e / 86400 > 0 {
        dec_str((e / 86400) as nat) + " days ago"@
    } else if e / 3600 > 0 {
        dec_str((e / 3600) as nat) + " hours ago"@
    } else if e / 60 > 0 {
        dec_str((e / 60) as nat) + " minutes ago"@
    } else {
        "Just now"@
    }
}

/// The coarse "time ago" phrase for display under a notification.
pub fn format_time_ago(updated_at: u64, now: u64) -> (r: String)
    ensures
        r@ == time_ago_spec(updated_at, now),
{
    let elapsed: u64 = if now >= updated_at {
        now - updated_at
    } else {
        0
    };
    let days: u64 = elapsed / 86400;
    let hours: u64 = elapsed / 3600;
    let minutes: u64 = elapsed / 60;
    if days > 0 {
        let mut r = u64_to_string(days);
        r.append(" days ago");
        r
    } else if hours > 0 {
        let mut r = u64_to_string(hours);
        r.append(" hours ago");
        r
    } else if minutes > 0 {
        let mut r = u64_to_string(minutes);
        r.append(" minutes ago");
        r
    } else {
        String::from_str("Just now")
    }
}

} // verus!
