use gitwork::github::format_reason;
use gitwork::github::format_time_ago;
use gitwork::github::get_notification_url;
use gitwork::github::icon_key;
use gitwork::github::Notification;
use gitwork::github::Repository;
use gitwork::github::Subject;
use gitwork::text::contains_str;
use gitwork::text::replace;
use gitwork::text::str_eq;
use gitwork::text::u64_to_string;

fn notification(url: Option<&str>, html_url: Option<&str>) -> Notification {
    Notification {
        id: 1,
        subject: Subject {
            title: String::from("A title"),
            kind: String::from("PullRequest"),
            url: url.map(String::from),
        },
        repository: Repository {
            full_name: Some(String::from("o/r")),
            html_url: html_url.map(String::from),
        },
        reason: String::from("subscribed"),
        unread: true,
        updated_at: 0,
    }
}

#[test]
fn pull_request_url_is_rewritten() {
    let n = notification(Some("https://api.github.com/repos/o/r/pulls/42"), None);
    assert_eq!(
        get_notification_url(&n),
        Some(String::from("https://github.com/o/r/pull/42"))
    );
}

#[test]
fn issue_url_host_is_rewritten() {
    let n = notification(Some("https://api.github.com/repos/o/r/issues/7"), None);
    assert_eq!(
        get_notification_url(&n),
        Some(String::from("https://github.com/o/r/issues/7"))
    );
}

#[test]
fn other_resource_kind_falls_back_to_repository_url() {
    let n = notification(
        Some("https://api.github.com/repos/o/r/releases/5"),
        Some("https://github.com/o/r"),
    );
    assert_eq!(
        get_notification_url(&n),
        Some(String::from("https://github.com/o/r"))
    );
}

#[test]
fn missing_resource_url_falls_back_to_repository_url() {
    let n = notification(None, Some("https://github.com/o/r"));
    assert_eq!(
        get_notification_url(&n),
        Some(String::from("https://github.com/o/r"))
    );
}

#[test]
fn no_urls_at_all_yields_none() {
    let n = notification(None, None);
    assert_eq!(get_notification_url(&n), None);
}

#[test]
fn other_resource_kind_without_repository_url_yields_none() {
    let n = notification(Some("https://api.github.com/repos/o/r/commits/abc"), None);
    assert_eq!(get_notification_url(&n), None);
}

#[test]
fn reason_mention_is_labelled() {
    assert_eq!(format_reason("mention"), "You were mentioned");
}

#[test]
fn unknown_reason_passes_through() {
    assert_eq!(format_reason("unknown_future_code"), "unknown_future_code");
}

#[test]
fn known_reason_labels() {
    assert_eq!(format_reason("assign"), "You were assigned");
    assert_eq!(format_reason("author"), "You authored this");
    assert_eq!(format_reason("comment"), "You commented");
    assert_eq!(format_reason("invitation"), "You were invited");
    assert_eq!(format_reason("manual"), "You subscribed");
    assert_eq!(format_reason("review_requested"), "Review requested");
    assert_eq!(format_reason("security_alert"), "Security alert");
    assert_eq!(format_reason("state_change"), "State changed");
    assert_eq!(format_reason("subscribed"), "You're subscribed");
    assert_eq!(format_reason("team_mention"), "Team mentioned");
    assert_eq!(format_reason("ci_activity"), "Workflow activity");
}

#[test]
fn icon_keys_for_known_and_unknown_kinds() {
    assert_eq!(icon_key("PullRequest"), "pull-request-symbolic");
    assert_eq!(icon_key("Issue"), "issue-symbolic");
    assert_eq!(icon_key("Release"), "package-symbolic");
    assert_eq!(icon_key("RepositoryInvitation"), "mail-message-new-symbolic");
    assert_eq!(icon_key("SecurityAlert"), "security-high-symbolic");
    assert_eq!(icon_key("Discussion"), "chat-symbolic");
    assert_eq!(icon_key("SomethingNew"), "mail-unread-symbolic");
}

#[test]
fn time_ago_phrases() {
    assert_eq!(format_time_ago(1000, 1000), "Just now");
    assert_eq!(format_time_ago(1000, 1059), "Just now");
    assert_eq!(format_time_ago(1000, 1060), "1 minutes ago");
    assert_eq!(format_time_ago(1000, 1000 + 59 * 60), "59 minutes ago");
    assert_eq!(format_time_ago(1000, 1000 + 5 * 3600), "5 hours ago");
    assert_eq!(format_time_ago(1000, 1000 + 3 * 86400 + 10), "3 days ago");
    assert_eq!(format_time_ago(2000, 1000), "Just now");
}

#[test]
fn decimal_rendering() {
    assert_eq!(u64_to_string(0), "0");
    assert_eq!(u64_to_string(7), "7");
    assert_eq!(u64_to_string(42), "42");
    assert_eq!(u64_to_string(90210), "90210");
    assert_eq!(u64_to_string(u64::MAX), "18446744073709551615");
}

#[test]
fn replace_rewrites_every_occurrence_left_to_right() {
    assert_eq!(replace("a/pulls/b/pulls/c", "/pulls/", "/pull/"), "a/pull/b/pull/c");
    assert_eq!(replace("aaa", "aa", "b"), "ba");
    assert_eq!(replace("abc", "x", "y"), "abc");
    assert_eq!(replace("", "x", "y"), "");
}

#[test]
fn contains_and_equality_helpers() {
    assert!(contains_str("api.github.com/repos/o/r", "/repos/"));
    assert!(!contains_str("github.com/o/r", "/pulls/"));
    assert!(str_eq("abc", "abc"));
    assert!(!str_eq("abc", "abd"));
    assert!(!str_eq("abc", "abcd"));
}
