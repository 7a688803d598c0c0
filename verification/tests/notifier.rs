use gh_notifier::notifier::{
    build_pull_or_issue_url, identifier_of, new_github_notification, notify_all, notify_error,
    subtitle,
};
use gh_notifier::notify::NotificationParams;
use gh_notifier::request::{Notification, NotificationSubject};

fn item(id: &str, updated_at: &str) -> Notification {
    Notification {
        id: id.to_string(),
        subject: NotificationSubject {
            title: format!("Subject of {}", id),
            url: Some(format!("https://api.github.com/repos/acme/widgets/pulls/{}", id)),
        },
        reason: "review_requested".to_string(),
        updated_at: updated_at.to_string(),
    }
}

fn announced(id: &str) -> NotificationParams {
    NotificationParams {
        title: "New Github Notification".to_string(),
        subtitle: "review requested".to_string(),
        message: format!("Subject of {}", id),
        sound: None,
        open: Some(format!("https://github.com/acme/widgets/pull/{}", id)),
    }
}

#[test]
fn issue_url_is_rebuilt() {
    let url = Some("https://api.github.com/repos/acme/widgets/issues/77".to_string());
    assert_eq!(build_pull_or_issue_url(&url), "https://github.com/acme/widgets/issues/77");
}

#[test]
fn pull_url_is_rebuilt() {
    let url = Some("https://api.github.com/repos/acme/widgets/pulls/12".to_string());
    assert_eq!(build_pull_or_issue_url(&url), "https://github.com/acme/widgets/pull/12");
}

#[test]
fn any_piece_named_issues_makes_an_issue() {
    let url = Some("https://api.github.com/repos/issues/widgets/pulls/12".to_string());
    assert_eq!(build_pull_or_issue_url(&url), "https://github.com/issues/widgets/issues/12");
    let part = Some("https://api.github.com/repos/acme/issues-tracker/pulls/12".to_string());
    assert_eq!(build_pull_or_issue_url(&part), "https://github.com/acme/issues-tracker/pull/12");
}

#[test]
fn absent_url_gives_the_empty_address() {
    assert_eq!(build_pull_or_issue_url(&None), "");
}

#[test]
fn short_url_gives_the_empty_address() {
    assert_eq!(build_pull_or_issue_url(&Some(String::new())), "");
    assert_eq!(build_pull_or_issue_url(&Some("issues".to_string())), "");
    assert_eq!(build_pull_or_issue_url(&Some("a/b".to_string())), "");
    assert_eq!(build_pull_or_issue_url(&Some("a/b/c".to_string())), "");
}

#[test]
fn four_pieces_are_enough() {
    assert_eq!(
        build_pull_or_issue_url(&Some("a/b/c/d".to_string())),
        "https://github.com/a/b/pull/d"
    );
    assert_eq!(build_pull_or_issue_url(&Some("///".to_string())), "https://github.com///pull/");
}

#[test]
fn trailing_slash_gives_an_empty_number() {
    let url = Some("https://api.github.com/repos/acme/widgets/issues/".to_string());
    assert_eq!(build_pull_or_issue_url(&url), "https://github.com/acme/widgets/issues/");
}

#[test]
fn reason_is_written_with_spaces() {
    assert_eq!(subtitle("review_requested"), "review requested");
    assert_eq!(subtitle("a_b_c"), "a b c");
    assert_eq!(subtitle("_lead_and_trail_"), " lead and trail ");
    assert_eq!(subtitle("__"), "  ");
}

#[test]
fn reason_without_underscores_is_unchanged() {
    assert_eq!(subtitle("mention"), "mention");
    assert_eq!(subtitle(""), "");
    assert_eq!(subtitle("with space"), "with space");
}

#[test]
fn identifier_is_id_then_updated_at() {
    assert_eq!(identifier_of(&item("42", "2024-01-01T00:00:00Z")), "422024-01-01T00:00:00Z");
    assert_eq!(identifier_of(&item("", "")), "");
}

#[test]
fn error_notification_has_the_pop_sound() {
    assert_eq!(
        notify_error("Request Error: Some(401)"),
        NotificationParams {
            title: "Github Notifier".to_string(),
            subtitle: "Error".to_string(),
            message: "Request Error: Some(401)".to_string(),
            sound: Some("Pop".to_string()),
            open: None,
        }
    );
}

#[test]
fn github_notification_carries_the_click_address() {
    assert_eq!(
        new_github_notification("Fix it", "https://github.com/a/b/pull/1", "mention"),
        NotificationParams {
            title: "New Github Notification".to_string(),
            subtitle: "mention".to_string(),
            message: "Fix it".to_string(),
            sound: None,
            open: Some("https://github.com/a/b/pull/1".to_string()),
        }
    );
}

#[test]
fn first_run_announces_everything() {
    let batch = vec![item("1", "t1"), item("2", "t1"), item("3", "t9")];
    let dispatch = notify_all(&batch, "");
    assert_eq!(dispatch.notifications, vec![announced("1"), announced("2"), announced("3")]);
    assert_eq!(dispatch.seen, "1t1,2t1,3t9");
}

#[test]
fn second_run_on_the_same_batch_is_silent() {
    let batch = vec![item("1", "t1"), item("2", "t1"), item("3", "t9")];
    let first = notify_all(&batch, "");
    let second = notify_all(&batch, &first.seen);
    assert_eq!(second.notifications, Vec::<NotificationParams>::new());
    assert_eq!(second.seen, first.seen);
}

#[test]
fn update_of_a_seen_item_is_announced_again() {
    let first = notify_all(&vec![item("42", "t1")], "");
    assert_eq!(first.notifications, vec![announced("42")]);
    assert_eq!(first.seen, "42t1");
    let second = notify_all(&vec![item("42", "t2")], &first.seen);
    assert_eq!(second.notifications, vec![announced("42")]);
    assert_eq!(second.seen, "42t2");
}

#[test]
fn only_unseen_items_are_announced_in_batch_order() {
    let batch = vec![item("5", "a"), item("1", "a"), item("3", "a"), item("2", "a")];
    let dispatch = notify_all(&batch, "1a,2a,9z");
    assert_eq!(dispatch.notifications, vec![announced("5"), announced("3")]);
    assert_eq!(dispatch.seen, "5a,1a,3a,2a");
}

#[test]
fn items_absent_from_the_batch_are_forgotten() {
    let dispatch = notify_all(&vec![item("2", "a")], "1a,2a,3a");
    assert_eq!(dispatch.notifications, Vec::<NotificationParams>::new());
    assert_eq!(dispatch.seen, "2a");
}

#[test]
fn identifiers_match_whole_not_in_part() {
    let dispatch = notify_all(&vec![item("42", "t1")], "142t1,42t10,42T1");
    assert_eq!(dispatch.notifications, vec![announced("42")]);
}

#[test]
fn an_item_listed_twice_is_announced_twice() {
    let dispatch = notify_all(&vec![item("7", "a"), item("7", "a")], "");
    assert_eq!(dispatch.notifications, vec![announced("7"), announced("7")]);
    assert_eq!(dispatch.seen, "7a,7a");
}

#[test]
fn empty_batch_displays_nothing_and_empties_the_file() {
    let dispatch = notify_all(&Vec::new(), "1a,2a");
    assert_eq!(dispatch.notifications, Vec::<NotificationParams>::new());
    assert_eq!(dispatch.seen, "");
}

#[test]
fn item_without_url_has_an_empty_click_address() {
    let mut plain = item("8", "a");
    plain.subject.url = None;
    plain.reason = "subscribed".to_string();
    let dispatch = notify_all(&vec![plain], "");
    assert_eq!(
        dispatch.notifications,
        vec![NotificationParams {
            title: "New Github Notification".to_string(),
            subtitle: "subscribed".to_string(),
            message: "Subject of 8".to_string(),
            sound: None,
            open: Some(String::new()),
        }]
    );
}

#[test]
fn item_with_a_malformed_url_is_still_announced() {
    let mut odd = item("8", "a");
    odd.subject.url = Some("nonsense".to_string());
    let dispatch = notify_all(&vec![odd, item("9", "a")], "");
    assert_eq!(dispatch.notifications.len(), 2);
    assert_eq!(dispatch.notifications[0].open, Some(String::new()));
    assert_eq!(dispatch.notifications[1], announced("9"));
}

#[test]
fn comma_in_an_identifier_breaks_it_in_two() {
    let first = notify_all(&vec![item("1", "a,b")], "");
    assert_eq!(first.seen, "1a,b");
    let second = notify_all(&vec![item("1", "a,b")], &first.seen);
    assert_eq!(second.notifications, vec![announced("1")]);
}

#[test]
fn single_empty_identifier_is_not_remembered() {
    let first = notify_all(&vec![item("", "")], "");
    assert_eq!(first.seen, "");
    let second = notify_all(&vec![item("", "")], &first.seen);
    assert_eq!(second.notifications.len(), 1);
}
