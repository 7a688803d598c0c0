//! From a batch of notifications to what is displayed and what is remembered.

use crate::file_operations::{parse_local_ids, save_local_ids, saved_ids, seen_ids};
use crate::notify::{NotificationParams, NotificationParamsView};
use crate::request::{batch_view, Notification, NotificationView};
use crate::text::{contains, join_with, replaced, split, split_on, views};
use vstd::prelude::*;
use vstd::string::*;

verus! {

/// The notification that reports the failure `error`.
pub open spec fn error_notification(error: Seq<char>) -> NotificationParamsView {
    NotificationParamsView {
        title: "Github Notifier"@,
        subtitle: "Error"@,
        message: error,
        sound: Some("Pop"@),
        open: None,
    }
}

/// The notification that announces something new on GitHub.
pub open spec fn github_notification(
    message: Seq<char>,
    onclick_url: Seq<char>,
    subtitle: Seq<char>,
) -> NotificationParamsView {
    NotificationParamsView {
        title: "New Github Notification"@,
        subtitle,
        message,
        sound: None,
        open: Some(onclick_url),
    }
}

/// Puts together the notification that reports the failure `error`.
pub fn notify_error(error: &str) -> (notification: NotificationParams)
    ensures
        notification@ == error_notification(error@),
{
    NotificationParams {
        title: String::from_str("Github Notifier"),
        subtitle: String::from_str("Error"),
        message: String::from_str(error),
        sound: Some(String::from_str("Pop")),
        open: None,
    }
}

/// Puts together the notification that announces something new on GitHub.
pub fn new_github_notification(message: &str, onclick_url: &str, subtitle: &str) -> (notification:
    NotificationParams)
    ensures
        notification@ == github_notification(message@, onclick_url@, subtitle@),
{
    NotificationParams {
        title: String::from_str("New Github Notification"),
        subtitle: String::from_str(subtitle),
        message: String::from_str(message),
        sound: None,
        open: Some(String::from_str(onclick_url)),
    }
}

/// The address of the web page for the pull request or issue at the API
/// address `api_url`.
///
/// The API address is cut at every `/`. The owner is the fourth piece from
/// the end, the repository the third and the number the last. The page is an
/// issue if any piece is `issues`, and a pull request otherwise. An address
/// of fewer than four pieces has no page: the result is empty.
pub open spec fn html_url(api_url: Seq<char>) -> Seq<char> {
    let parts = split(api_url, '/');
    let n = parts.len() as int;
    if n < 4 {
        Seq::<char>::empty()
    } else {
        "https://github.com/"@ + parts[n - 4] + "/"@ + parts[n - 3] + "/"@ + (if parts.contains(
            "issues"@,
        ) {
            "issues"@
        } else {
            "pull"@
        }) + "/"@ + parts[n - 1]
    }
}

/// The address to open on a click: that of the subject's web page, or the
/// empty address where the subject has no API address.
pub open spec fn click_url(url: Option<Seq<char>>) -> Seq<char> {
    match url {
        Some(api_url) => html_url(api_url),
        None => Seq::<char>::empty(),
    }
}

/// Rebuilds the address of the web page from the API address of a pull
/// request or issue.
pub fn build_pull_or_issue_url(url: &Option<String>) -> (html: String)
    ensures
        html@ == click_url(crate::notify::option_view(*url)),
{
    match url {
        Some(api_url) => {
            let parts = split_on(api_url.as_str(), '/');
            let n = parts.len();
            if n < 4 {
                return String::new();
            }
            let pull_or_issue = if contains(&parts, "issues") {
                "issues"
            } else {
                "pull"
            };
            let mut html = String::from_str("https://github.com/");
            html.append(parts[n - 4].as_str());
            html.append("/");
            html.append(parts[n - 3].as_str());
            html.append("/");
            html.append(pull_or_issue);
            html.append("/");
            html.append(parts[n - 1].as_str());
            html
        },
        None => String::new(),
    }
}

/// The subtitle for a reason: the reason with spaces for underscores.
pub open spec fn subtitle_of(reason: Seq<char>) -> Seq<char> {
    replaced(reason, '_', ' ')
}

/// Writes a reason as a subtitle.
pub fn subtitle(reason: &str) -> (text: String)
    ensures
        text@ == subtitle_of(reason@),
        !reason@.contains('_') ==> text@ == reason@,
{
    let words = split_on(reason, '_');
    proof {
        reveal_strlit(" ");
        assert(" "@ =~= seq![' ']);
        crate::text::lemma_join_split_replaces(reason@, '_', ' ');
        if !reason@.contains('_') {
            assert(subtitle_of(reason@) =~= reason@);
        }
    }
    join_with(&words, " ")
}

/// The identifier under which a notification is remembered: its `id`
/// followed by its `updated_at`.
pub open spec fn identifier(notification: NotificationView) -> Seq<char> {
    notification.id + notification.updated_at
}

/// The identifiers of a batch, in order.
pub open spec fn identifiers(batch: Seq<NotificationView>) -> Seq<Seq<char>> {
    batch.map_values(|n: NotificationView| identifier(n))
}

/// Whether a notification is new to a user whose file of seen identifiers
/// holds `read_ids`: its identifier is none of those in the file.
pub open spec fn is_new(notification: NotificationView, read_ids: Seq<char>) -> bool {
    !seen_ids(read_ids).contains(identifier(notification))
}

/// What is displayed for a notification.
pub open spec fn announcement(notification: NotificationView) -> NotificationParamsView {
    github_notification(
        notification.subject.title,
        click_url(notification.subject.url),
        subtitle_of(notification.reason),
    )
}

/// The new notifications of a batch, in order.
pub open spec fn new_items(batch: Seq<NotificationView>, read_ids: Seq<char>) -> Seq<
    NotificationView,
> {
    batch.filter(|n: NotificationView| is_new(n, read_ids))
}

/// What is displayed for a batch: an announcement for each new notification,
/// in order.
pub open spec fn announcements(batch: Seq<NotificationView>, read_ids: Seq<char>) -> Seq<
    NotificationParamsView,
> {
    new_items(batch, read_ids).map_values(|n: NotificationView| announcement(n))
}

/// The views of a list of notifications to display.
pub open spec fn params_views(list: Seq<NotificationParams>) -> Seq<NotificationParamsView> {
    list.map_values(|p: NotificationParams| p@)
}

/// What a batch of notifications leads to.
#[derive(Debug, Clone, PartialEq, Eq)]
pub struct Dispatch {
    /// The notifications to display, in order.
    pub notifications: Vec<NotificationParams>,
    /// The new contents of the file of seen identifiers.
    pub seen: String,
}

/// Writes the identifier of a notification.
pub fn identifier_of(notification: &Notification) -> (id: String)
    ensures
        id@ == identifier(notification@),
{
    let mut id = notification.id.clone();
    id.append(notification.updated_at.as_str());
    id
}

/// Decides what to display and what to remember for a batch of notifications,
/// given the contents `read_ids` of the file of seen identifiers.
///
/// Displayed are the notifications whose identifier is not in the file, in
/// the order of the batch. Remembered are the identifiers of the whole batch
/// and no others.
pub fn notify_all(notifications_json: &Vec<Notification>, read_ids: &str) -> (dispatch: Dispatch)
    ensures
        params_views(dispatch.notifications@) == announcements(
            batch_view(notifications_json@),
            read_ids@,
        ),
        dispatch.seen@ == saved_ids(identifiers(batch_view(notifications_json@))),
{
    let seen = parse_local_ids(read_ids);
    let mut new_ids: Vec<String> = Vec::new();
    let mut notifications: Vec<NotificationParams> = Vec::new();
    let ghost batch = batch_view(notifications_json@);
    let mut i: usize = 0;
    proof {
        reveal(Seq::filter);
        assert(batch.take(0) =~= Seq::<NotificationView>::empty());
        assert(params_views(notifications@) =~= announcements(batch.take(0), read_ids@));
        assert(views(new_ids@) =~= identifiers(batch.take(0)));
    }
    while i < notifications_json.len()
        invariant
            i <= notifications_json.len(),
            batch == batch_view(notifications_json@),
            views(seen@) == seen_ids(read_ids@),
            params_views(notifications@) == announcements(batch.take(i as int), read_ids@),
            views(new_ids@) == identifiers(batch.take(i as int)),
        decreases notifications_json.len() - i,
    {
        let notification = &notifications_json[i];
        let id = identifier_of(notification);
        let ghost shown = params_views(notifications@);
        let ghost remembered = views(new_ids@);
        proof {
            reveal(Seq::filter);
            assert(batch.take(i as int + 1).drop_last() =~= batch.take(i as int));
            assert(batch.take(i as int + 1).last() == notification@);
            assert(identifiers(batch.take(i as int + 1)) =~= remembered.push(id@));
        }
        if !contains(&seen, id.as_str()) {
            let onclick_url = build_pull_or_issue_url(&notification.subject.url);
            let subtitle = subtitle(notification.reason.as_str());
            let announced = new_github_notification(
                notification.subject.title.as_str(),
                onclick_url.as_str(),
                subtitle.as_str(),
            );
            notifications.push(announced);
            proof {
                assert(announced@ == announcement(notification@));
                assert(params_views(notifications@) =~= shown.push(announced@));
                assert(announcements(batch.take(i as int + 1), read_ids@) =~= shown.push(
                    announced@,
                ));
            }
        }
        new_ids.push(id);
        proof {
            assert(views(new_ids@) =~= remembered.push(id@));
        }
        i += 1;
    }
    proof {
        assert(batch.take(notifications_json.len() as int) =~= batch);
    }
    Dispatch { notifications, seen: save_local_ids(new_ids) }
}

/// A filter that nothing passes leaves nothing.
proof fn lemma_filter_none<A>(s: Seq<A>, pred: spec_fn(A) -> bool)
    requires
        forall|i: int| 0 <= i < s.len() ==> !pred(#[trigger] s[i]),
    ensures
        s.filter(pred) == Seq::<A>::empty(),
    decreases s.len(),
{
    reveal(Seq::filter);
    if s.len() > 0 {
        lemma_filter_none(s.drop_last(), pred);
    } else {
        assert(s =~= Seq::<A>::empty());
    }
}

/// A filter that everything passes changes nothing.
proof fn lemma_filter_all<A>(s: Seq<A>, pred: spec_fn(A) -> bool)
    requires
        forall|i: int| 0 <= i < s.len() ==> pred(#[trigger] s[i]),
    ensures
        s.filter(pred) == s,
    decreases s.len(),
{
    reveal(Seq::filter);
    if s.len() > 0 {
        lemma_filter_all(s.drop_last(), pred);
        assert(s.drop_last().push(s.last()) =~= s);
    }
}

/// Tracking is idempotent: after a run, every identifier of the batch is in
/// the file, so a second run on the same batch displays nothing.
///
/// This holds as long as no identifier of the batch holds a comma, which the
/// file reads as the end of an identifier, and the batch is not a single
/// notification with an empty identifier, which is written as the empty file.
pub proof fn law_second_run_is_silent(batch: Seq<NotificationView>)
    requires
        forall|i: int| 0 <= i < batch.len() ==> !identifier(#[trigger] batch[i]).contains(','),
        !(batch.len() == 1 && identifier(batch[0]).len() == 0),
    ensures
        forall|i: int|
            0 <= i < batch.len() ==> seen_ids(saved_ids(identifiers(batch))).contains(
                identifier(#[trigger] batch[i]),
            ),
        announcements(batch, saved_ids(identifiers(batch))) == Seq::<
            NotificationParamsView,
        >::empty(),
{
    let ids = identifiers(batch);
    let file = saved_ids(ids);
    assert forall|i: int| 0 <= i < ids.len() implies !(#[trigger] ids[i]).contains(',') by {
        assert(ids[i] == identifier(batch[i]));
    }
    crate::file_operations::lemma_saved_ids_read_back(ids);
    assert forall|i: int| 0 <= i < batch.len() implies seen_ids(file).contains(
        identifier(#[trigger] batch[i]),
    ) by {
        assert(ids[i] == identifier(batch[i]));
    }
    lemma_filter_none(batch, |n: NotificationView| is_new(n, file));
    assert(announcements(batch, file) =~= Seq::<NotificationParamsView>::empty());
}

/// The identifier follows the update time: a notification that comes again
/// under the same `id` with another `updated_at` has another identifier. The
/// first is new on a first run, and the second is new to a user whose file
/// was written by a run that saw only the first.
///
/// This holds as long as the first identifier holds no comma.
pub proof fn law_updated_item_is_new(first: NotificationView, second: NotificationView)
    requires
        first.id == second.id,
        first.updated_at != second.updated_at,
        !identifier(first).contains(','),
    ensures
        identifier(first) != identifier(second),
        is_new(first, Seq::<char>::empty()),
        is_new(second, saved_ids(identifiers(seq![first]))),
{
    let one = identifier(first);
    let other = identifier(second);
    if one == other {
        let at = first.id.len() as int;
        assert(one.subrange(at, one.len() as int) =~= first.updated_at);
        assert(other.subrange(at, other.len() as int) =~= second.updated_at);
    }
    let ids = identifiers(seq![first]);
    assert(ids =~= seq![one]);
    if one.len() > 0 {
        crate::file_operations::lemma_saved_ids_read_back(ids);
    }
}

/// On a first run everything is new: with an empty file, or none, every
/// notification of the batch is displayed.
pub proof fn law_first_run_announces_all(batch: Seq<NotificationView>)
    ensures
        forall|i: int| 0 <= i < batch.len() ==> is_new(#[trigger] batch[i], Seq::<char>::empty()),
        announcements(batch, Seq::<char>::empty()) == batch.map_values(
            |n: NotificationView| announcement(n),
        ),
{
    lemma_filter_all(batch, |n: NotificationView| is_new(n, Seq::<char>::empty()));
}

/// A reason without underscores is its own subtitle.
pub proof fn law_plain_reason_is_kept(reason: Seq<char>)
    requires
        !reason.contains('_'),
    ensures
        subtitle_of(reason) == reason,
{
    assert(subtitle_of(reason) =~= reason);
}

} // verus!
