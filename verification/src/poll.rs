//! One run of the notifier, from the reply of the API to what the caller has
//! to display, to store and to report.

use crate::errors::{error_message, RuntimeErrors, RuntimeErrorsView};
use crate::file_operations::saved_ids;
use crate::notifier::{
    announcements,
    error_notification,
    identifiers,
    notify_all,
    notify_error,
    params_views,
};
use crate::notify::{option_view, NotificationParams, NotificationParamsView};
use crate::request::{batch_view, fetched, notifications_json, HttpReply, NotificationView};
use vstd::prelude::*;
use vstd::string::*;

verus! {

/// What is left to do at the end of a run.
#[derive(Debug, Clone, PartialEq, Eq)]
pub struct Outcome {
    /// The notifications to display, in order.
    pub notifications: Vec<NotificationParams>,
    /// The new contents of the file of seen identifiers; `None` leaves the
    /// file as it is.
    pub persist: Option<String>,
    /// The failure that ended the run, with which the program exits; `None`
    /// after a run that went through.
    pub error: Option<RuntimeErrors>,
}

/// An [`Outcome`] as plain character sequences.
pub struct OutcomeView {
    pub notifications: Seq<NotificationParamsView>,
    pub persist: Option<Seq<char>>,
    pub error: Option<RuntimeErrorsView>,
}

impl View for Outcome {
    type V = OutcomeView;

    open spec fn view(&self) -> OutcomeView {
        OutcomeView {
            notifications: params_views(self.notifications@),
            persist: option_view(self.persist),
            error: match self.error {
                Some(error) => Some(error@),
                None => None,
            },
        }
    }
}

/// The end of a run that failed with `error`: the user is told, the file is
/// left alone, and the failure is reported.
pub open spec fn failure(error: RuntimeErrorsView) -> OutcomeView {
    OutcomeView {
        notifications: seq![error_notification(error_message(error))],
        persist: None,
        error: Some(error),
    }
}

/// The end of a run that fetched `batch`: the new notifications are
/// displayed and the identifiers of the whole batch replace the file.
pub open spec fn success(batch: Seq<NotificationView>, read_ids: Seq<char>) -> OutcomeView {
    OutcomeView {
        notifications: announcements(batch, read_ids),
        persist: Some(saved_ids(identifiers(batch))),
        error: None,
    }
}

/// The end of the run in which the API replied `reply` and the file of seen
/// identifiers held `read_ids`.
pub open spec fn poll_outcome(reply: HttpReply, read_ids: Seq<char>) -> OutcomeView {
    match fetched(reply) {
        Ok(batch) => success(batch_view(batch@), read_ids),
        Err(error) => failure(error@),
    }
}

/// Ends a run with the failure `err`.
pub fn default_handler(err: RuntimeErrors) -> (outcome: Outcome)
    ensures
        outcome@ == failure(err@),
{
    let message = err.message();
    let mut notifications: Vec<NotificationParams> = Vec::new();
    notifications.push(notify_error(message.as_str()));
    assert(params_views(notifications@) =~= seq![error_notification(error_message(err@))]);
    Outcome { notifications, persist: None, error: Some(err) }
}

/// Decides how a run ends, from the reply of the API and the contents
/// `read_ids` of the file of seen identifiers.
pub fn poll(reply: HttpReply, read_ids: &str) -> (outcome: Outcome)
    ensures
        outcome@ == poll_outcome(reply, read_ids@),
{
    match notifications_json(reply) {
        Ok(batch) => {
            let dispatch = notify_all(&batch, read_ids);
            Outcome {
                notifications: dispatch.notifications,
                persist: Some(dispatch.seen),
                error: None,
            }
        },
        Err(error) => default_handler(error),
    }
}

/// A response with a status other than 200 ends the run in failure: nothing
/// is displayed but the report of the failure, the file is not written, and
/// the failure, which carries the status and the body, is what the program
/// exits with. Neither the body nor the file has any part in it.
pub proof fn law_rejected_reply_fails(
    status: u16,
    body: String,
    decoded: Result<Vec<crate::request::Notification>, String>,
    read_ids: Seq<char>,
)
    requires
        status != 200,
    ensures
        poll_outcome(HttpReply::Answered { status, body, decoded }, read_ids) == (OutcomeView {
            notifications: seq![
                error_notification(
                    "Request Error: Some("@ + crate::text::decimal(status as nat) + ")"@,
                ),
            ],
            persist: None,
            error: Some(RuntimeErrorsView::ApiError { status, body: body@ }),
        }),
{
}

/// A response that lists no notification displays nothing and empties the
/// file.
pub proof fn law_empty_batch_empties_file(
    body: String,
    batch: Vec<crate::request::Notification>,
    read_ids: Seq<char>,
)
    requires
        batch@.len() == 0,
    ensures
        poll_outcome(HttpReply::Answered { status: 200, body, decoded: Ok(batch) }, read_ids) == (
        OutcomeView {
            notifications: Seq::<NotificationParamsView>::empty(),
            persist: Some(Seq::<char>::empty()),
            error: None,
        }),
{
    reveal(Seq::filter);
    let none = batch_view(batch@);
    assert(none =~= Seq::<NotificationView>::empty());
    assert(announcements(none, read_ids) =~= Seq::<NotificationParamsView>::empty());
    assert(identifiers(none) =~= Seq::<Seq<char>>::empty());
}

} // verus!
