//! The one request the notifier sends, and the reading of what came back.

use crate::errors::RuntimeErrors;
use vstd::prelude::*;
use vstd::string::*;

verus! {

/// What a notification is about.
#[derive(Debug, Clone, PartialEq, Eq)]
pub struct NotificationSubject {
    pub title: String,
    /// The API address of the pull request or issue, where there is one.
    pub url: Option<String>,
}

/// One notification as the API lists it.
#[derive(Debug, Clone, PartialEq, Eq)]
pub struct Notification {
    pub id: String,
    pub subject: NotificationSubject,
    /// Why the user is notified, in snake case.
    pub reason: String,
    pub updated_at: String,
}

/// A [`NotificationSubject`] as plain character sequences.
pub struct NotificationSubjectView {
    pub title: Seq<char>,
    pub url: Option<Seq<char>>,
}

/// A [`Notification`] as plain character sequences.
pub struct NotificationView {
    pub id: Seq<char>,
    pub subject: NotificationSubjectView,
    pub reason: Seq<char>,
    pub updated_at: Seq<char>,
}

impl View for NotificationSubject {
    type V = NotificationSubjectView;

    open spec fn view(&self) -> NotificationSubjectView {
        NotificationSubjectView {
            title: self.title@,
            url: match self.url {
                Some(url) => Some(url@),
                None => None,
            },
        }
    }
}

impl View for Notification {
    type V = NotificationView;

    open spec fn view(&self) -> NotificationView {
        NotificationView {
            id: self.id@,
            subject: self.subject@,
            reason: self.reason@,
            updated_at: self.updated_at@,
        }
    }
}

/// The views of a batch of notifications, in order.
pub open spec fn batch_view(batch: Seq<Notification>) -> Seq<NotificationView> {
    batch.map_values(|n: Notification| n@)
}

/// A `GET` request: where it goes and the three headers it carries.
#[derive(Debug, Clone, PartialEq, Eq)]
pub struct HttpRequest {
    pub url: String,
    pub user_agent: String,
    pub authorization: String,
    pub accept: String,
}

/// What sending the request produced.
#[derive(Debug, PartialEq, Eq)]
pub enum HttpReply {
    /// No response arrived; the field is the transport's message.
    Unreachable(String),
    /// A response arrived.
    Answered {
        status: u16,
        /// The text of the response.
        body: String,
        /// The body read as a list of notifications, or the decoder's
        /// message where it is none.
        decoded: Result<Vec<Notification>, String>,
    },
}

/// Describes the request for the user's notifications, authorized by `token`.
pub fn notifications_request(token: &str) -> (request: HttpRequest)
    ensures
        request.url@ == "https://api.github.com/notifications"@,
        request.user_agent@ == "Rust Reqwest"@,
        request.authorization@ == "Bearer "@ + token@,
        request.accept@ == "application/vnd.github+json"@,
{
    let mut authorization = String::from_str("Bearer ");
    authorization.append(token);
    HttpRequest {
        url: String::from_str("https://api.github.com/notifications"),
        user_agent: String::from_str("Rust Reqwest"),
        authorization,
        accept: String::from_str("application/vnd.github+json"),
    }
}

/// The notifications that a reply delivers, or the failure that it amounts
/// to. Only a response with status 200 is read; whether its body decodes is
/// looked at for no other status.
pub open spec fn fetched(reply: HttpReply) -> Result<Vec<Notification>, RuntimeErrors> {
    match reply {
        HttpReply::Unreachable(reason) => Err(RuntimeErrors::ConnectionError(reason)),
        HttpReply::Answered { status, body, decoded } => if status != 200 {
            Err(RuntimeErrors::ApiError { status, body })
        } else {
            match decoded {
                Ok(batch) => Ok(batch),
                Err(reason) => Err(RuntimeErrors::DecodeError(reason)),
            }
        },
    }
}

/// Reads a reply: the notifications in the order in which the API sent them,
/// or the failure.
pub fn notifications_json(reply: HttpReply) -> (result: Result<Vec<Notification>, RuntimeErrors>)
    ensures
        result == fetched(reply),
{
    match reply {
        HttpReply::Unreachable(reason) => Err(RuntimeErrors::ConnectionError(reason)),
        HttpReply::Answered { status, body, decoded } => {
            if status != 200 {
                Err(RuntimeErrors::ApiError { status, body })
            } else {
                match decoded {
                    Ok(batch) => Ok(batch),
                    Err(reason) => Err(RuntimeErrors::DecodeError(reason)),
                }
            }
        },
    }
}

} // verus!
