//! The ways a run of the notifier can fail, and what the user is told.

use crate::notify::NotificationParamsBuilderError;
use crate::text::{decimal, decimal_string};
use vstd::prelude::*;
use vstd::string::*;

verus! {

/// A failure that ends a run.
#[derive(Debug, Clone, PartialEq, Eq)]
pub enum RuntimeErrors {
    /// The environment variable with the access token is not set; the field
    /// names the variable.
    MissingCredential(String),
    /// The API could not be reached; the field is the transport's message.
    ConnectionError(String),
    /// The API answered with a status other than 200.
    ApiError {
        status: u16,
        /// The text of the response.
        body: String,
    },
    /// The API answered 200 with a body that is not a list of notifications;
    /// the field is the decoder's message.
    DecodeError(String),
    /// The file of seen identifiers could not be read or written.
    PersistenceError(String),
    /// A notification could not be put together or displayed.
    NotificationDispatchError(String),
}

/// A [`RuntimeErrors`] as plain character sequences.
pub enum RuntimeErrorsView {
    MissingCredential(Seq<char>),
    ConnectionError(Seq<char>),
    ApiError { status: u16, body: Seq<char> },
    DecodeError(Seq<char>),
    PersistenceError(Seq<char>),
    NotificationDispatchError(Seq<char>),
}

impl View for RuntimeErrors {
    type V = RuntimeErrorsView;

    open spec fn view(&self) -> RuntimeErrorsView {
        match self {
            RuntimeErrors::MissingCredential(name) => RuntimeErrorsView::MissingCredential(name@),
            RuntimeErrors::ConnectionError(reason) => RuntimeErrorsView::ConnectionError(reason@),
            RuntimeErrors::ApiError { status, body } => RuntimeErrorsView::ApiError {
                status: *status,
                body: body@,
            },
            RuntimeErrors::DecodeError(reason) => RuntimeErrorsView::DecodeError(reason@),
            RuntimeErrors::PersistenceError(reason) => RuntimeErrorsView::PersistenceError(
                reason@,
            ),
            RuntimeErrors::NotificationDispatchError(reason) =>
                RuntimeErrorsView::NotificationDispatchError(reason@),
        }
    }
}

/// What the user is told about a failure.
///
/// A failed request is reported with the status of the response where there
/// was one, in the form `Some(401)`, and with `None` where there was none.
/// Failures of the disk and of the display speak for themselves.
pub open spec fn error_message(error: RuntimeErrorsView) -> Seq<char> {
    match error {
        RuntimeErrorsView::MissingCredential(_) => "environment variable not found"@,
        RuntimeErrorsView::ConnectionError(_) => "Request Error: None"@,
        RuntimeErrorsView::ApiError { status, .. } => "Request Error: Some("@ + decimal(
            status as nat,
        ) + ")"@,
        RuntimeErrorsView::DecodeError(_) => "Request Error: None"@,
        RuntimeErrorsView::PersistenceError(reason) => reason,
        RuntimeErrorsView::NotificationDispatchError(reason) => reason,
    }
}

impl RuntimeErrors {
    /// The failure of a run in which a notification could not be built.
    pub fn from_builder(err: &NotificationParamsBuilderError) -> (error: RuntimeErrors)
        ensures
            err matches NotificationParamsBuilderError::UninitializedField(name) && error@
                == RuntimeErrorsView::NotificationDispatchError(
                "`"@ + name@ + "` must be initialized"@,
            ),
    {
        RuntimeErrors::NotificationDispatchError(err.message())
    }

    /// The text that tells the user about this failure.
    pub fn message(&self) -> (text: String)
        ensures
            text@ == error_message(self@),
    {
        match self {
            RuntimeErrors::MissingCredential(_) => String::from_str(
                "environment variable not found",
            ),
            RuntimeErrors::ConnectionError(_) => String::from_str("Request Error: None"),
            RuntimeErrors::ApiError { status, .. } => {
                let mut text = String::from_str("Request Error: Some(");
                text.append(decimal_string(*status).as_str());
                text.append(")");
                text
            },
            RuntimeErrors::DecodeError(_) => String::from_str("Request Error: None"),
            RuntimeErrors::PersistenceError(reason) => reason.clone(),
            RuntimeErrors::NotificationDispatchError(reason) => reason.clone(),
        }
    }
}

} // verus!
