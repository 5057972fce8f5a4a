//! Errors of the drive9 SDK and the reading of error replies.

use crate::json::{integer_member, text_member};
use crate::text::{append_unsigned, decimal, trim, trimmed};
use vstd::prelude::*;
use vstd::utf8::{decode_utf8, valid_utf8};

verus! {

broadcast use vstd::string::group_string_axioms;

/// The HTTP status of a conditional write that lost against another one.
pub const CONFLICT: u16 = 409;

/// What can go wrong while talking to the server.
///
/// Failures of the HTTP client, of the JSON parser and of the file system are
/// kept as the message that the failing part gave.
#[derive(Debug)]
pub enum Drive9Error {
    Status { status_code: u16, message: String },
    Conflict { status_code: u16, message: String, server_revision: Option<i64> },
    Request(String),
    Json(String),
    Io(String),
    Other(String),
    /// The transfer was cancelled cooperatively.
    Cancelled,
}

/// The content of a [`Drive9Error`].
pub enum ErrorView {
    Status { status_code: u16, message: Seq<char> },
    Conflict { status_code: u16, message: Seq<char>, server_revision: Option<i64> },
    Request(Seq<char>),
    Json(Seq<char>),
    Io(Seq<char>),
    Other(Seq<char>),
    Cancelled,
}

impl View for Drive9Error {
    type V = ErrorView;

    open spec fn view(&self) -> ErrorView {
        match *self {
            Drive9Error::Status { status_code, message } => ErrorView::Status {
                status_code,
                message: message@,
            },
            Drive9Error::Conflict { status_code, message, server_revision } => ErrorView::Conflict {
                status_code,
                message: message@,
                server_revision,
            },
            Drive9Error::Request(message) => ErrorView::Request(message@),
            Drive9Error::Json(message) => ErrorView::Json(message@),
            Drive9Error::Io(message) => ErrorView::Io(message@),
            Drive9Error::Other(message) => ErrorView::Other(message@),
            Drive9Error::Cancelled => ErrorView::Cancelled,
        }
    }
}

impl ErrorView {
    /// The message that the error is shown with.
    pub open spec fn text(self) -> Seq<char> {
        match self {
            ErrorView::Status { status_code, message } => "HTTP "@ + decimal(status_code as int)
                + ": "@ + message,
            ErrorView::Conflict { status_code, message, server_revision } => "Conflict: "@
                + message,
            ErrorView::Request(message) => "request failed: "@ + message,
            ErrorView::Json(message) => "json error: "@ + message,
            ErrorView::Io(message) => "io error: "@ + message,
            ErrorView::Other(message) => message,
            ErrorView::Cancelled => "operation cancelled"@,
        }
    }
}

impl Drive9Error {
    /// The message that the error is shown with.
    pub fn to_string(&self) -> (text: String)
        ensures
            text@ == self@.text(),
    {
        let mut text: String = String::new();
        match self {
            Drive9Error::Status { status_code, message } => {
                text.append("HTTP ");
                append_unsigned(&mut text, *status_code as u128);
                text.append(": ");
                text.append(message.as_str());
            },
            Drive9Error::Conflict { status_code: _, message, server_revision: _ } => {
                text.append("Conflict: ");
                text.append(message.as_str());
            },
            Drive9Error::Request(message) => {
                text.append("request failed: ");
                text.append(message.as_str());
            },
            Drive9Error::Json(message) => {
                text.append("json error: ");
                text.append(message.as_str());
            },
            Drive9Error::Io(message) => {
                text.append("io error: ");
                text.append(message.as_str());
            },
            Drive9Error::Other(message) => {
                text.append(message.as_str());
            },
            Drive9Error::Cancelled => {
                text.append("operation cancelled");
            },
        }
        assert(text@ =~= self@.text());
        text
    }
}

impl Clone for Drive9Error {
    fn clone(&self) -> (copy: Self)
        ensures
            copy == *self,
    {
        match self {
            Drive9Error::Status { status_code, message } => Drive9Error::Status {
                status_code: *status_code,
                message: message.clone(),
            },
            Drive9Error::Conflict { status_code, message, server_revision } => {
                Drive9Error::Conflict {
                    status_code: *status_code,
                    message: message.clone(),
                    server_revision: *server_revision,
                }
            },
            Drive9Error::Request(message) => Drive9Error::Request(message.clone()),
            Drive9Error::Json(message) => Drive9Error::Json(message.clone()),
            Drive9Error::Io(message) => Drive9Error::Io(message.clone()),
            Drive9Error::Other(message) => Drive9Error::Other(message.clone()),
            Drive9Error::Cancelled => Drive9Error::Cancelled,
        }
    }
}

/// A status that reports success.
pub open spec fn success(status: u16) -> bool {
    200 <= status < 300
}

/// The text that `String::from_utf8_lossy` makes of `bytes`.
pub uninterp spec fn utf8_lossy(bytes: Seq<u8>) -> Seq<char>;

/// Reads bytes as text, whatever they hold.
///
/// Calls `String::from_utf8_lossy`. Trusted: the result depends on the bytes
/// alone, and bytes that are valid UTF-8 are decoded to the text they encode.
#[verifier::external_body]
fn lossy_text(bytes: &[u8]) -> (text: String)
    ensures
        text@ == utf8_lossy(bytes@),
        valid_utf8(bytes@) ==> text@ == decode_utf8(bytes@),
{
    String::from_utf8_lossy(bytes).to_string()
}

/// The text of a reply body.
pub open spec fn body_text(body: Seq<u8>) -> Seq<char> {
    if valid_utf8(body) {
        decode_utf8(body)
    } else {
        utf8_lossy(body)
    }
}

/// The message of an error reply: its `error` member where the reply has one
/// and else its `message` member, if that member is text; failing that the
/// reply as text, without surrounding white space; and for a blank reply the
/// status.
pub open spec fn reply_message(
    status: u16,
    error: Option<Option<Seq<char>>>,
    message: Option<Option<Seq<char>>>,
    text: Seq<char>,
) -> Seq<char> {
    let member = if error is Some {
        error->0
    } else if message is Some {
        message->0
    } else {
        None
    };
    match member {
        Some(found) => found,
        None => if trimmed(text).len() > 0 {
            trimmed(text)
        } else {
            "HTTP "@ + decimal(status as int)
        },
    }
}

/// The error that a failed reply stands for.
pub open spec fn reply_error(
    status: u16,
    message: Seq<char>,
    server_revision: Option<i64>,
) -> ErrorView {
    if status == CONFLICT {
        ErrorView::Conflict { status_code: status, message, server_revision }
    } else {
        ErrorView::Status { status_code: status, message }
    }
}

/// The error of a reply whose status is not a success, from what its body
/// holds: the members `error` and `message`, the member `server_revision`, and
/// the body as text.
pub fn response_error(
    status: u16,
    error: Option<Option<String>>,
    message: Option<Option<String>>,
    server_revision: Option<i64>,
    text: &str,
) -> (failure: Drive9Error)
    ensures
        failure@ == reply_error(
            status,
            reply_message(status, error.deep_view(), message.deep_view(), text@),
            server_revision,
        ),
{
    let member = match error {
        Some(found) => found,
        None => match message {
            Some(found) => found,
            None => None,
        },
    };
    let chosen = match member {
        Some(found) => found,
        None => {
            let kept = trim(text);
            if kept.as_str().is_empty() {
                let mut fallback = "HTTP ".to_string();
                append_unsigned(&mut fallback, status as u128);
                fallback
            } else {
                kept
            }
        },
    };
    if status == CONFLICT {
        Drive9Error::Conflict { status_code: status, message: chosen, server_revision }
    } else {
        Drive9Error::Status { status_code: status, message: chosen }
    }
}

/// Passes a reply with a success status and turns any other into an error that
/// keeps the status, the message of the server, and for a conflict the revision
/// that the server reported.
pub fn check_error(status: u16, body: &[u8]) -> (checked: Result<(), Drive9Error>)
    ensures
        checked is Ok <==> success(status),
        checked matches Err(failure) ==> failure@ == reply_error(
            status,
            reply_message(
                status,
                crate::json::json_text_member(body@, "error"@),
                crate::json::json_text_member(body@, "message"@),
                body_text(body@),
            ),
            crate::json::json_integer_member(body@, "server_revision"@),
        ),
        body@.len() == 0 ==> (checked matches Err(failure) ==> failure@ == reply_error(
            status,
            "HTTP "@ + decimal(status as int),
            None,
        )),
{
    if 200 <= status && status < 300 {
        return Ok(());
    }
    let error = text_member(body, "error");
    let message = text_member(body, "message");
    let server_revision = integer_member(body, "server_revision");
    let text = lossy_text(body);
    Err(response_error(status, error, message, server_revision, text.as_str()))
}

} // verus!
