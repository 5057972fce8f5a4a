//! The flat error that foreign callers see.

use crate::error::{reply_error, Drive9Error, ErrorView, CONFLICT};
use vstd::prelude::*;

verus! {

broadcast use vstd::string::group_string_axioms;

/// Flat error surface for Kotlin and Swift. There is a single variant, so that
/// callers always match the same shape; `code` tells the causes apart.
#[derive(Debug)]
pub enum Drive9Exception {
    Drive9 {
        /// One of "http_status", "conflict", "request", "json", "io", "other"
        /// and "cancelled".
        code: String,
        /// The HTTP status, where the error came with a reply of the server.
        status_code: Option<i32>,
        /// The message for a human reader.
        detail: String,
        /// The revision that the server reported with a conflict, so that a
        /// conditional write can be tried again.
        server_revision: Option<i64>,
    },
}

/// The result type of everything that foreign callers call.
pub type Drive9Result<T> = Result<T, Drive9Exception>;

/// The content of a [`Drive9Exception`].
pub struct ExceptionView {
    pub code: Seq<char>,
    pub status_code: Option<i32>,
    pub detail: Seq<char>,
    pub server_revision: Option<i64>,
}

impl View for Drive9Exception {
    type V = ExceptionView;

    open spec fn view(&self) -> ExceptionView {
        match *self {
            Drive9Exception::Drive9 { code, status_code, detail, server_revision } => {
                ExceptionView { code: code@, status_code, detail: detail@, server_revision }
            },
        }
    }
}

/// An exception that no reply of the server stands behind.
pub open spec fn plain_exception(code: Seq<char>, detail: Seq<char>) -> ExceptionView {
    ExceptionView { code, status_code: None, detail, server_revision: None }
}

/// An exception with code "other".
pub open spec fn other_exception(detail: Seq<char>) -> ExceptionView {
    plain_exception("other"@, detail)
}

/// The exception that a cancelled download ends with.
pub open spec fn transfer_cancelled() -> ExceptionView {
    plain_exception("cancelled"@, "transfer cancelled"@)
}

/// The exception that an SDK error surfaces as.
pub open spec fn exception_of(error: ErrorView) -> ExceptionView {
    match error {
        ErrorView::Status { status_code, message } => ExceptionView {
            code: "http_status"@,
            status_code: Some(status_code as i32),
            detail: message,
            server_revision: None,
        },
        ErrorView::Conflict { status_code, message, server_revision } => ExceptionView {
            code: "conflict"@,
            status_code: Some(status_code as i32),
            detail: message,
            server_revision,
        },
        ErrorView::Request(message) => plain_exception("request"@, message),
        ErrorView::Json(message) => plain_exception("json"@, message),
        ErrorView::Io(message) => plain_exception("io"@, message),
        ErrorView::Other(message) => other_exception(message),
        ErrorView::Cancelled => plain_exception("cancelled"@, "operation cancelled"@),
    }
}

impl Drive9Exception {
    /// An exception that no reply of the server stands behind.
    pub(crate) fn plain(code: &str, detail: String) -> (exception: Self)
        ensures
            exception@ == plain_exception(code@, detail@),
    {
        Drive9Exception::Drive9 {
            code: code.to_string(),
            status_code: None,
            detail,
            server_revision: None,
        }
    }

    /// An exception with code "other".
    pub(crate) fn other(detail: String) -> (exception: Self)
        ensures
            exception@ == other_exception(detail@),
    {
        Self::plain("other", detail)
    }

    /// The exception that a cancelled download ends with.
    pub(crate) fn cancelled() -> (exception: Self)
        ensures
            exception@ == transfer_cancelled(),
    {
        Self::plain("cancelled", "transfer cancelled".to_string())
    }

    /// The message that the exception is shown with.
    pub fn to_string(&self) -> (text: String)
        ensures
            text@ == self@.detail,
    {
        match self {
            Drive9Exception::Drive9 { code: _, status_code: _, detail, server_revision: _ } => {
                detail.clone()
            },
        }
    }
}

impl Clone for Drive9Exception {
    fn clone(&self) -> (copy: Self)
        ensures
            copy == *self,
    {
        match self {
            Drive9Exception::Drive9 { code, status_code, detail, server_revision } => {
                Drive9Exception::Drive9 {
                    code: code.clone(),
                    status_code: *status_code,
                    detail: detail.clone(),
                    server_revision: *server_revision,
                }
            },
        }
    }
}

impl From<Drive9Error> for Drive9Exception {
    fn from(e: Drive9Error) -> (exception: Self)
        ensures
            exception@ == exception_of(e@),
    {
        match e {
            Drive9Error::Status { status_code, message } => Drive9Exception::Drive9 {
                code: "http_status".to_string(),
                status_code: Some(status_code as i32),
                detail: message,
                server_revision: None,
            },
            Drive9Error::Conflict { status_code, message, server_revision } => {
                Drive9Exception::Drive9 {
                    code: "conflict".to_string(),
                    status_code: Some(status_code as i32),
                    detail: message,
                    server_revision,
                }
            },
            Drive9Error::Request(message) => Self::plain("request", message),
            Drive9Error::Json(message) => Self::plain("json", message),
            Drive9Error::Io(message) => Self::plain("io", message),
            Drive9Error::Other(message) => Self::other(message),
            Drive9Error::Cancelled => Self::plain("cancelled", "operation cancelled".to_string()),
        }
    }
}

impl vstd::std_specs::convert::FromSpecImpl<Drive9Error> for Drive9Exception {
    open spec fn obeys_from_spec() -> bool {
        false
    }

    open spec fn from_spec(e: Drive9Error) -> Self {
        arbitrary()
    }
}

/// The code of an exception is one of the seven documented ones.
pub open spec fn known_code(code: Seq<char>) -> bool {
    ||| code == "http_status"@
    ||| code == "conflict"@
    ||| code == "request"@
    ||| code == "json"@
    ||| code == "io"@
    ||| code == "other"@
    ||| code == "cancelled"@
}

/// Whatever went wrong, the code is a documented one; the status of the reply
/// survives, and so does the revision of a conflict.
pub proof fn law_exception_keeps_cause(error: ErrorView)
    ensures
        known_code(exception_of(error).code),
        error matches ErrorView::Status { status_code, message } ==> {
            &&& exception_of(error).status_code == Some(status_code as i32)
            &&& exception_of(error).detail == message
        },
        error matches ErrorView::Conflict { status_code, message, server_revision } ==> {
            &&& exception_of(error).status_code == Some(status_code as i32)
            &&& exception_of(error).detail == message
            &&& exception_of(error).server_revision == server_revision
        },
        exception_of(error).status_code is Some <==> (error is Status || error is Conflict),
        exception_of(error).server_revision is Some ==> error is Conflict,
{
}

/// A failed reply surfaces with its status and its message: a conflict with code
/// "conflict" and the revision that the server reported, any other reply, such as
/// one that denies access or finds nothing, with code "http_status".
pub proof fn law_failed_reply_surfaces(
    status: u16,
    message: Seq<char>,
    server_revision: Option<i64>,
)
    ensures
        exception_of(reply_error(status, message, server_revision)) == if status == CONFLICT {
            ExceptionView {
                code: "conflict"@,
                status_code: Some(status as i32),
                detail: message,
                server_revision,
            }
        } else {
            ExceptionView {
                code: "http_status"@,
                status_code: Some(status as i32),
                detail: message,
                server_revision: None,
            }
        },
{
}

/// The code tells the causes apart.
pub proof fn law_code_tells_cause(error: ErrorView)
    ensures
        exception_of(error).code == "http_status"@ <==> error is Status,
        exception_of(error).code == "conflict"@ <==> error is Conflict,
        exception_of(error).code == "request"@ <==> error is Request,
        exception_of(error).code == "json"@ <==> error is Json,
        exception_of(error).code == "io"@ <==> error is Io,
        exception_of(error).code == "other"@ <==> error is Other,
        exception_of(error).code == "cancelled"@ <==> error is Cancelled,
{
    reveal_strlit("http_status");
    reveal_strlit("conflict");
    reveal_strlit("request");
    reveal_strlit("json");
    reveal_strlit("io");
    reveal_strlit("other");
    reveal_strlit("cancelled");
    assert("http_status"@.len() == 11);
    assert("conflict"@.len() == 8);
    assert("request"@.len() == 7);
    assert("json"@.len() == 4);
    assert("io"@.len() == 2);
    assert("other"@.len() == 5);
    assert("cancelled"@.len() == 9);
}

} // verus!
