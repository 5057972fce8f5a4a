//! What replies, errors and exceptions say, part by part.

use crate::client::{condition, nonce_value, signed_length, surfaces};
use crate::error::{
    body_text, reply_error, reply_message, success, utf8_lossy, Drive9Error, ErrorView,
};
use crate::exception::{
    exception_of, other_exception, plain_exception, transfer_cancelled, Drive9Exception,
    Drive9Result,
};
use crate::models::{
    Drive9FileInfo, Drive9SearchResult, Drive9StatResult, FileInfo, SearchResult, StatResult,
};
use crate::stream::{part_reply, plan_reply, CompletePart, UploadPlanV2, WritePartError};
use crate::text::{decimal, trimmed};
use crate::transfer::{error_view, unit_reply};
use vstd::prelude::*;
use vstd::std_specs::convert::FromSpec;
use vstd::utf8::{decode_utf8, valid_utf8};

verus! {

/// The statuses that report success are those from 200 to 299.
pub proof fn law_success_statuses(status: u16)
    ensures
        success(status) <==> status / 100 == 2,
{
}

/// A body that is UTF-8 is read as the text that it encodes.
pub proof fn law_body_is_read_as_text(body: Seq<u8>)
    ensures
        valid_utf8(body) ==> body_text(body) == decode_utf8(body),
        !valid_utf8(body) ==> body_text(body) == utf8_lossy(body),
{
}

/// The text of the `error` member is the message, whatever else the reply holds.
pub proof fn law_error_member_is_the_message(
    status: u16,
    found: Seq<char>,
    message: Option<Option<Seq<char>>>,
    text: Seq<char>,
)
    ensures
        reply_message(status, Some(Some(found)), message, text) == found,
{
}

/// Without an `error` member, the text of the `message` member is the message.
pub proof fn law_message_member_comes_second(status: u16, found: Seq<char>, text: Seq<char>)
    ensures
        reply_message(status, None, Some(Some(found)), text) == found,
{
}

/// Where the member that counts is no text, or there is none, the trimmed body is
/// the message; if nothing is left of it, the status is.
pub proof fn law_body_is_the_last_resort(
    status: u16,
    message: Option<Option<Seq<char>>>,
    text: Seq<char>,
)
    ensures
        trimmed(text).len() > 0 ==> {
            &&& reply_message(status, Some(None), message, text) == trimmed(text)
            &&& reply_message(status, None, Some(None), text) == trimmed(text)
            &&& reply_message(status, None, None, text) == trimmed(text)
        },
        trimmed(text).len() == 0 ==> {
            &&& reply_message(status, Some(None), message, text) == "HTTP "@ + decimal(
                status as int,
            )
            &&& reply_message(status, None, Some(None), text) == "HTTP "@ + decimal(status as int)
            &&& reply_message(status, None, None, text) == "HTTP "@ + decimal(status as int)
        },
{
}

/// A reply is a conflict exactly if its status is 409. Its error holds the status
/// and the message, and that of a conflict the revision too.
pub proof fn law_reply_error(status: u16, message: Seq<char>, server_revision: Option<i64>)
    ensures
        status == 409 ==> reply_error(status, message, server_revision) == (ErrorView::Conflict {
            status_code: 409,
            message,
            server_revision,
        }),
        status != 409 ==> reply_error(status, message, server_revision) == (ErrorView::Status {
            status_code: status,
            message,
        }),
{
}

/// Every error is shown with its message, behind what kind of error it is.
pub proof fn law_error_text(status_code: u16, message: Seq<char>, server_revision: Option<i64>)
    ensures
        (ErrorView::Status { status_code, message }).text() == "HTTP "@ + decimal(
            status_code as int,
        ) + ": "@ + message,
        (ErrorView::Conflict { status_code, message, server_revision }).text() == "Conflict: "@
            + message,
        ErrorView::Request(message).text() == "request failed: "@ + message,
        ErrorView::Json(message).text() == "json error: "@ + message,
        ErrorView::Io(message).text() == "io error: "@ + message,
        ErrorView::Other(message).text() == message,
        ErrorView::Cancelled.text() == "operation cancelled"@,
{
}

/// An exception that no reply stands behind holds its code and its detail, and
/// neither a status nor a revision.
pub proof fn law_plain_exception(code: Seq<char>, detail: Seq<char>)
    ensures
        plain_exception(code, detail).code == code,
        plain_exception(code, detail).detail == detail,
        plain_exception(code, detail).status_code is None,
        plain_exception(code, detail).server_revision is None,
        other_exception(detail).code == "other"@,
        other_exception(detail).detail == detail,
        other_exception(detail).status_code is None,
        other_exception(detail).server_revision is None,
        transfer_cancelled().code == "cancelled"@,
        transfer_cancelled().detail == "transfer cancelled"@,
        transfer_cancelled().status_code is None,
        transfer_cancelled().server_revision is None,
{
}

/// The message of an error is the detail of its exception. Only an error that a
/// reply stands behind has a status, and only a conflict a revision.
pub proof fn law_exception_carries_message(message: Seq<char>, error: ErrorView)
    ensures
        exception_of(ErrorView::Request(message)).detail == message,
        exception_of(ErrorView::Json(message)).detail == message,
        exception_of(ErrorView::Io(message)).detail == message,
        exception_of(ErrorView::Other(message)).detail == message,
        exception_of(ErrorView::Cancelled).detail == "operation cancelled"@,
        error matches ErrorView::Status { message: given, .. } ==> exception_of(error).detail
            == given && exception_of(error).server_revision is None,
        error matches ErrorView::Conflict { message: given, server_revision, .. } ==> exception_of(
            error,
        ).detail == given && exception_of(error).server_revision == server_revision,
        !(error is Status || error is Conflict) ==> exception_of(error).status_code is None
            && exception_of(error).server_revision is None,
        error matches ErrorView::Status { status_code, .. } ==> exception_of(error).status_code
            == Some(status_code as i32),
        error matches ErrorView::Conflict { status_code, .. } ==> exception_of(error).status_code
            == Some(status_code as i32),
{
}

/// A value passes through unchanged, and an error as its exception.
pub proof fn law_surfacing<T>(value: T, error: Drive9Error, outcome: Drive9Result<T>)
    ensures
        surfaces(Ok(value), outcome) <==> outcome == Ok::<T, Drive9Exception>(value),
        surfaces(Err(error), outcome) <==> outcome is Err && outcome->Err_0@ == exception_of(
            error@,
        ),
{
}

/// The content of an error is its parts, and nothing of it is lost.
pub proof fn law_error_content(
    status_code: u16,
    message: String,
    server_revision: Option<i64>,
)
    ensures
        (Drive9Error::Status { status_code, message })@ == (ErrorView::Status {
            status_code,
            message: message@,
        }),
        (Drive9Error::Conflict { status_code, message, server_revision })@ == (
        ErrorView::Conflict { status_code, message: message@, server_revision }),
        Drive9Error::Request(message)@ == ErrorView::Request(message@),
        Drive9Error::Json(message)@ == ErrorView::Json(message@),
        Drive9Error::Io(message)@ == ErrorView::Io(message@),
        Drive9Error::Other(message)@ == ErrorView::Other(message@),
        Drive9Error::Cancelled@ == ErrorView::Cancelled,
{
}

/// The content of an exception is its parts, and nothing of it is lost.
pub proof fn law_exception_content(
    code: String,
    status_code: Option<i32>,
    detail: String,
    server_revision: Option<i64>,
)
    ensures
        ({
            let content = (Drive9Exception::Drive9 {
                code,
                status_code,
                detail,
                server_revision,
            })@;
            &&& content.code == code@
            &&& content.status_code == status_code
            &&& content.detail == detail@
            &&& content.server_revision == server_revision
        }),
{
}

/// The content of a plan, a part and a refusal is their parts, and nothing of it
/// is lost; the same holds of the replies that they come in.
pub proof fn law_upload_content(
    plan: UploadPlanV2,
    part: CompletePart,
    etag: String,
    error: Drive9Error,
)
    ensures
        plan@.upload_id == plan.upload_id@,
        plan@.part_size == plan.part_size,
        plan@.total_parts == plan.total_parts,
        part@.number == part.number,
        part@.etag == part.etag@,
        WritePartError::Parameter(error)@.parameter,
        WritePartError::Parameter(error)@.error == error@,
        !WritePartError::Stream(error)@.parameter,
        WritePartError::Stream(error)@.error == error@,
        plan_reply(Ok(plan)) == Ok::<_, ErrorView>(plan@),
        plan_reply(Err(error)) == Err::<crate::stream_model::PlanView, _>(error@),
        part_reply(Ok(etag)) == Ok::<_, ErrorView>(etag@),
        part_reply(Err(error)) == Err::<Seq<char>, _>(error@),
        unit_reply(Ok(())) == Ok::<_, ErrorView>(()),
        unit_reply(Err(error)) == Err::<(), _>(error@),
        error_view(Some(error)) == Some(error@),
        error_view(None) is None,
{
}

/// What the SDK reports reaches foreign callers field by field.
pub proof fn law_records_keep_fields(f: FileInfo, s: StatResult, r: SearchResult)
    ensures
        Drive9FileInfo::from_spec(f).name == f.name,
        Drive9FileInfo::from_spec(f).size == f.size,
        Drive9FileInfo::from_spec(f).is_dir == f.is_dir,
        Drive9FileInfo::from_spec(f).mtime_unix == f.mtime,
        Drive9StatResult::from_spec(s).size == s.size,
        Drive9StatResult::from_spec(s).is_dir == s.is_dir,
        Drive9StatResult::from_spec(s).revision == s.revision,
        Drive9StatResult::from_spec(s).mtime_unix == s.mtime,
        Drive9SearchResult::from_spec(r).path == r.path,
        Drive9SearchResult::from_spec(r).name == r.name,
        Drive9SearchResult::from_spec(r).size_bytes == r.size_bytes,
        Drive9SearchResult::from_spec(r).score == r.score,
{
}

/// A write is conditional on the revision that the caller expects, and on -1 if
/// the caller expects none.
pub proof fn law_condition(revision: i64)
    ensures
        condition(Some(revision)) == revision,
        condition(None) == -1,
{
}

/// The nonce is the one that is given, and 0 without one.
pub proof fn law_nonce(value: u128)
    ensures
        nonce_value(Some(value)) == value,
        nonce_value(None) == 0,
{
}

/// The signed length of a file is its length, up to a multiple of two to the 64th.
pub proof fn law_signed_length(len: u64)
    ensures
        i64::MIN <= signed_length(len) <= i64::MAX,
        signed_length(len) == len || signed_length(len) == len - 0x1_0000_0000_0000_0000,
        len <= i64::MAX ==> signed_length(len) == len,
{
}

} // verus!
