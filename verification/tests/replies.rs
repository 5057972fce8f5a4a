//! Error replies, messages and the exceptions that they surface as.

use drive9_mobile_core::client::{surface, Drive9MobileClient};
use drive9_mobile_core::error::{check_error, response_error, Drive9Error};
use drive9_mobile_core::exception::Drive9Exception;
use drive9_mobile_core::models::{
    Drive9FileInfo, Drive9SearchResult, Drive9StatResult, FileInfo, SearchResult, StatResult,
};
use drive9_mobile_core::text::{append_signed, append_unsigned, contains, trim};

fn message_of(status: u16, body: &[u8]) -> String {
    match check_error(status, body) {
        Err(Drive9Error::Status { status_code, message }) => {
            assert_eq!(status_code, status);
            message
        }
        other => panic!("unexpected reply: {:?}", other),
    }
}

#[test]
fn success_statuses_pass() {
    assert!(check_error(200, b"anything").is_ok());
    assert!(check_error(204, b"").is_ok());
    assert!(check_error(299, b"").is_ok());
    assert!(check_error(199, b"").is_err());
    assert!(check_error(300, b"").is_err());
}

#[test]
fn the_error_member_comes_first() {
    assert_eq!(message_of(500, br#"{"message":"m","error":"e"}"#), "e");
    assert_eq!(message_of(500, br#"{"message":"m"}"#), "m");
}

#[test]
fn a_member_that_is_no_text_gives_way_to_the_body() {
    assert_eq!(message_of(500, br#" {"error":5,"message":"m"} "#), r#"{"error":5,"message":"m"}"#);
    assert_eq!(message_of(500, br#"["error"]"#), r#"["error"]"#);
}

#[test]
fn a_body_that_is_no_json_is_trimmed() {
    assert_eq!(message_of(502, b" \t\r\n bad gateway \x0b\x0c"), "bad gateway");
    assert_eq!(message_of(502, "\u{3000}\u{a0}caf\u{e9}\u{2003}".as_bytes()), "caf\u{e9}");
}

#[test]
fn a_blank_body_gives_the_status() {
    assert_eq!(message_of(503, b""), "HTTP 503");
    assert_eq!(message_of(404, b" \n\t "), "HTTP 404");
}

#[test]
fn broken_text_is_replaced() {
    assert_eq!(message_of(500, b"a\xffb"), "a\u{fffd}b");
}

#[test]
fn a_conflict_keeps_the_revision_if_it_is_an_integer() {
    match check_error(409, br#"{"server_revision":-3}"#) {
        Err(Drive9Error::Conflict { status_code, message, server_revision }) => {
            assert_eq!(status_code, 409);
            assert_eq!(message, r#"{"server_revision":-3}"#);
            assert_eq!(server_revision, Some(-3));
        }
        other => panic!("unexpected reply: {:?}", other),
    }
    match check_error(409, br#"{"error":"e","server_revision":"12"}"#) {
        Err(Drive9Error::Conflict { message, server_revision, .. }) => {
            assert_eq!(message, "e");
            assert_eq!(server_revision, None);
        }
        other => panic!("unexpected reply: {:?}", other),
    }
    match check_error(409, br#"{"error":"e","server_revision":1.5}"#) {
        Err(Drive9Error::Conflict { server_revision, .. }) => assert_eq!(server_revision, None),
        other => panic!("unexpected reply: {:?}", other),
    }
}

#[test]
fn the_parts_of_a_reply_decide_its_error() {
    let error = response_error(418, None, Some(Some("teapot".to_string())), Some(1), "body");
    assert_eq!(error.to_string(), "HTTP 418: teapot");
    let error = response_error(418, Some(None), Some(Some("teapot".to_string())), None, " body ");
    assert_eq!(error.to_string(), "HTTP 418: body");
    let error = response_error(409, None, None, Some(8), "");
    match error {
        Drive9Error::Conflict { message, server_revision, .. } => {
            assert_eq!(message, "HTTP 409");
            assert_eq!(server_revision, Some(8));
        }
        other => panic!("unexpected error: {:?}", other),
    }
}

#[test]
fn errors_are_shown_with_their_cause() {
    let conflict = Drive9Error::Conflict {
        status_code: 409,
        message: "stale".to_string(),
        server_revision: None,
    };
    assert_eq!(conflict.to_string(), "Conflict: stale");
    assert_eq!(Drive9Error::Request("r".to_string()).to_string(), "request failed: r");
    assert_eq!(Drive9Error::Json("j".to_string()).to_string(), "json error: j");
    assert_eq!(Drive9Error::Io("i".to_string()).to_string(), "io error: i");
    assert_eq!(Drive9Error::Other("o".to_string()).to_string(), "o");
    assert_eq!(Drive9Error::Cancelled.to_string(), "operation cancelled");
    assert_eq!(conflict.clone().to_string(), "Conflict: stale");
}

fn codes(error: Drive9Error) -> (String, Option<i32>, String, Option<i64>) {
    let exception = Drive9Exception::from(error);
    let shown = exception.to_string();
    let Drive9Exception::Drive9 { code, status_code, detail, server_revision } = exception.clone();
    assert_eq!(shown, detail);
    (code, status_code, detail, server_revision)
}

#[test]
fn each_cause_has_its_code() {
    let status = Drive9Error::Status { status_code: 500, message: "m".to_string() };
    assert_eq!(codes(status), ("http_status".to_string(), Some(500), "m".to_string(), None));
    let conflict = Drive9Error::Conflict {
        status_code: 409,
        message: "m".to_string(),
        server_revision: Some(12),
    };
    assert_eq!(codes(conflict), ("conflict".to_string(), Some(409), "m".to_string(), Some(12)));
    let plain = |code: &str| (code.to_string(), None, "m".to_string(), None);
    assert_eq!(codes(Drive9Error::Request("m".to_string())), plain("request"));
    assert_eq!(codes(Drive9Error::Json("m".to_string())), plain("json"));
    assert_eq!(codes(Drive9Error::Io("m".to_string())), plain("io"));
    assert_eq!(codes(Drive9Error::Other("m".to_string())), plain("other"));
    assert_eq!(
        codes(Drive9Error::Cancelled),
        ("cancelled".to_string(), None, "operation cancelled".to_string(), None)
    );
}

#[test]
fn replies_pass_through() {
    assert_eq!(surface(Ok(5)).unwrap(), 5);
    assert!(surface::<()>(Err(Drive9Error::Cancelled)).is_err());
}

#[test]
fn sql_rows_are_printed_compactly() {
    let rows = Drive9MobileClient::sql_reply(Ok(b"[ 1 , \"two\", [ 3 ], null ]".to_vec())).unwrap();
    assert_eq!(rows, vec!["1", "\"two\"", "[3]", "null"]);
    assert!(Drive9MobileClient::sql_reply(Ok(b"[]".to_vec())).unwrap().is_empty());
}

#[test]
fn a_sql_reply_that_is_no_array_is_a_json_error() {
    for body in [&b""[..], &b"{}"[..], &b"[1"[..]] {
        let err = Drive9MobileClient::sql_reply(Ok(body.to_vec())).unwrap_err();
        let Drive9Exception::Drive9 { code, detail, .. } = err;
        assert_eq!(code, "json");
        assert!(!detail.is_empty());
    }
    let err = Drive9MobileClient::sql_reply(Err(Drive9Error::Io("down".to_string()))).unwrap_err();
    let Drive9Exception::Drive9 { code, .. } = err;
    assert_eq!(code, "io");
}

#[test]
fn failed_replies_surface() {
    let failure = || Drive9Error::Status { status_code: 500, message: "m".to_string() };
    assert!(Drive9MobileClient::list_reply(Err(failure())).is_err());
    assert!(Drive9MobileClient::stat_reply(Err(failure())).is_err());
    assert!(Drive9MobileClient::search_reply(Err(failure())).is_err());
}

#[test]
fn records_keep_their_fields() {
    let info = Drive9FileInfo::from(FileInfo {
        name: "n".to_string(),
        size: 1,
        is_dir: true,
        mtime: Some(2),
    });
    assert_eq!((info.name.as_str(), info.size, info.is_dir, info.mtime_unix), ("n", 1, true, Some(2)));
    let stat =
        Drive9StatResult::from(StatResult { size: 1, is_dir: true, revision: 2, mtime: Some(3) });
    assert_eq!((stat.size, stat.is_dir, stat.revision, stat.mtime_unix), (1, true, 2, Some(3)));
    let hit = Drive9SearchResult::from(SearchResult {
        path: "p".to_string(),
        name: "n".to_string(),
        size_bytes: 4,
        score: Some(5),
    });
    assert_eq!((hit.path.as_str(), hit.name.as_str(), hit.size_bytes, hit.score), ("p", "n", 4, Some(5)));
}

#[test]
fn numbers_are_written_in_decimal() {
    let mut text = String::new();
    append_signed(&mut text, i64::MIN);
    append_signed(&mut text, 0);
    append_signed(&mut text, 10);
    assert_eq!(text, "-9223372036854775808010");
    let mut text = "n=".to_string();
    append_unsigned(&mut text, u128::MAX);
    assert_eq!(text, "n=340282366920938463463374607431768211455");
}

#[test]
fn text_is_searched_and_trimmed() {
    assert!(contains("streaming", "ream"));
    assert!(contains("aaab", "aab"));
    assert!(contains("x", ""));
    assert!(!contains("ream", "streaming"));
    assert!(!contains("v1 protocol", "v2 protocol"));
    assert_eq!(trim("  a b  "), "a b");
    assert_eq!(trim(" \u{85}\u{2028} "), "");
    assert_eq!(trim("\u{200b}x"), "\u{200b}x");
}
