//! The decisions of a streaming upload.

use drive9_mobile_core::error::Drive9Error;
use drive9_mobile_core::stream::{
    AbortStep, CompleteStep, PartStep, PermitStep, StreamWriter, UploadPlanV2, WritePartError,
};
use drive9_mobile_core::stream_model::UPLOAD_MAX_CONCURRENCY;

const PART_SIZE: i64 = 100;

fn plan(upload_id: &str, total_parts: i32) -> UploadPlanV2 {
    UploadPlanV2 { upload_id: upload_id.to_string(), part_size: PART_SIZE, total_parts }
}

/// Offers a part; the upload is initiated with `plan` where it has to be.
fn offer(writer: &mut StreamWriter, part_num: i32, plan: UploadPlanV2) -> String {
    match writer.write_part(part_num).unwrap() {
        PartStep::Initiate => writer.write_part_initiated(part_num, Ok(plan)).unwrap(),
        PartStep::Upload { upload_id } => upload_id,
    }
}

/// Writes a part and lets it land.
fn write_landed(writer: &mut StreamWriter, part_num: i32, total_parts: i32) {
    offer(writer, part_num, plan("u", total_parts));
    assert_eq!(writer.permit_acquired().unwrap(), PermitStep::Start);
    writer.part_finished(part_num, Ok(format!("e{}", part_num)));
}

fn text(refusal: WritePartError) -> String {
    match refusal {
        WritePartError::Parameter(error) => error.to_string(),
        WritePartError::Stream(error) => error.to_string(),
    }
}

#[test]
fn write_part_queued_at_permit_aborts_without_uploading() {
    let limit = UPLOAD_MAX_CONCURRENCY as i32;
    let total_parts = limit + 1;
    let total_size = PART_SIZE * total_parts as i64;
    let mut writer = StreamWriter::new("/race.bin".to_string(), total_size, -1);
    let mut puts: usize = 0;
    let mut aborts: usize = 0;

    for part_num in 1..=limit {
        assert_eq!(offer(&mut writer, part_num, plan("u-race", total_parts)), "u-race");
        assert_eq!(writer.permit_acquired().unwrap(), PermitStep::Start);
        puts += 1;
    }
    offer(&mut writer, limit + 1, plan("u-race", total_parts));
    assert_eq!(writer.permit_acquired().unwrap(), PermitStep::Queued);

    assert!(writer.abort());
    assert!(matches!(writer.abort_step(), AbortStep::Wait));
    for part_num in 1..=limit {
        writer.part_finished(part_num, Ok("etag".to_string()));
    }
    assert!(matches!(writer.abort_step(), AbortStep::Wait));

    let err = match writer.permit_acquired() {
        Err(refusal) => refusal,
        Ok(_) => panic!("queued write_part should fail after abort"),
    };
    let detail = text(err);
    assert!(
        detail.contains("aborted") || detail.contains("closing"),
        "want aborted/closing in error detail, got: {}",
        detail
    );
    assert!(writer.wait_inflight());
    match writer.abort_step() {
        AbortStep::Abort { upload_id } => {
            assert_eq!(upload_id, "u-race");
            aborts += 1;
        }
        other => panic!("unexpected step: {:?}", other),
    }

    let later = match writer.write_part(limit + 2) {
        Err(refusal) => text(refusal),
        Ok(_) => panic!("write after abort must reject"),
    };
    assert!(later.contains("aborted"), "want aborted in error: {}", later);
    let complete_err = writer.complete().unwrap_err();
    assert!(complete_err.to_string().contains("aborted"));
    assert_eq!(puts, UPLOAD_MAX_CONCURRENCY);
    assert_eq!(aborts, 1);
}

#[test]
fn abort_is_idempotent() {
    let mut writer = StreamWriter::new("/idem.bin".to_string(), PART_SIZE, -1);
    assert_eq!(offer(&mut writer, 1, plan("u-idempotent", 1)), "u-idempotent");
    assert_eq!(writer.permit_acquired().unwrap(), PermitStep::Start);
    writer.part_finished(1, Ok("etag".to_string()));
    let mut aborts: usize = 0;
    for _ in 0..2 {
        if writer.abort() {
            match writer.abort_step() {
                AbortStep::Abort { upload_id } => {
                    assert_eq!(upload_id, "u-idempotent");
                    aborts += 1;
                }
                other => panic!("unexpected step: {:?}", other),
            }
        }
    }
    assert_eq!(aborts, 1);
}

#[test]
fn abort_of_an_unstarted_stream_tells_nobody() {
    let mut writer = StreamWriter::new("/x".to_string(), 10, 4);
    assert!(!writer.started());
    assert!(writer.abort());
    assert!(matches!(writer.abort_step(), AbortStep::Done));
}

#[test]
fn impossible_part_numbers_are_parameter_errors() {
    let mut writer = StreamWriter::new("/x".to_string(), 300, -1);
    match writer.write_part(0).unwrap_err() {
        WritePartError::Parameter(error) => {
            assert_eq!(error.to_string(), "part number must be >= 1");
        }
        other => panic!("unexpected refusal: {:?}", other),
    }
    write_landed(&mut writer, 2, 3);
    match writer.write_part(2).unwrap_err() {
        WritePartError::Parameter(error) => {
            assert_eq!(error.to_string(), "part 2 already uploaded");
        }
        other => panic!("unexpected refusal: {:?}", other),
    }
    match writer.write_part(4).unwrap_err() {
        WritePartError::Parameter(error) => {
            assert_eq!(error.to_string(), "part number 4 exceeds total_parts 3");
        }
        other => panic!("unexpected refusal: {:?}", other),
    }
    assert!(writer.wait_inflight());
}

#[test]
fn initiation_failures_name_the_protocol() {
    let mut writer = StreamWriter::new("/x".to_string(), 100, -1);
    let plain = writer.init_locked(Err(Drive9Error::Io("no route".to_string()))).unwrap_err();
    assert_eq!(plain.to_string(), "initiate stream upload: io error: no route");
    let old = writer
        .init_locked(Err(Drive9Error::Other("v2 upload API not available".to_string())))
        .unwrap_err();
    let expected = "streaming upload requires v2 protocol: v2 upload API not available";
    assert_eq!(old.to_string(), expected);
    let other = writer
        .init_locked(Err(Drive9Error::Status {
            status_code: 400,
            message: "needs v2 protocol".to_string(),
        }))
        .unwrap_err();
    assert_eq!(other.to_string(), expected);
    assert!(!writer.started());
    writer.init_locked(Ok(plan("u", 1))).unwrap();
    writer.init_locked(Ok(plan("another", 9))).unwrap();
    assert_eq!(writer.plan().unwrap().upload_id, "u");
}

#[test]
fn parts_land_in_any_order() {
    let mut writer = StreamWriter::new("/x".to_string(), 300, -1);
    for part_num in [3, 1, 2] {
        write_landed(&mut writer, part_num, 3);
    }
    writer.complete().unwrap();
    assert!(matches!(writer.complete_step(true), Ok(CompleteStep::Finish)));
    let (upload_id, parts) = writer.finish().unwrap();
    assert_eq!(upload_id, "u");
    let listed: Vec<(i32, &str)> =
        parts.iter().map(|part| (part.number, part.etag.as_str())).collect();
    assert_eq!(listed, vec![(1, "e1"), (2, "e2"), (3, "e3")]);
    assert_eq!(writer.complete().unwrap_err().to_string(), "stream writer already completed");
}

#[test]
fn a_completed_stream_lists_every_part_that_was_accepted() {
    let mut writer = StreamWriter::new("/x".to_string(), 300, -1);
    assert_eq!(writer.initiation(), ("/x", 300, -1));
    assert!(writer.has_room());
    for part_num in [-1, 0, 4, 1, 3, 2] {
        match writer.write_part(part_num) {
            Ok(PartStep::Initiate) => {
                match writer.write_part_initiated(part_num, Ok(plan("u", 3))) {
                    Ok(_) => {
                        writer.permit_acquired().unwrap();
                        writer.part_finished(part_num, Ok("e".to_string()));
                    }
                    Err(refusal) => {
                        assert_eq!(text(refusal), "part number 4 exceeds total_parts 3");
                    }
                }
            }
            Ok(PartStep::Upload { .. }) => {
                writer.permit_acquired().unwrap();
                writer.part_finished(part_num, Ok("e".to_string()));
            }
            Err(refusal) => assert_eq!(text(refusal), "part number must be >= 1"),
        }
    }
    writer.complete().unwrap();
    let numbers: Vec<i32> =
        writer.finish().unwrap().1.iter().map(|part| part.number).collect();
    assert_eq!(numbers, vec![1, 2, 3]);
}

#[test]
fn a_gap_is_reported() {
    let mut writer = StreamWriter::new("/x".to_string(), 300, -1);
    write_landed(&mut writer, 1, 3);
    write_landed(&mut writer, 3, 3);
    writer.complete().unwrap();
    assert_eq!(text(writer.write_part(2).unwrap_err()), "stream writer is closing");
    let err = writer.finish().unwrap_err();
    assert_eq!(err.to_string(), "missing part 2 in stream upload (have 2 parts, max 3)");
}

#[test]
fn a_final_part_below_the_first_leaves_an_empty_list() {
    let mut writer = StreamWriter::new("/x".to_string(), 10, -1);
    writer.complete().unwrap();
    assert!(matches!(writer.complete_step(false), Ok(CompleteStep::Initiate)));
    writer.init_locked(Ok(plan("u", 1))).unwrap();
    assert!(matches!(writer.complete_step(false), Ok(CompleteStep::UploadFinal { .. })));
    writer.final_part_uploaded(0, "e".to_string());
    let (_, parts) = writer.finish().unwrap();
    assert!(parts.is_empty());
}

#[test]
fn completing_needs_parts() {
    let mut writer = StreamWriter::new("/x".to_string(), 10, -1);
    writer.complete().unwrap();
    let never = writer.complete_step(true).unwrap_err();
    assert_eq!(never.to_string(), "stream writer was never started");

    let mut empty = StreamWriter::new("/x".to_string(), 10, -1);
    empty.init_locked(Ok(plan("u", 1))).unwrap();
    empty.complete().unwrap();
    assert_eq!(empty.complete().unwrap_err().to_string(), "stream writer is closing");
    let none = empty.finish().unwrap_err();
    assert_eq!(none.to_string(), "no parts uploaded in stream upload");
}

#[test]
fn the_first_failure_sticks() {
    let mut writer = StreamWriter::new("/x".to_string(), 200, -1);
    offer(&mut writer, 1, plan("u", 2));
    offer(&mut writer, 2, plan("u", 2));
    writer.permit_acquired().unwrap();
    writer.permit_acquired().unwrap();
    writer.part_finished(2, Err(Drive9Error::Request("first".to_string())));
    writer.part_finished(1, Err(Drive9Error::Request("second".to_string())));
    assert_eq!(text(writer.write_part(1).unwrap_err()), "request failed: first");
    writer.complete().unwrap();
    let err = writer.complete_step(false).unwrap_err();
    assert_eq!(err.to_string(), "request failed: first");
}

#[test]
fn completing_waits_for_parts_in_flight() {
    let mut writer = StreamWriter::new("/x".to_string(), 100, -1);
    offer(&mut writer, 1, plan("u", 1));
    assert!(!writer.wait_inflight());
    writer.permit_acquired().unwrap();
    writer.complete().unwrap();
    assert!(matches!(writer.complete_step(true), Ok(CompleteStep::Wait)));
    writer.part_finished(1, Ok("e".to_string()));
    assert!(matches!(writer.complete_step(true), Ok(CompleteStep::Finish)));
}
