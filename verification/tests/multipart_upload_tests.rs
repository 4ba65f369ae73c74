use aws_client::multipart_upload::announce_chunked_upload;
use aws_client::multipart_upload::file_missing_message;
use aws_client::multipart_upload::report_chunked_upload;
use aws_client::multipart_upload::MultipartUpload;
use aws_client::multipart_upload::UploadAction;
use aws_client::multipart_upload::UploadError;
use aws_client::multipart_upload::UploadEvent;
use aws_client::multipart_upload::UploadState;
use aws_client::output_printer::DefaultPrinter;
use aws_client::upload_files::PlanError;

const MIB: u64 = 1024 * 1024;

fn started(file_size: u64, chunk_size: u64) -> (MultipartUpload, UploadAction) {
    let (mut upload, action) = MultipartUpload::begin(file_size, chunk_size).unwrap();
    assert!(matches!(action, UploadAction::CreateUpload));
    assert_eq!(upload.state(), UploadState::Initiated);
    let first = upload.step(UploadEvent::UploadCreated { upload_id: "upload-1".to_string() });
    (upload, first)
}

fn expect_part(action: UploadAction, number: i32, at: u64, size: u64) {
    match action {
        UploadAction::UploadPart { upload_id, part_number, offset, length } => {
            assert_eq!(upload_id, "upload-1");
            assert_eq!(part_number, number);
            assert_eq!(offset, at);
            assert_eq!(length, size);
        }
        other => panic!("expected a part request, got {:?}", other),
    }
}

#[test]
fn upload_of_empty_file_is_refused_before_any_request() {
    assert!(matches!(MultipartUpload::begin(0, 5 * MIB), Err(PlanError::EmptyFile)));
}

#[test]
fn upload_with_too_many_chunks_is_refused_before_any_request() {
    assert!(matches!(MultipartUpload::begin(10001, 1), Err(PlanError::TooManyChunks)));
}

#[test]
fn upload_runs_through_every_part_and_finalizes_in_order() {
    let (mut upload, first) = started(2 * MIB + 7, MIB);
    assert_eq!(upload.plan().chunk_count, 3);
    assert_eq!(upload.state(), UploadState::PartsUploading);
    expect_part(first, 1, 0, MIB);
    let second = upload.step(UploadEvent::PartUploaded { completion_tag: Some("tag-a".to_string()) });
    expect_part(second, 2, MIB, MIB);
    assert_eq!(upload.recorded_parts(), 1);
    let third = upload.step(UploadEvent::PartUploaded { completion_tag: None });
    expect_part(third, 3, 2 * MIB, 7);
    assert_eq!(upload.recorded_parts(), 2);
    let closing = upload.step(UploadEvent::PartUploaded { completion_tag: Some("tag-c".to_string()) });
    match closing {
        UploadAction::Finalize { upload_id, parts } => {
            assert_eq!(upload_id, "upload-1");
            let handed: Vec<(i32, &str)> =
                parts.iter().map(|p| (p.part_number, p.completion_tag.as_str())).collect();
            assert_eq!(handed, vec![(1, "tag-a"), (2, ""), (3, "tag-c")]);
        }
        other => panic!("expected the closing call, got {:?}", other),
    }
    assert_eq!(upload.state(), UploadState::Finalizing);
    assert_eq!(upload.recorded_parts(), 0);
    let end = upload.step(UploadEvent::Finalized);
    assert!(matches!(end, UploadAction::ReportSuccess));
    assert_eq!(upload.state(), UploadState::Completed);
    assert!(matches!(upload.step(UploadEvent::Finalized), UploadAction::Nothing));
    assert_eq!(upload.state(), UploadState::Completed);
}

#[test]
fn single_chunk_upload_finalizes_after_one_part() {
    let (mut upload, first) = started(5, 10);
    expect_part(first, 1, 0, 5);
    let closing = upload.step(UploadEvent::PartUploaded { completion_tag: Some("t".to_string()) });
    match closing {
        UploadAction::Finalize { parts, .. } => {
            assert_eq!(parts.len(), 1);
            assert_eq!(parts[0].part_number, 1);
            assert_eq!(parts[0].completion_tag, "t");
        }
        other => panic!("expected the closing call, got {:?}", other),
    }
}

#[test]
fn failure_of_part_three_of_five_aborts_without_finalize() {
    let (mut upload, first) = started(5 * MIB, MIB);
    assert_eq!(upload.plan().chunk_count, 5);
    expect_part(first, 1, 0, MIB);
    let second = upload.step(UploadEvent::PartUploaded { completion_tag: Some("t1".to_string()) });
    expect_part(second, 2, MIB, MIB);
    let third = upload.step(UploadEvent::PartUploaded { completion_tag: Some("t2".to_string()) });
    expect_part(third, 3, 2 * MIB, MIB);
    assert_eq!(upload.recorded_parts(), 2);
    let failed = upload.step(UploadEvent::PartFailed { cause: "connection reset".to_string() });
    match failed {
        UploadAction::ReportFailure(UploadError::PartFailed { part_number, cause }) => {
            assert_eq!(part_number, 3);
            assert_eq!(cause, "connection reset");
        }
        other => panic!("expected a failure report, got {:?}", other),
    }
    assert_eq!(upload.state(), UploadState::Aborted);
    assert_eq!(upload.recorded_parts(), 0);
    let events = vec![
        UploadEvent::PartUploaded { completion_tag: Some("t3".to_string()) },
        UploadEvent::PartUploaded { completion_tag: Some("t4".to_string()) },
        UploadEvent::PartUploaded { completion_tag: Some("t5".to_string()) },
        UploadEvent::Finalized,
        UploadEvent::UploadCreated { upload_id: "again".to_string() },
    ];
    for event in events {
        let action = upload.step(event);
        assert!(matches!(action, UploadAction::Nothing));
        assert!(!matches!(action, UploadAction::Finalize { .. }));
        assert_eq!(upload.state(), UploadState::Aborted);
        assert_eq!(upload.recorded_parts(), 0);
    }
}

#[test]
fn failure_to_open_the_upload_aborts() {
    let (mut upload, _) = MultipartUpload::begin(10, 3).unwrap();
    let action = upload.step(UploadEvent::CreateFailed { cause: "denied".to_string() });
    match action {
        UploadAction::ReportFailure(UploadError::StartFailed { cause }) => assert_eq!(cause, "denied"),
        other => panic!("expected a failure report, got {:?}", other),
    }
    assert_eq!(upload.state(), UploadState::Aborted);
}

#[test]
fn failure_of_the_closing_call_fails_the_upload() {
    let (mut upload, _) = started(4, 4);
    let closing = upload.step(UploadEvent::PartUploaded { completion_tag: Some("t".to_string()) });
    assert!(matches!(closing, UploadAction::Finalize { .. }));
    let action = upload.step(UploadEvent::FinalizeFailed { cause: "bad tag".to_string() });
    match action {
        UploadAction::ReportFailure(UploadError::FinalizeFailed { cause }) => assert_eq!(cause, "bad tag"),
        other => panic!("expected a failure report, got {:?}", other),
    }
    assert_eq!(upload.state(), UploadState::Aborted);
    assert!(matches!(upload.step(UploadEvent::Finalized), UploadAction::Nothing));
}

#[test]
fn report_out_of_turn_aborts() {
    let (mut upload, _) = MultipartUpload::begin(10, 3).unwrap();
    let action = upload.step(UploadEvent::PartUploaded { completion_tag: None });
    assert!(matches!(action, UploadAction::ReportFailure(UploadError::OutOfTurn)));
    assert_eq!(upload.state(), UploadState::Aborted);

    let (mut upload, _) = started(10, 3);
    let action = upload.step(UploadEvent::Finalized);
    assert!(matches!(action, UploadAction::ReportFailure(UploadError::OutOfTurn)));
    assert_eq!(upload.state(), UploadState::Aborted);

    let (mut upload, _) = started(3, 3);
    let _ = upload.step(UploadEvent::PartUploaded { completion_tag: None });
    let action = upload.step(UploadEvent::PartUploaded { completion_tag: None });
    assert!(matches!(action, UploadAction::ReportFailure(UploadError::OutOfTurn)));
    assert_eq!(upload.state(), UploadState::Aborted);
}

#[test]
fn upload_error_messages() {
    assert_eq!(
        UploadError::StartFailed { cause: "X".to_string() }.message(),
        "Cannot start multi part upload X."
    );
    assert_eq!(
        UploadError::PartFailed { part_number: 12, cause: "X".to_string() }.message(),
        "Cannot upload part 12 X."
    );
    assert_eq!(
        UploadError::FinalizeFailed { cause: "X".to_string() }.message(),
        "Cannot complete multi part upload X."
    );
    assert_eq!(UploadError::OutOfTurn.message(), "Unexpected report for multi part upload.");
    assert_eq!(file_missing_message("a.bin"), "Cannot find file a.bin.");
}

#[test]
fn chunked_upload_is_announced_and_reported() {
    let mut printer = DefaultPrinter::new(None);
    announce_chunked_upload(&mut printer, "my-bucket");
    report_chunked_upload(&mut printer, "a.bin");
    let texts: Vec<&str> = printer.lines.iter().map(|l| l.text.as_str()).collect();
    assert_eq!(texts, vec!["Uploading to my-bucket", "File a.bin uploaded successfully"]);
    assert_eq!(printer.success, 2);
    assert_eq!(printer.error, 0);
}
