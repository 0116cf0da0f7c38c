use s3_multipart::multipart::{Action, Event, Failure, MultipartUpload, PartDescriptor};

fn s(text: &str) -> String {
    text.to_string()
}

fn started() -> MultipartUpload {
    let (upload, action) = MultipartUpload::start(s("bucket"), s("key"));
    assert_eq!(action, Action::Initiate { bucket: s("bucket"), key: s("key") });
    let (upload, action) = upload.step(Event::Initiated {
        upload_id: Some(s("upload-1")),
        bucket: Some(s("bucket")),
    });
    assert_eq!(action, Action::ReadLine);
    upload
}

fn line(text: &str) -> Event {
    Event::LineRead { line: s(text) }
}

fn upload_part(number: i32, path: &str) -> Action {
    Action::UploadPart {
        bucket: s("bucket"),
        key: s("key"),
        upload_id: s("upload-1"),
        part_number: number,
        path: s(path),
    }
}

fn complete(parts: Vec<PartDescriptor>) -> Action {
    Action::Complete { bucket: s("bucket"), key: s("key"), upload_id: s("upload-1"), parts }
}

fn part(number: i32, etag: &str) -> PartDescriptor {
    PartDescriptor { part_number: number, etag: s(etag) }
}

#[test]
fn two_files_then_end_complete_with_both_parts() {
    let upload = started();
    let (upload, action) = upload.step(line("fileA.bin\n"));
    assert_eq!(action, upload_part(1, "fileA.bin"));
    let (upload, action) = upload.step(Event::PartUploaded { etag: Some(s("e1")) });
    assert_eq!(action, Action::ReadLine);
    let (upload, action) = upload.step(line("fileB.bin\n"));
    assert_eq!(action, upload_part(2, "fileB.bin"));
    let (upload, action) = upload.step(Event::PartUploaded { etag: Some(s("e2")) });
    assert_eq!(action, Action::ReadLine);
    let (upload, action) = upload.step(line("END\n"));
    assert_eq!(action, complete(vec![part(1, "e1"), part(2, "e2")]));
    let (upload, action) = upload.step(Event::Completed);
    assert_eq!(action, Action::Finish);
    let (_, action) = upload.step(line("more.bin\n"));
    assert_eq!(action, Action::Halt);
}

#[test]
fn end_first_completes_with_no_parts() {
    let upload = started();
    let (_, action) = upload.step(line("END\n"));
    assert_eq!(action, complete(vec![]));
}

#[test]
fn end_without_terminator_completes() {
    let upload = started();
    let (_, action) = upload.step(line("END"));
    assert_eq!(action, complete(vec![]));
}

#[test]
fn input_end_acts_as_end_line() {
    let upload = started();
    let (upload, _) = upload.step(line("a.bin\n"));
    let (upload, _) = upload.step(Event::PartUploaded { etag: Some(s("t1")) });
    let (_, action) = upload.step(Event::InputEnded);
    assert_eq!(action, complete(vec![part(1, "t1")]));
}

#[test]
fn input_end_first_completes_with_no_parts() {
    let upload = started();
    let (_, action) = upload.step(Event::InputEnded);
    assert_eq!(action, complete(vec![]));
}

#[test]
fn initiate_failure_reports_only_that_error() {
    let (upload, _) = MultipartUpload::start(s("bucket"), s("key"));
    let (upload, action) = upload.step(Event::InitiateFailed { message: s("denied") });
    assert_eq!(action, Action::Fail { failure: Failure::Initiate { message: s("denied") } });
    let (upload, action) = upload.step(line("fileA.bin\n"));
    assert_eq!(action, Action::Halt);
    let (_, action) = upload.step(line("END\n"));
    assert_eq!(action, Action::Halt);
}

#[test]
fn missing_upload_id_fails() {
    let (upload, _) = MultipartUpload::start(s("bucket"), s("key"));
    let (_, action) = upload.step(Event::Initiated { upload_id: None, bucket: Some(s("bucket")) });
    assert_eq!(action, Action::Fail { failure: Failure::MissingUploadId });
}

#[test]
fn confirmed_bucket_is_used_from_then_on() {
    let (upload, _) = MultipartUpload::start(s("requested"), s("key"));
    let (upload, _) = upload.step(Event::Initiated {
        upload_id: Some(s("id-9")),
        bucket: Some(s("confirmed")),
    });
    let (_, action) = upload.step(line("x\n"));
    assert_eq!(
        action,
        Action::UploadPart {
            bucket: s("confirmed"),
            key: s("key"),
            upload_id: s("id-9"),
            part_number: 1,
            path: s("x"),
        }
    );
}

#[test]
fn requested_bucket_kept_when_none_is_confirmed() {
    let (upload, _) = MultipartUpload::start(s("requested"), s("key"));
    let (upload, _) = upload.step(Event::Initiated { upload_id: Some(s("id-9")), bucket: None });
    let (_, action) = upload.step(Event::InputEnded);
    assert_eq!(
        action,
        Action::Complete {
            bucket: s("requested"),
            key: s("key"),
            upload_id: s("id-9"),
            parts: vec![],
        }
    );
}

#[test]
fn part_failure_stops_before_completion() {
    let upload = started();
    let (upload, _) = upload.step(line("a.bin\n"));
    let (upload, _) = upload.step(Event::PartUploaded { etag: Some(s("t1")) });
    let (upload, action) = upload.step(line("b.bin\n"));
    assert_eq!(action, upload_part(2, "b.bin"));
    let (upload, action) = upload.step(Event::PartFailed { message: s("timeout") });
    assert_eq!(
        action,
        Action::Fail { failure: Failure::UploadPart { part_number: 2, message: s("timeout") } }
    );
    let (upload, action) = upload.step(line("END\n"));
    assert_eq!(action, Action::Halt);
    let (_, action) = upload.step(Event::InputEnded);
    assert_eq!(action, Action::Halt);
}

#[test]
fn missing_etag_fails() {
    let upload = started();
    let (upload, _) = upload.step(line("a.bin\n"));
    let (_, action) = upload.step(Event::PartUploaded { etag: None });
    assert_eq!(action, Action::Fail { failure: Failure::MissingEtag { part_number: 1 } });
}

#[test]
fn completion_failure_is_reported() {
    let upload = started();
    let (upload, _) = upload.step(line("END\n"));
    let (upload, action) = upload.step(Event::CompleteFailed { message: s("no parts") });
    assert_eq!(action, Action::Fail { failure: Failure::Complete { message: s("no parts") } });
    let (_, action) = upload.step(Event::Completed);
    assert_eq!(action, Action::Halt);
}

#[test]
fn unexpected_event_fails() {
    let upload = started();
    let (_, action) = upload.step(Event::PartUploaded { etag: Some(s("t")) });
    assert_eq!(action, Action::Fail { failure: Failure::UnexpectedEvent });
}

#[test]
fn sentinel_is_case_sensitive_and_exact() {
    let upload = started();
    let (upload, action) = upload.step(line("end\n"));
    assert_eq!(action, upload_part(1, "end"));
    let (upload, _) = upload.step(Event::PartUploaded { etag: Some(s("t1")) });
    let (_, action) = upload.step(line("END \n"));
    assert_eq!(action, upload_part(2, "END "));
}

#[test]
fn crlf_terminator_is_removed() {
    let upload = started();
    let (upload, action) = upload.step(line("dir/part one.bin\r\n"));
    assert_eq!(action, upload_part(1, "dir/part one.bin"));
    let (upload, _) = upload.step(Event::PartUploaded { etag: Some(s("t1")) });
    let (_, action) = upload.step(line("END\r\n"));
    assert_eq!(action, complete(vec![part(1, "t1")]));
}
