use cordx_upload::completion::Completion;
use cordx_upload::config::{initialize, ConfigError};
use cordx_upload::driver::{step, DriverState, DriverStep, WatchInput};
use cordx_upload::event::{classify, AccessMode, Action, FsEventKind, RawFsEvent};
use cordx_upload::upload::{
    file_name_of, prepare_upload, upload_outcome, upload_url, HttpReply, UploadRequest, UploadResult,
    DEFAULT_FILE_NAME, MAX_FILE_SIZE_BYTES, MULTIPART_CONTENT_TYPE,
};
use cordx_upload::{complete, AppConfig, NOTIFY_BODY_PREFIX, NOTIFY_SUMMARY};

fn config() -> AppConfig {
    initialize("https://host", "/tmp/shots", "1234567890", "topsecret", true).unwrap()
}

fn event(kind: FsEventKind, paths: &[&str]) -> RawFsEvent {
    RawFsEvent { kind, paths: paths.iter().map(|p| p.to_string()).collect() }
}

fn contains_run(whole: &[u8], part: &[u8]) -> bool {
    part.is_empty() || whole.windows(part.len()).any(|w| w == part)
}

/// An endpoint that answers every multipart request with a file part by
/// status 200 and a fixed link, and anything else by 400.
fn mock_endpoint(req: &UploadRequest, link: &str) -> HttpReply {
    let has_file_part = req.content_type.starts_with(MULTIPART_CONTENT_TYPE)
        && contains_run(&req.body, b"Content-Disposition: form-data; name=\"sharex\"; filename=\"");
    if has_file_part {
        HttpReply::Status { code: 200, url: Some(link.to_string()) }
    } else {
        HttpReply::Status { code: 400, url: None }
    }
}

#[test]
fn initialize_keeps_the_arguments() {
    let c = config();
    assert_eq!(c.domain, "https://host");
    assert_eq!(c.path, "/tmp/shots");
    assert_eq!(c.userid, "1234567890");
    assert_eq!(c.secret, "topsecret");
}

#[test]
fn initialize_twice_gives_equal_configs() {
    let a = config();
    let b = config();
    assert_eq!(a.domain, b.domain);
    assert_eq!(a.path, b.path);
    assert_eq!(a.userid, b.userid);
    assert_eq!(a.secret, b.secret);
    let s = a.snapshot();
    assert_eq!(s.domain, a.domain);
    assert_eq!(s.secret, a.secret);
}

#[test]
fn initialize_rejects_each_bad_input() {
    assert_eq!(initialize("", "/p", "u", "s", true).unwrap_err(), ConfigError::EmptyDomain);
    assert_eq!(initialize("d", "", "u", "s", true).unwrap_err(), ConfigError::EmptyPath);
    assert_eq!(initialize("d", "/p", "", "s", true).unwrap_err(), ConfigError::EmptyUserId);
    assert_eq!(initialize("d", "/p", "u", "", true).unwrap_err(), ConfigError::EmptySecret);
    assert_eq!(initialize("d", "/p", "u", "s", false).unwrap_err(), ConfigError::NotADirectory);
    assert_eq!(initialize("", "", "", "", false).unwrap_err(), ConfigError::EmptyDomain);
}

#[test]
fn classify_ignores_every_other_kind() {
    let kinds = [
        FsEventKind::Any,
        FsEventKind::Created,
        FsEventKind::Modified,
        FsEventKind::Removed,
        FsEventKind::AccessOpen(AccessMode::Write),
        FsEventKind::AccessClose(AccessMode::Read),
        FsEventKind::AccessClose(AccessMode::Any),
        FsEventKind::AccessClose(AccessMode::Execute),
        FsEventKind::AccessClose(AccessMode::Other),
        FsEventKind::AccessOther,
        FsEventKind::Other,
    ];
    for kind in kinds {
        assert_eq!(classify(event(kind, &["/tmp/shots/a.png"])), Action::Ignore);
    }
}

#[test]
fn classify_uploads_every_path_of_a_write_close() {
    let e = event(FsEventKind::AccessClose(AccessMode::Write), &["/tmp/a.png", "/tmp/b.png", "/tmp/a.png"]);
    assert_eq!(
        classify(e),
        Action::Upload(vec!["/tmp/a.png".to_string(), "/tmp/b.png".to_string(), "/tmp/a.png".to_string()])
    );
}

#[test]
fn file_name_is_the_final_segment() {
    assert_eq!(file_name_of("/tmp/shots/shot1.png"), "shot1.png");
    assert_eq!(file_name_of("shot2.jpg"), "shot2.jpg");
    assert_eq!(file_name_of("/"), DEFAULT_FILE_NAME);
    assert_eq!(file_name_of("/tmp/shots/.."), "file_to_upload.txt");
}

#[test]
fn upload_url_appends_the_route() {
    assert_eq!(upload_url("https://host"), "https://host/api/upload/sharex");
}

#[test]
fn unreadable_file_is_a_read_error() {
    assert_eq!(prepare_upload(&config(), "/tmp/shots/x.png", None).unwrap_err(), UploadResult::ReadError);
}

#[test]
fn file_one_byte_over_the_ceiling_is_too_large() {
    let content = vec![0u8; MAX_FILE_SIZE_BYTES + 1];
    assert_eq!(prepare_upload(&config(), "/tmp/shots/big.png", Some(content)).unwrap_err(), UploadResult::TooLarge);
}

#[test]
fn empty_file_is_uploaded() {
    let req = prepare_upload(&config(), "/tmp/shots/empty.png", Some(Vec::new())).unwrap();
    assert!(contains_run(&req.body, b"filename=\"empty.png\""));
    assert!(req.content_type.starts_with(MULTIPART_CONTENT_TYPE));
    assert!(!req.body.is_empty());
}

#[test]
fn request_carries_headers_and_framed_bytes() {
    let content: Vec<u8> = (0..=255u8).collect();
    let req = prepare_upload(&config(), "/tmp/shots/pic.png", Some(content.clone())).unwrap();
    assert_eq!(req.url, "https://host/api/upload/sharex");
    assert_eq!(req.userid, "1234567890");
    assert_eq!(req.secret, "topsecret");
    assert!(req.content_type.starts_with("multipart/form-data; boundary="));
    assert!(req.body.len() > content.len());
    assert!(contains_run(&req.body, &content));
    let mut framed = b"Content-Disposition: form-data; name=\"sharex\"; filename=\"pic.png\"\r\nContent-Type: image/png\r\n\r\n".to_vec();
    framed.extend_from_slice(&content);
    assert!(contains_run(&req.body, &framed));
}

#[test]
fn reply_outcomes() {
    assert_eq!(upload_outcome(HttpReply::TransportFailed), UploadResult::TransportError);
    assert_eq!(upload_outcome(HttpReply::Status { code: 404, url: None }), UploadResult::NonOkStatus(404));
    assert_eq!(
        upload_outcome(HttpReply::Status { code: 201, url: Some("https://host/z".to_string()) }),
        UploadResult::NonOkStatus(201)
    );
    assert_eq!(upload_outcome(HttpReply::Status { code: 200, url: None }), UploadResult::DecodeError);
    assert_eq!(
        upload_outcome(HttpReply::Status { code: 200, url: Some("https://host/y".to_string()) }),
        UploadResult::Success { url: "https://host/y".to_string() }
    );
}

#[test]
fn link_goes_to_clipboard_and_notification() {
    let result = upload_outcome(HttpReply::Status { code: 200, url: Some("https://host/q7".to_string()) });
    match complete(result) {
        Completion::Deliver { clipboard, summary, body } => {
            assert_eq!(clipboard, "https://host/q7");
            assert_eq!(summary, NOTIFY_SUMMARY);
            assert_eq!(body, format!("{}https://host/q7", NOTIFY_BODY_PREFIX));
            assert!(body.contains("https://host/q7"));
        }
        other => panic!("unexpected {:?}", other),
    }
}

#[test]
fn failures_are_only_reported() {
    for r in [UploadResult::TooLarge, UploadResult::ReadError, UploadResult::TransportError, UploadResult::NonOkStatus(503), UploadResult::DecodeError] {
        assert_eq!(complete(r.clone()), Completion::Report(r));
    }
}

#[test]
fn round_trip_with_fixed_link() {
    let link = "https://host/fixed".to_string();
    for n in [0usize, 1, 10 * 1024] {
        let req = prepare_upload(&config(), "/tmp/shots/f.png", Some(vec![7u8; n])).unwrap();
        let r = upload_outcome(mock_endpoint(&req, &link));
        assert_eq!(r, UploadResult::Success { url: link.clone() });
    }
    let big = prepare_upload(&config(), "/tmp/shots/f.png", Some(vec![7u8; MAX_FILE_SIZE_BYTES + 1]));
    assert_eq!(big.unwrap_err(), UploadResult::TooLarge);
}

#[test]
fn scenario_write_close_of_a_screenshot() {
    let (state, next) = step(
        DriverState::Watching,
        WatchInput::Event(event(FsEventKind::AccessClose(AccessMode::Write), &["/tmp/shots/shot1.png"])),
    );
    assert_eq!(state, DriverState::Watching);
    let paths = match next {
        DriverStep::Upload(paths) => paths,
        other => panic!("unexpected {:?}", other),
    };
    assert_eq!(paths, vec!["/tmp/shots/shot1.png".to_string()]);
    let req = prepare_upload(&config(), &paths[0], Some(vec![1u8; 10 * 1024])).unwrap();
    assert_eq!(req.url, "https://host/api/upload/sharex");
    assert!(contains_run(&req.body, b"filename=\"shot1.png\""));
    let result = upload_outcome(mock_endpoint(&req, "https://host/x1"));
    match complete(result) {
        Completion::Deliver { clipboard, body, .. } => {
            assert_eq!(clipboard, "https://host/x1");
            assert!(body.contains("https://host/x1"));
        }
        other => panic!("unexpected {:?}", other),
    }
}

#[test]
fn scenario_file_of_600_mib() {
    let content = vec![0u8; 600 * 1024 * 1024];
    let r = prepare_upload(&config(), "/tmp/shots/huge.png", Some(content)).unwrap_err();
    assert_eq!(r, UploadResult::TooLarge);
    assert_eq!(complete(r), Completion::Report(UploadResult::TooLarge));
}

#[test]
fn scenario_server_error() {
    let req = prepare_upload(&config(), "/tmp/shots/shot1.png", Some(vec![1u8; 10 * 1024]));
    assert!(req.is_ok());
    let r = upload_outcome(HttpReply::Status { code: 500, url: None });
    assert_eq!(r, UploadResult::NonOkStatus(500));
    assert_eq!(complete(r), Completion::Report(UploadResult::NonOkStatus(500)));
}

#[test]
fn scenario_modified_event_is_ignored() {
    let e = event(FsEventKind::Modified, &["/tmp/shots/shot1.png"]);
    assert_eq!(classify(e.clone()), Action::Ignore);
    let (state, next) = step(DriverState::Watching, WatchInput::Event(e));
    assert_eq!(state, DriverState::Watching);
    assert_eq!(next, DriverStep::LogIgnored(FsEventKind::Modified));
}

#[test]
fn driver_transitions() {
    assert_eq!(step(DriverState::Watching, WatchInput::WatchError), (DriverState::Watching, DriverStep::LogWatchError));
    assert_eq!(step(DriverState::Watching, WatchInput::StreamEnded), (DriverState::Terminated, DriverStep::Stop));
    assert_eq!(step(DriverState::Watching, WatchInput::WatcherFailed), (DriverState::Terminated, DriverStep::Stop));
    let e = event(FsEventKind::AccessClose(AccessMode::Write), &["/tmp/a.png"]);
    assert_eq!(step(DriverState::Terminated, WatchInput::Event(e)), (DriverState::Terminated, DriverStep::Idle));
}
