use std::path::PathBuf;

use twitch_youtube_sync::{
    TransferError, UploadEvent, UploadRequest, UploadSession, UploadState, Video,
};

fn session(size: u64) -> UploadSession {
    let video = Video {
        name: "582619810".to_string(),
        description: "a stream".to_string(),
        path: PathBuf::from("videos/582619810.mp4"),
        size,
    };
    UploadSession::new(video, "token".to_string(), "https://upload.example/session".to_string())
}

fn probe_reply(status: u16, range: Option<&str>) -> UploadEvent {
    UploadEvent::ProbeReplied { status, range: range.map(|r| r.to_string()), body: String::new() }
}

fn put_reply(status: u16, body: &str) -> UploadEvent {
    UploadEvent::PutReplied { status, body: body.to_string() }
}

#[test]
fn upload_starts_with_whole_file() {
    let s = session(5000000);
    let (state, request) = s.upload();
    assert_eq!(state, UploadState::Uploading { offset: 0 });
    assert_eq!(request, UploadRequest::SendAll { total: 5000000 });
    assert_eq!(request.content_length(), 5000000);
    assert_eq!(request.content_range(), None);
}

#[test]
fn dropped_connection_then_resume_succeeds() {
    let s = session(5000000);
    let (state, _) = s.upload();
    let (state, request) = s.step(state, UploadEvent::PutBroken);
    assert_eq!(state, UploadState::Interrupted { confirmed: 0 });
    assert_eq!(request, UploadRequest::Probe { total: 5000000 });
    assert_eq!(request.content_length(), 0);
    assert_eq!(request.content_range(), Some("bytes */5000000".to_string()));
    let (state, request) = s.step(state, probe_reply(308, Some("bytes=0-2999999")));
    assert_eq!(state, UploadState::Uploading { offset: 3000000 });
    assert_eq!(request, UploadRequest::SendFrom { offset: 3000000, total: 5000000 });
    assert_eq!(request.content_range(), Some("bytes 3000000-4999999/5000000".to_string()));
    assert_eq!(request.content_length(), 2000000);
    let (state, request) = s.step(state, put_reply(201, "{}"));
    assert_eq!(state, UploadState::Succeeded);
    assert_eq!(request, UploadRequest::Stop);
}

#[test]
fn many_interruptions_then_success() {
    let s = session(1000);
    let (mut state, _) = s.upload();
    let ranges = ["bytes=0-99", "bytes=0-99", "bytes=0-499", "bytes=0-998"];
    for (i, range) in ranges.iter().enumerate() {
        let event = if i % 2 == 0 { put_reply(308, "") } else { UploadEvent::PutBroken };
        let (next, request) = s.step(state, event);
        assert!(matches!(request, UploadRequest::Probe { total: 1000 }));
        let (next, request) = s.step(next, probe_reply(308, Some(range)));
        assert!(matches!(request, UploadRequest::SendFrom { .. }));
        state = next;
    }
    assert_eq!(state, UploadState::Uploading { offset: 999 });
    let (state, _) = s.step(state, put_reply(200, ""));
    assert_eq!(state, UploadState::Succeeded);
}

#[test]
fn probe_without_range_resumes_from_zero() {
    let s = session(10);
    let (state, _) = s.step(UploadState::Interrupted { confirmed: 0 }, probe_reply(308, None));
    assert_eq!(state, UploadState::Uploading { offset: 0 });
}

#[test]
fn probe_repeated_gives_same_request() {
    let s = session(5000);
    let (first_state, first_request) =
        s.step(UploadState::Interrupted { confirmed: 0 }, probe_reply(308, Some("bytes=0-999")));
    let (second_state, second_request) =
        s.step(UploadState::Interrupted { confirmed: 1000 }, probe_reply(308, Some("bytes=0-999")));
    assert_eq!(first_state, second_state);
    assert_eq!(first_request, second_request);
    assert_eq!(first_request, UploadRequest::SendFrom { offset: 1000, total: 5000 });
}

#[test]
fn lost_probe_is_sent_again() {
    let s = session(10);
    let (state, request) = s.step(UploadState::Interrupted { confirmed: 4 }, UploadEvent::ProbeBroken);
    assert_eq!(state, UploadState::Interrupted { confirmed: 4 });
    assert_eq!(request, UploadRequest::Probe { total: 10 });
}

#[test]
fn probe_reporting_completion_succeeds() {
    let s = session(10);
    let (state, request) = s.step(UploadState::Interrupted { confirmed: 4 }, probe_reply(200, None));
    assert_eq!(state, UploadState::Succeeded);
    assert_eq!(request, UploadRequest::Stop);
}

#[test]
fn rejected_put_fails_with_status_and_body() {
    let s = session(10);
    let (state, request) = s.step(UploadState::Uploading { offset: 0 }, put_reply(400, "bad request"));
    assert_eq!(
        state,
        UploadState::Failed {
            reason: TransferError::Rejected { status: 400, body: "bad request".to_string() }
        }
    );
    assert_eq!(request, UploadRequest::Stop);
}

#[test]
fn rejected_probe_fails() {
    let s = session(10);
    let (state, _) = s.step(UploadState::Interrupted { confirmed: 0 }, probe_reply(404, None));
    assert!(matches!(state, UploadState::Failed { reason: TransferError::Rejected { status: 404, .. } }));
}

#[test]
fn malformed_range_fails() {
    let s = session(10);
    let (state, _) = s.step(UploadState::Interrupted { confirmed: 0 }, probe_reply(308, Some("bytes=5-9")));
    assert_eq!(state, UploadState::Failed { reason: TransferError::MalformedRange });
}

#[test]
fn range_going_back_fails() {
    let s = session(10);
    let (state, _) = s.step(UploadState::Interrupted { confirmed: 6 }, probe_reply(308, Some("bytes=0-3")));
    assert_eq!(state, UploadState::Failed { reason: TransferError::RangeOutOfBounds });
}

#[test]
fn range_past_end_fails() {
    let s = session(10);
    let (state, _) = s.step(UploadState::Interrupted { confirmed: 0 }, probe_reply(308, Some("bytes=0-9")));
    assert_eq!(state, UploadState::Failed { reason: TransferError::RangeOutOfBounds });
}

#[test]
fn events_out_of_place_change_nothing() {
    let s = session(10);
    let (state, request) = s.step(UploadState::Succeeded, UploadEvent::PutBroken);
    assert_eq!(state, UploadState::Succeeded);
    assert_eq!(request, UploadRequest::Stop);
    let (state, request) = s.step(UploadState::Uploading { offset: 2 }, probe_reply(308, None));
    assert_eq!(state, UploadState::Uploading { offset: 2 });
    assert_eq!(request, UploadRequest::Stop);
}

#[test]
fn unreadable_file_fails() {
    let s = session(10);
    let (state, request) = s.step(UploadState::Uploading { offset: 3 }, UploadEvent::SourceUnreadable);
    assert_eq!(state, UploadState::Failed { reason: TransferError::SourceUnreadable });
    assert_eq!(request, UploadRequest::Stop);
}
