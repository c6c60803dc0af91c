use std::path::PathBuf;

use twitch_youtube_sync::{metadata_body, session_uri, NegotiationError, Video};

fn video(name: &str, description: &str) -> Video {
    Video {
        name: name.to_string(),
        description: description.to_string(),
        path: PathBuf::from("videos/1.mp4"),
        size: 42,
    }
}

#[test]
fn no_location_is_a_negotiation_error() {
    assert_eq!(session_uri(200, None), Err(NegotiationError::NoLocation));
}

#[test]
fn location_of_success_is_the_session() {
    let uri = "https://www.googleapis.com/upload/youtube/v3/videos?upload_id=xyz".to_string();
    assert_eq!(session_uri(200, Some(uri.clone())), Ok(uri.clone()));
    assert_eq!(session_uri(201, Some(uri.clone())), Ok(uri));
}

#[test]
fn non_2xx_is_rejected() {
    assert_eq!(
        session_uri(401, Some("https://x".to_string())),
        Err(NegotiationError::Rejected { status: 401 })
    );
    assert_eq!(session_uri(308, None), Err(NegotiationError::Rejected { status: 308 }));
}

#[test]
fn metadata_body_is_exact() {
    assert_eq!(
        metadata_body(&video("582619810", "My stream")),
        "{\"snippet\":{\"title\":\"582619810\",\"description\":\"My stream\",\"tags\":[\"gaming\",\"twitch\",\"live stream\"],\"categoryId\":20},\"status\":{\"privacyStatus\":\"private\"}}"
    );
}

#[test]
fn metadata_body_escapes_text() {
    let body = metadata_body(&video("say \"hi\"", "line\nbreak"));
    assert!(body.starts_with("{\"snippet\":{\"title\":\"say \\\"hi\\\"\",\"description\":\"line\\nbreak\","));
    let parsed: serde_json::Value = serde_json::from_str(&body).unwrap();
    assert_eq!(parsed["snippet"]["title"], "say \"hi\"");
    assert_eq!(parsed["snippet"]["description"], "line\nbreak");
}
