use std::path::PathBuf;

use twitch_youtube_sync::{client_id_from_page, downloaded_video, m3u8_url, vod_access_from_reply, vod_access_url};

#[test]
fn client_id_found_in_page() {
    let page = r#"<script>window.cfg={"Client-ID":"kimne78kx3ncx6brgo4mv6wki5h1ko","other":"x"}</script>"#;
    assert_eq!(client_id_from_page(page), Some("kimne78kx3ncx6brgo4mv6wki5h1ko".to_string()));
    assert_eq!(client_id_from_page("<html></html>"), None);
}

#[test]
fn access_url() {
    assert_eq!(vod_access_url("582619810"), "https://api.twitch.tv/api/vods/582619810/access_token");
}

#[test]
fn access_reply() {
    assert_eq!(
        vod_access_from_reply(r#"{"token":"{\"a\":1}","sig":"abc"}"#),
        Some(("{\"a\":1}".to_string(), "abc".to_string()))
    );
    assert_eq!(vod_access_from_reply(r#"{"token":"t"}"#), None);
}

#[test]
fn playlist_url_encodes_token() {
    assert_eq!(
        m3u8_url("582619810", "{\"a\":1}", "s g"),
        "https://usher.ttvnw.net/vod/582619810.m3u8?&allow_source=true&token=%7B%22a%22%3A1%7D&sig=s+g"
    );
}

#[test]
fn downloaded_video_fields() {
    let v = downloaded_video("582619810", PathBuf::from("videos/582619810.mp4"), 1234);
    assert_eq!(v.name, "582619810");
    assert_eq!(v.description, "This is my description");
    assert_eq!(v.path, PathBuf::from("videos/582619810.mp4"));
    assert_eq!(v.size, 1234);
}
