use vstd::prelude::*;

use crate::form::{encode, form_encoded, pairs_view};
use crate::json::{json_str_at, string_at};
use crate::video::Video;

verus! {

/// The page whose source names the public client id.
pub const HOME_PAGE: &'static str = "https://www.twitch.tv/";

/// Where in the home page the client id stands.
pub const CLIENT_ID_PATTERN: &'static str = "\"Client-ID\":\"(.*?)\"";

/// The description given to a downloaded video.
pub const DEFAULT_DESCRIPTION: &'static str = "This is my description";

/// The text of the first capture group of the first match of a regular
/// expression in a text; `None` when the expression is invalid or does not
/// match.
pub uninterp spec fn regex_first_capture(pattern: Seq<char>, text: Seq<char>) -> Option<Seq<char>>;

/// Relies on `regex::Regex::new` and `Regex::captures`: the first capture
/// group of the first match of `pattern` in `text`.
#[verifier::external_body]
fn first_capture(pattern: &str, text: &str) -> (r: Option<String>)
    ensures
        match r {
            Some(s) => regex_first_capture(pattern@, text@) == Some(s@),
            None => regex_first_capture(pattern@, text@) == None::<Seq<char>>,
        },
{
    let re = regex::Regex::new(pattern).ok()?;
    re.captures(text)?.get(1).map(|m| m.as_str().to_string())
}

/// The client id named in the home page's source.
pub fn client_id_from_page(page: &str) -> (r: Option<String>)
    ensures
        match r {
            Some(s) => regex_first_capture(CLIENT_ID_PATTERN@, page@) == Some(s@),
            None => regex_first_capture(CLIENT_ID_PATTERN@, page@) == None::<Seq<char>>,
        },
{
    first_capture(CLIENT_ID_PATTERN, page)
}

/// Where the playback token of the stored video `video_id` is asked for.
pub open spec fn access_token_url(video_id: Seq<char>) -> Seq<char> {
    "https://api.twitch.tv/api/vods/"@ + video_id + "/access_token"@
}

/// Where the playback token of a stored video is asked for.
pub fn vod_access_url(video_id: &str) -> (r: String)
    ensures
        r@ == access_token_url(video_id@),
{
    let mut r = String::from_str("https://api.twitch.tv/api/vods/");
    r.append(video_id);
    r.append("/access_token");
    r
}

/// The playback token and its signature from the reply of the token
/// request; `None` unless both are strings there.
pub fn vod_access_from_reply(body: &str) -> (r: Option<(String, String)>)
    ensures
        match r {
            Some((token, sig)) => json_str_at(body@, "/token"@) == Some(token@)
                && json_str_at(body@, "/sig"@) == Some(sig@),
            None => json_str_at(body@, "/token"@) is None || json_str_at(body@, "/sig"@) is None,
        },
{
    match (string_at(body, "/token"), string_at(body, "/sig")) {
        (Some(token), Some(sig)) => Some((token, sig)),
        _ => None,
    }
}

/// The source-quality playlist of a stored video, given its playback token.
pub open spec fn playlist_url(video_id: Seq<char>, token: Seq<char>, sig: Seq<char>) -> Seq<char> {
    "https://usher.ttvnw.net/vod/"@ + video_id + ".m3u8?&"@
        + form_encoded(seq![("allow_source"@, "true"@), ("token"@, token), ("sig"@, sig)])
}

/// The playlist of a stored video at source quality.
pub fn m3u8_url(video_id: &str, token: &str, sig: &str) -> (r: String)
    ensures
        r@ == playlist_url(video_id@, token@, sig@),
{
    let pairs = [("allow_source", "true"), ("token", token), ("sig", sig)];
    assert(pairs_view(pairs@) =~= seq![("allow_source"@, "true"@), ("token"@, token@), ("sig"@, sig@)]);
    let query = encode(&pairs);
    let mut r = String::from_str("https://usher.ttvnw.net/vod/");
    r.append(video_id);
    r.append(".m3u8?&");
    r.append(query.as_str());
    r
}

/// The video that a download of `video_id` to `path` produced, `size` bytes
/// long.
pub fn downloaded_video(video_id: &str, path: std::path::PathBuf, size: u64) -> (r: Video)
    ensures
        r.name@ == video_id@,
        r.description@ == DEFAULT_DESCRIPTION@,
        r.path == path,
        r.size == size,
{
    Video {
        name: String::from_str(video_id),
        description: String::from_str(DEFAULT_DESCRIPTION),
        path,
        size,
    }
}

} // verus!
