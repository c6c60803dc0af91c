use vstd::prelude::*;

use crate::json::{json_quoted, quote};
use crate::video::Video;

verus! {

/// Where an upload is registered.
pub const UPLOAD_ENDPOINT: &'static str = "https://www.googleapis.com/upload/youtube/v3/videos";

/// Value of the `uploadType` query parameter: a resumable upload.
pub const UPLOAD_TYPE: &'static str = "resumable";

/// Value of the `part` query parameter: the parts of the metadata sent.
pub const UPLOAD_PARTS: &'static str = "snippet,status,contentDetails";

/// Content type of the metadata body.
pub const METADATA_CONTENT_TYPE: &'static str = "application/json; charset=UTF-8";

/// Content type declared for the video bytes.
pub const VIDEO_CONTENT_TYPE: &'static str = "video/*";

/// Why no upload session was opened.
#[derive(Clone, Copy, Debug, PartialEq, Eq)]
pub enum NegotiationError {
    /// The server answered with a status outside `2xx`.
    Rejected { status: u16 },
    /// The server accepted but sent no `Location` header.
    NoLocation,
}

/// The metadata that registers a video: title and description, fixed tags
/// and category, published as private.
pub open spec fn metadata_json(title: Seq<char>, description: Seq<char>) -> Seq<char> {
    "{\"snippet\":{\"title\":"@ + json_quoted(title) + ",\"description\":"@ + json_quoted(description)
        + ",\"tags\":[\"gaming\",\"twitch\",\"live stream\"],\"categoryId\":20},\"status\":{\"privacyStatus\":\"private\"}}"@
}

/// The outcome of the registration request: the session URI from the
/// `Location` header of a `2xx` reply.
pub open spec fn negotiated(status: u16, location: Option<String>) -> Result<String, NegotiationError> {
    if 200 <= status < 300 {
        match location {
            Some(l) => Ok(l),
            None => Err(NegotiationError::NoLocation),
        }
    } else {
        Err(NegotiationError::Rejected { status })
    }
}

/// The JSON body of the registration request for `video`.
pub fn metadata_body(video: &Video) -> (r: String)
    ensures
        r@ == metadata_json(video.name@, video.description@),
{
    let mut r = String::from_str("{\"snippet\":{\"title\":");
    r.append(quote(video.name.as_str()).as_str());
    r.append(",\"description\":");
    r.append(quote(video.description.as_str()).as_str());
    r.append(",\"tags\":[\"gaming\",\"twitch\",\"live stream\"],\"categoryId\":20},\"status\":{\"privacyStatus\":\"private\"}}");
    r
}

/// Reads the reply to the registration request: its status and its
/// `Location` header, if any.
pub fn session_uri(status: u16, location: Option<String>) -> (r: Result<String, NegotiationError>)
    ensures
        r == negotiated(status, location),
{
    if 200 <= status && status < 300 {
        match location {
            Some(l) => Ok(l),
            None => Err(NegotiationError::NoLocation),
        }
    } else {
        Err(NegotiationError::Rejected { status })
    }
}

} // verus!
