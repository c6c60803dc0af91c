use vstd::prelude::*;

verus! {

/// A path on the local file system; the library only carries it.
#[verifier::external_type_specification]
#[verifier::external_body]
pub struct ExPathBuf(std::path::PathBuf);

/// A media file to upload.
pub struct Video {
    /// Title under which the video is published.
    pub name: String,
    /// Description shown with the video.
    pub description: String,
    /// Where the bytes lie on disk.
    pub path: std::path::PathBuf,
    /// Length of the file in bytes, fixed for the whole upload.
    pub size: u64,
}

} // verus!
