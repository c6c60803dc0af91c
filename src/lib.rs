//! Resumable video upload with OAuth2 credential management.
//!
//! The library holds the decisions of the resumable upload protocol and of
//! the credential lifecycle as verified state machines: each step takes the
//! outcome of the last request and names the next one. The program around it
//! performs the network and file work that the machines ask for.

pub mod auth;
pub mod decimal;
pub mod download;
pub mod form;
pub mod json;
pub mod negotiate;
pub mod upload;
pub mod video;
pub mod wire;

pub use auth::{
    parse_client_secrets, parse_device_code, parse_token_reply, read_token_store, token_store_contents,
    AuthError, AuthEvent, AuthRequest, AuthState, ClientSecret, Credential, CredentialManager, DeviceCode,
    DEVICE_CODE_ENDPOINT, TOKEN_ENDPOINT,
};
pub use decimal::{decimal_string, parse_decimal};
pub use download::{
    client_id_from_page, downloaded_video, m3u8_url, vod_access_from_reply, vod_access_url, HOME_PAGE,
};
pub use negotiate::{
    metadata_body, session_uri, NegotiationError, METADATA_CONTENT_TYPE, UPLOAD_ENDPOINT, UPLOAD_PARTS,
    UPLOAD_TYPE, VIDEO_CONTENT_TYPE,
};
pub use upload::{TransferError, UploadEvent, UploadRequest, UploadSession, UploadState};
pub use video::Video;
pub use wire::{probe_content_range_header, resume_content_range_header, resume_offset};
