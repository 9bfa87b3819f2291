//! Provider file APIs, kept separate from durable application attachments.
//!
//! A [`ProviderFileRef`] belongs to one concrete profile and account. It may be
//! useful as model input for a particular wire, but it is never a display URL
//! and must not replace the app-owned attachment in conversation history.

pub mod gemini_wire;
pub mod http;
pub mod laws;
pub mod policy;
pub mod rest;
pub mod service;
pub mod types;
pub mod waiting;

pub use http::provider_file_endpoint_fingerprint;
pub use policy::{capabilities, capabilities_for_purpose};
pub use service::{FileService, MAX_PROVIDER_FILE_DOWNLOAD_BYTES};
pub use types::{
    DownloadSupport, FileCapabilities, FileOperation, FilePurpose, ModelFileReference,
    ProviderFileContent, ProviderFileMetadata, ProviderFileMetadataView, ProviderFilePage,
    ProviderFilePageView, ProviderFileRef, ProviderFileRefView, UploadFile,
};
