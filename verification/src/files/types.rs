//! Provider file inputs and results.

use crate::protocol::inference;
use crate::protocol::{ProtocolFamily, ProviderFileSource, ProviderFileSourceView};
use vstd::prelude::*;

verus! {

#[derive(Debug, Clone, PartialEq, Eq)]
pub struct UploadFile {
    pub filename: String,
    pub media_type: String,
    pub bytes: Vec<u8>,
}

/// Why a file is being uploaded. The provider-specific purpose field is
/// selected by this library; callers do not need to know wire spellings.
#[derive(Debug, Clone, Copy, PartialEq, Eq, PartialOrd, Ord, Hash, Structural)]
pub enum FilePurpose {
    /// Attach this file to a model request where the provider documents it.
    ModelInput,
    /// Upload a file for Moonshot's text/OCR extraction service.
    Extraction,
    /// Upload an auxiliary file for a documented provider agent service.
    Auxiliary,
    /// Store a file in a provider workspace for shell or sandbox use.
    Workspace,
    /// Clone a voice on MiniMax.
    VoiceClone,
    /// Supply prompt audio to MiniMax speech endpoints.
    PromptAudio,
    /// Supply input for asynchronous MiniMax text-to-audio generation.
    AsyncTtsInput,
    /// Supply a video for MiniMax video understanding.
    VideoUnderstanding,
    /// Supply an input video for MiniMax video generation.
    VideoGenerationInput,
}

/// Operations whose support differs by provider.
#[derive(Debug, Clone, Copy, PartialEq, Eq, Structural)]
pub enum FileOperation {
    Upload,
    RetrieveMetadata,
    List,
    Delete,
    Download,
    ExtractText,
}

/// How an uploaded provider file can be attached to a completion.
#[derive(Debug, Clone, Copy, PartialEq, Eq, Structural)]
pub enum ModelFileReference {
    Unsupported,
    FileId,
    FileUri,
}

/// Whether the provider API can return original bytes for a stored file.
#[derive(Debug, Clone, Copy, PartialEq, Eq, Structural)]
pub enum DownloadSupport {
    Unsupported,
    /// Download is available for files the provider marks downloadable; user
    /// uploads are commonly not downloadable.
    ProviderMarkedDownloadable,
    /// The documented endpoint returns only files generated server-side.
    GeneratedFilesOnly,
    /// Raw content download is documented for stored user uploads.
    UploadedFiles,
}

/// Explicit provider and model-specific file support. File management support
/// does not imply that a file ID can be sent as a chat input.
#[derive(Debug, Clone, Copy, PartialEq, Eq)]
pub struct FileCapabilities {
    pub upload: bool,
    pub retrieve_metadata: bool,
    pub list: bool,
    pub delete: bool,
    pub download: DownloadSupport,
    pub extract_text: bool,
    pub model_input: ModelFileReference,
    pub max_upload_bytes: Option<u64>,
    /// How long the provider keeps a file, in seconds.
    pub retention: Option<u64>,
}

/// No operation at all.
pub open spec fn no_capabilities() -> FileCapabilities {
    FileCapabilities {
        upload: false,
        retrieve_metadata: false,
        list: false,
        delete: false,
        download: DownloadSupport::Unsupported,
        extract_text: false,
        model_input: ModelFileReference::Unsupported,
        max_upload_bytes: None,
        retention: None,
    }
}

impl FileCapabilities {
    pub fn unsupported() -> (result: Self)
        ensures
            result == no_capabilities(),
    {
        FileCapabilities {
            upload: false,
            retrieve_metadata: false,
            list: false,
            delete: false,
            download: DownloadSupport::Unsupported,
            extract_text: false,
            model_input: ModelFileReference::Unsupported,
            max_upload_bytes: None,
            retention: None,
        }
    }

    pub fn supports(&self, operation: FileOperation) -> (result: bool)
        ensures
            result == match operation {
                FileOperation::Upload => self.upload,
                FileOperation::RetrieveMetadata => self.retrieve_metadata,
                FileOperation::List => self.list,
                FileOperation::Delete => self.delete,
                FileOperation::Download => self.download != DownloadSupport::Unsupported,
                FileOperation::ExtractText => self.extract_text,
            },
    {
        match operation {
            FileOperation::Upload => self.upload,
            FileOperation::RetrieveMetadata => self.retrieve_metadata,
            FileOperation::List => self.list,
            FileOperation::Delete => self.delete,
            FileOperation::Download => self.download != DownloadSupport::Unsupported,
            FileOperation::ExtractText => self.extract_text,
        }
    }
}

/// Provider-owned file identity and metadata. The profile name, endpoint
/// fingerprint, and account scope make accidental cross-connection reuse detectable.
#[derive(Debug, Clone, PartialEq, Eq)]
pub struct ProviderFileRef {
    pub provider_id: String,
    pub profile_name: String,
    /// Deterministic, non-secret fingerprint of the full configured base URL.
    pub endpoint_fingerprint: String,
    pub account_scope: Option<String>,
    pub protocol: ProtocolFamily,
    pub file_id: String,
    /// A provider model-input URI, when the API requires one (Gemini).
    pub uri: Option<String>,
    pub filename: Option<String>,
    pub media_type: Option<String>,
    pub size_bytes: Option<u64>,
    pub expires_at: Option<String>,
    pub downloadable: Option<bool>,
    /// Provider purpose used when creating the file. Some APIs require it for
    /// later list/delete calls.
    pub purpose: Option<String>,
}

pub struct ProviderFileRefView {
    pub provider_id: Seq<char>,
    pub profile_name: Seq<char>,
    pub endpoint_fingerprint: Seq<char>,
    pub account_scope: Option<Seq<char>>,
    pub protocol: ProtocolFamily,
    pub file_id: Seq<char>,
    pub uri: Option<Seq<char>>,
    pub filename: Option<Seq<char>>,
    pub media_type: Option<Seq<char>>,
    pub size_bytes: Option<u64>,
    pub expires_at: Option<Seq<char>>,
    pub downloadable: Option<bool>,
    pub purpose: Option<Seq<char>>,
}

impl View for ProviderFileRef {
    type V = ProviderFileRefView;

    open spec fn view(&self) -> ProviderFileRefView {
        ProviderFileRefView {
            provider_id: self.provider_id@,
            profile_name: self.profile_name@,
            endpoint_fingerprint: self.endpoint_fingerprint@,
            account_scope: self.account_scope.deep_view(),
            protocol: self.protocol,
            file_id: self.file_id@,
            uri: self.uri.deep_view(),
            filename: self.filename.deep_view(),
            media_type: self.media_type.deep_view(),
            size_bytes: self.size_bytes,
            expires_at: self.expires_at.deep_view(),
            downloadable: self.downloadable,
            purpose: self.purpose.deep_view(),
        }
    }
}

impl DeepView for ProviderFileRef {
    type V = ProviderFileRefView;

    open spec fn deep_view(&self) -> ProviderFileRefView {
        self@
    }
}

/// The reference that a wire codec consumes.
pub open spec fn source_of(file: ProviderFileRefView) -> ProviderFileSourceView {
    ProviderFileSourceView {
        protocol: file.protocol,
        provider_id: file.provider_id,
        profile_name: file.profile_name,
        endpoint_fingerprint: file.endpoint_fingerprint,
        account_scope: file.account_scope,
        file_id: file.file_id,
        uri: file.uri,
        media_type: file.media_type,
        purpose: file.purpose,
    }
}

impl ProviderFileRef {
    /// Builds the protocol-level reference consumed by a wire codec.
    pub fn model_reference(&self) -> (result: ProviderFileSource)
        ensures
            result@ == source_of(self@),
    {
        ProviderFileSource {
            protocol: self.protocol,
            provider_id: self.provider_id.clone(),
            profile_name: self.profile_name.clone(),
            endpoint_fingerprint: self.endpoint_fingerprint.clone(),
            account_scope: inference::dup_text(&self.account_scope),
            file_id: self.file_id.clone(),
            uri: inference::dup_text(&self.uri),
            media_type: inference::dup_text(&self.media_type),
            purpose: inference::dup_text(&self.purpose),
        }
    }
}

/// Normalized metadata returned by provider file APIs.
#[derive(Debug, Clone, PartialEq, Eq)]
pub struct ProviderFileMetadata {
    pub file: ProviderFileRef,
    pub created_at: Option<String>,
    pub status: Option<String>,
}

pub struct ProviderFileMetadataView {
    pub file: ProviderFileRefView,
    pub created_at: Option<Seq<char>>,
    pub status: Option<Seq<char>>,
}

impl DeepView for ProviderFileMetadata {
    type V = ProviderFileMetadataView;

    open spec fn deep_view(&self) -> ProviderFileMetadataView {
        ProviderFileMetadataView {
            file: self.file@,
            created_at: self.created_at.deep_view(),
            status: self.status.deep_view(),
        }
    }
}

/// One paginated page. Cursors are opaque and may only be passed back to a
/// listing of the same connection.
#[derive(Debug, Clone, PartialEq, Eq)]
pub struct ProviderFilePage {
    pub files: Vec<ProviderFileMetadata>,
    pub next_cursor: Option<String>,
}

pub struct ProviderFilePageView {
    pub files: Seq<ProviderFileMetadataView>,
    pub next_cursor: Option<Seq<char>>,
}

impl DeepView for ProviderFilePage {
    type V = ProviderFilePageView;

    open spec fn deep_view(&self) -> ProviderFilePageView {
        ProviderFilePageView {
            files: self.files.deep_view(),
            next_cursor: self.next_cursor.deep_view(),
        }
    }
}

/// Download result with the response's content type when the provider sends it.
#[derive(Debug, Clone, PartialEq, Eq)]
pub struct ProviderFileContent {
    pub media_type: Option<String>,
    pub bytes: Vec<u8>,
}

} // verus!
