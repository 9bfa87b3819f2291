//! Connection-bound provider file operations: the requests to send and what to
//! make of the replies. Sending, waiting and authenticating stay with the
//! application.

use crate::codecs::extras;
use crate::files::http;
use crate::files::policy::{self, Adapter};
use crate::files::rest::{self, CursorField};
use crate::files::types::{
    self, DownloadSupport, FileCapabilities, FilePurpose, ProviderFileContent,
    ProviderFileMetadata, ProviderFileMetadataView, ProviderFilePage, ProviderFileRef,
    ProviderFileRefView, UploadFile,
};
use crate::json::{self, Json, JsonView};
use crate::protocol::error;
use crate::protocol::inference;
use crate::protocol::{
    LlmError, LlmErrorView, ProviderFileSource, ProviderFileSourceView, ProviderProfile,
};
use crate::text;
use crate::transport::{self, HttpRequest, HttpRequestView, HttpResponse};
use crate::views;
use vstd::prelude::*;
use vstd::utf8::*;

verus! {

broadcast use {crate::views::group_views, crate::json::group_json};

/// Maximum response body retained by a download.
pub const MAX_PROVIDER_FILE_DOWNLOAD_BYTES: usize = 67_108_864;

/// Times are in milliseconds.
pub const FILE_TIMEOUT: u64 = 120_000;

pub const GEMINI_FILE_POLL_INTERVAL: u64 = 1_000;

pub const DEFAULT_GEMINI_PROCESSING_TIMEOUT: u64 = 600_000;

pub const GEMINI_VIDEO_FILE_TIMEOUT: u64 = 7_200_000;

pub const GEMINI_FILE_RETENTION: u64 = 172_800_000;

pub const QWEN_FILE_POLL_INTERVAL: u64 = 1_000;

pub const QWEN_FILE_PROCESSING_TIMEOUT: u64 = 600_000;

/// The encoded bytes that a request preflight reserves for an automatic file ID,
/// before the upload happens.
pub const MAX_AUTOMATIC_ANTHROPIC_FILE_ID_JSON_BYTES: usize = 512;

/// File API adapter bound to one profile and one credential scope. File IDs are
/// therefore never silently reused across failover connections.
pub struct FileService<'a> {
    pub profile: &'a ProviderProfile,
    pub account_scope: Option<String>,
    pub gemini_upload_timeout: Option<u64>,
    pub gemini_processing_timeout: Option<u64>,
    /// When the request that a file is uploaded for has to be over.
    pub gemini_request_deadline: Option<u64>,
}

/// The value within the bounds.
pub open spec fn clamped(value: u64, low: u64, high: u64) -> u64 {
    if value < low {
        low
    } else if value > high {
        high
    } else {
        value
    }
}

fn clamp(value: u64, low: u64, high: u64) -> (result: u64)
    ensures
        result == clamped(value, low, high),
{
    if value < low {
        low
    } else if value > high {
        high
    } else {
        value
    }
}

fn least(a: u64, b: u64) -> (result: u64)
    ensures
        result == (if a < b {
            a
        } else {
            b
        }),
{
    if a < b {
        a
    } else {
        b
    }
}

/// The version header of Anthropic's API.
pub open spec fn anthropic_version(profile: ProviderProfile) -> Seq<char> {
    match json::str_at(profile.extra@, "api_version"@) {
        Some(version) => version,
        None => extras::DEFAULT_ANTHROPIC_API_VERSION@,
    }
}

/// A request to the connection's file API, before authentication.
pub open spec fn file_request(
    profile: ProviderProfile,
    method: Seq<char>,
    url: Seq<char>,
    body: Seq<u8>,
    content_type: Option<Seq<char>>,
) -> HttpRequestView {
    let accept = seq![("accept"@, "application/json"@)];
    let own = match content_type {
        Some(content_type) => accept.push(("content-type"@, content_type)),
        None => accept,
    };
    let merged = extras::with_extra_headers(profile, own).0;
    let headers = if policy::adapter_of(profile) == Some(Adapter::Anthropic) {
        transport::without_header(merged, "anthropic-version"@).push(
            ("anthropic-version"@, anthropic_version(profile)),
        )
    } else {
        merged
    };
    HttpRequestView { method, url, headers, body, timeout: Some(FILE_TIMEOUT) }
}

/// Whether a reference is one of the connection's, under the account scope.
pub open spec fn owned(
    file: ProviderFileRefView,
    profile: ProviderProfile,
    scope: Option<Seq<char>>,
) -> bool {
    &&& file.profile_name == profile.profile_name@
    &&& file.provider_id == profile.provider_id@
    &&& file.protocol == profile.protocol
    &&& file.endpoint_fingerprint == http::fingerprint_of(profile.base_url@)
    &&& file.account_scope == scope
}

pub open spec fn ref_error(
    file: ProviderFileRefView,
    profile: ProviderProfile,
    scope: Option<Seq<char>>,
) -> Option<LlmErrorView> {
    if owned(file, profile, scope) {
        None
    } else {
        Some(
            LlmErrorView::PermissionDenied {
                message:
                    "provider file reference belongs to another profile, endpoint, or account scope"@,
            },
        )
    }
}

/// What an operation needs of the connection: an owned file, and an adapter that
/// supports it.
pub open spec fn operation_adapter(
    file: ProviderFileRefView,
    profile: ProviderProfile,
    scope: Option<Seq<char>>,
    supported: spec_fn(FileCapabilities) -> bool,
    operation: Seq<char>,
) -> Result<Adapter, LlmErrorView> {
    match ref_error(file, profile, scope) {
        Some(error) => Err(error),
        None => match policy::adapter_of(profile) {
            Some(adapter) => if supported(policy::adapter_capabilities(adapter)) {
                Ok(adapter)
            } else {
                Err(http::unsupported_error(operation))
            },
            None => Err(http::unsupported_error(operation)),
        },
    }
}

/// How an upload goes.
#[derive(Debug, Clone, PartialEq, Eq)]
pub enum UploadPlan {
    /// One multipart request.
    Multipart { request: HttpRequest },
    /// Gemini's resumable upload.
    Resumable,
}

pub enum UploadPlanView {
    Multipart { request: HttpRequestView },
    Resumable,
}

impl DeepView for UploadPlan {
    type V = UploadPlanView;

    open spec fn deep_view(&self) -> UploadPlanView {
        match self {
            UploadPlan::Multipart { request } => UploadPlanView::Multipart { request: request@ },
            UploadPlan::Resumable => UploadPlanView::Resumable,
        }
    }
}

/// Whether the purpose makes a file part of a model request.
pub open spec fn is_model_input(purpose: FilePurpose) -> bool {
    purpose == FilePurpose::ModelInput || purpose == FilePurpose::VideoUnderstanding
}

pub open spec fn no_scope(scope: Option<Seq<char>>) -> bool {
    scope is None || text::blank(scope->0)
}

/// The adapter that can take an upload, or why none can.
pub open spec fn upload_adapter(
    profile: ProviderProfile,
    scope: Option<Seq<char>>,
    file: UploadFile,
    purpose: FilePurpose,
) -> Result<Adapter, LlmErrorView> {
    match http::media_type_error(file.media_type@) {
        Some(error) => Err(error),
        None => match policy::adapter_of(profile) {
            None => Err(http::unsupported_error("upload"@)),
            Some(adapter) => {
                let caps = policy::limited_by_media(
                    policy::capabilities_by_purpose(adapter, purpose, file.media_type@),
                    adapter,
                    file.media_type@,
                );
                if !caps.upload {
                    Err(http::unsupported_error("upload for this purpose"@))
                } else if is_model_input(purpose) && no_scope(scope) {
                    Err(
                        error::invalid_view(
                            "model-input file uploads require a nonempty account scope"@,
                        ),
                    )
                } else if caps.max_upload_bytes is Some && file.bytes@.len()
                    > caps.max_upload_bytes->0 {
                    Err(
                        LlmErrorView::RequestTooLarge {
                            message: "file exceeds the provider limit of "@ + text::decimal_text(
                                caps.max_upload_bytes->0 as nat,
                            ) + " bytes"@,
                        },
                    )
                } else {
                    Ok(adapter)
                }
            },
        },
    }
}

/// How an upload goes on the connection.
pub open spec fn upload_plan(
    profile: ProviderProfile,
    scope: Option<Seq<char>>,
    file: UploadFile,
    purpose: FilePurpose,
    expires: Option<u64>,
    boundary: Seq<char>,
) -> Result<UploadPlanView, LlmErrorView> {
    match upload_adapter(profile, scope, file, purpose) {
        Err(error) => Err(error),
        Ok(adapter) => if adapter == Adapter::Gemini {
            Ok(UploadPlanView::Resumable)
        } else {
            let root = rest::files_endpoint(profile.base_url@, adapter);
            let url = if adapter == Adapter::MiniMax {
                root + "/upload"@
            } else {
                root
            };
            Ok(
                UploadPlanView::Multipart {
                    request: file_request(
                        profile,
                        "POST"@,
                        url,
                        http::upload_body(adapter, purpose, file, boundary, expires),
                        Some("multipart/form-data; boundary="@ + boundary),
                    ),
                },
            )
        },
    }
}

/// The text that is there, or else the other.
pub open spec fn or_text(a: Option<Seq<char>>, b: Option<Seq<char>>) -> Option<Seq<char>> {
    if a is Some {
        a
    } else {
        b
    }
}

fn or_owned(a: Option<String>, b: &Option<String>) -> (result: Option<String>)
    ensures
        result.deep_view() == or_text(a.deep_view(), b.deep_view()),
{
    match a {
        Some(a) => Some(a),
        None => inference::dup_text(b),
    }
}

/// The reference that an upload's reply states, completed by what was uploaded.
pub open spec fn uploaded_ref(
    adapter: Adapter,
    metadata: ProviderFileMetadataView,
    file: UploadFile,
    purpose: FilePurpose,
) -> ProviderFileRefView {
    ProviderFileRefView {
        media_type: or_text(metadata.file.media_type, Some(file.media_type@)),
        filename: or_text(metadata.file.filename, Some(file.filename@)),
        purpose: or_text(metadata.file.purpose, policy::purpose_of(adapter, purpose)),
        ..metadata.file
    }
}

/// What an upload's reply comes to.
pub open spec fn uploaded_in(
    profile: ProviderProfile,
    scope: Option<Seq<char>>,
    file: UploadFile,
    purpose: FilePurpose,
    response: HttpResponse,
) -> Result<ProviderFileRefView, LlmErrorView> {
    match policy::adapter_of(profile) {
        None => Err(http::unsupported_error("upload"@)),
        Some(adapter) => match rest::adapter_json(adapter, response, "file upload"@) {
            Err(error) => Err(error),
            Ok(value) => match rest::metadata_in(profile, scope, value) {
                Err(error) => Err(error),
                Ok(metadata) => Ok(uploaded_ref(adapter, metadata, file, purpose)),
            },
        },
    }
}

/// What a metadata reply comes to: known metadata stands in only for the same
/// file, and never for what the server states.
pub open spec fn completed_metadata(
    metadata: ProviderFileMetadataView,
    file: ProviderFileRefView,
) -> ProviderFileMetadataView {
    if metadata.file.file_id == file.file_id && metadata.file.media_type is None {
        ProviderFileMetadataView {
            file: ProviderFileRefView { media_type: file.media_type, ..metadata.file },
            ..metadata
        }
    } else {
        metadata
    }
}

pub open spec fn got_in(
    profile: ProviderProfile,
    scope: Option<Seq<char>>,
    file: ProviderFileRefView,
    response: HttpResponse,
) -> Result<ProviderFileMetadataView, LlmErrorView> {
    match policy::adapter_of(profile) {
        None => Err(http::unsupported_error("metadata retrieval"@)),
        Some(adapter) => match rest::adapter_json(adapter, response, "file metadata"@) {
            Err(error) => Err(error),
            Ok(value) => match rest::metadata_in(profile, scope, value) {
                Err(error) => Err(error),
                Ok(metadata) => Ok(completed_metadata(metadata, file)),
            },
        },
    }
}

/// A page of a listing to ask for.
#[derive(Debug, Clone, PartialEq, Eq)]
pub struct ListPlan {
    pub adapter: Adapter,
    pub cursor_field: CursorField,
    pub request: HttpRequest,
}

pub struct ListPlanView {
    pub adapter: Adapter,
    pub cursor_field: CursorField,
    pub request: HttpRequestView,
}

impl DeepView for ListPlan {
    type V = ListPlanView;

    open spec fn deep_view(&self) -> ListPlanView {
        ListPlanView {
            adapter: self.adapter,
            cursor_field: self.cursor_field,
            request: self.request@,
        }
    }
}

pub open spec fn list_plan(
    profile: ProviderProfile,
    adapter: Adapter,
    purpose: Option<FilePurpose>,
    cursor: Option<Seq<char>>,
) -> Result<ListPlanView, LlmErrorView> {
    if !policy::adapter_capabilities(adapter).list {
        Err(http::unsupported_error("file listing"@))
    } else {
        let (url, cursor_field) = rest::listing(profile.base_url@, adapter, purpose, cursor);
        Ok(
            ListPlanView {
                adapter,
                cursor_field,
                request: file_request(profile, "GET"@, url, Seq::empty(), None),
            },
        )
    }
}

/// The listing without a purpose.
pub open spec fn plain_list(profile: ProviderProfile, cursor: Option<Seq<char>>) -> Result<
    ListPlanView,
    LlmErrorView,
> {
    match policy::adapter_of(profile) {
        None => Err(http::unsupported_error("file listing"@)),
        Some(adapter) => if adapter == Adapter::MiniMax {
            Err(
                error::invalid_view(
                    "MiniMax file listing requires list_for_purpose with an explicit purpose"@,
                ),
            )
        } else {
            list_plan(profile, adapter, None, cursor)
        },
    }
}

/// The listing of one purpose.
pub open spec fn purpose_list(
    profile: ProviderProfile,
    purpose: FilePurpose,
    cursor: Option<Seq<char>>,
) -> Result<ListPlanView, LlmErrorView> {
    match policy::adapter_of(profile) {
        None => Err(http::unsupported_error("file listing"@)),
        Some(adapter) => if adapter != Adapter::MiniMax && adapter != Adapter::OpenAi && adapter
            != Adapter::Qwen {
            Err(http::unsupported_error("file listing filtered by purpose"@))
        } else if adapter != Adapter::MiniMax && policy::purpose_of(adapter, purpose) is None {
            Err(http::unsupported_error("file listing for this purpose"@))
        } else if adapter == Adapter::MiniMax && rest::minimax_listing(purpose) is None {
            Err(http::unsupported_error("MiniMax file listing for this purpose"@))
        } else if adapter == Adapter::MiniMax && cursor is Some {
            Err(http::unsupported_error("MiniMax file-list pagination"@))
        } else {
            list_plan(profile, adapter, Some(purpose), cursor)
        },
    }
}

/// The request that deletes a file.
pub open spec fn delete_request_in(
    profile: ProviderProfile,
    scope: Option<Seq<char>>,
    file: ProviderFileRefView,
) -> Result<HttpRequestView, LlmErrorView> {
    match operation_adapter(
        file,
        profile,
        scope,
        |caps: FileCapabilities| caps.delete,
        "file deletion"@,
    ) {
        Err(error) => Err(error),
        Ok(adapter) => if adapter == Adapter::MiniMax {
            match file.purpose {
                None => Err(
                    error::invalid_view(
                        "MiniMax file deletion requires the original provider purpose"@,
                    ),
                ),
                Some(purpose) => match rest::minimax_deletion(purpose) {
                    None => Err(http::unsupported_error("MiniMax deletion for this purpose"@)),
                    Some(purpose) => Ok(
                        file_request(
                            profile,
                            "POST"@,
                            rest::files_endpoint(profile.base_url@, adapter) + "/delete"@,
                            json::bytes_of(
                                json::obj2(
                                    "file_id"@,
                                    JsonView::Str(file.file_id),
                                    "purpose"@,
                                    JsonView::Str(purpose),
                                ),
                            ),
                            Some("application/json"@),
                        ),
                    ),
                },
            }
        } else {
            Ok(
                file_request(
                    profile,
                    "DELETE"@,
                    rest::file_endpoint(profile.base_url@, adapter, file.file_id),
                    Seq::empty(),
                    None,
                ),
            )
        },
    }
}

/// Whether Qwen's reply confirms that the file is gone.
pub open spec fn qwen_confirms(value: JsonView, file_id: Seq<char>) -> bool {
    json::bool_at(value, "deleted"@) == Some(true) && json::str_at(value, "id"@) == Some(file_id)
}

/// What a deletion's reply comes to.
pub open spec fn deleted_in(
    profile: ProviderProfile,
    file: ProviderFileRefView,
    response: HttpResponse,
) -> Result<(), LlmErrorView> {
    match policy::adapter_of(profile) {
        None => Err(http::unsupported_error("file deletion"@)),
        Some(adapter) => if adapter == Adapter::Qwen {
            match http::json_body(response, "file deletion"@) {
                Err(error) => Err(error),
                Ok(value) => if qwen_confirms(value, file.file_id) {
                    Ok(())
                } else {
                    Err(
                        http::shape_error("Qwen did not confirm deletion of the requested file"@),
                    )
                },
            }
        } else {
            rest::adapter_status(adapter, response, "file deletion"@)
        },
    }
}

/// What a download has to find out first.
#[derive(Debug, Clone, PartialEq, Eq)]
pub enum DownloadPlan {
    /// The bytes can be asked for.
    Direct { request: HttpRequest },
    /// Only if the metadata, asked for first, says that the file is downloadable.
    IfMarked { request: HttpRequest },
}

pub enum DownloadPlanView {
    Direct { request: HttpRequestView },
    IfMarked { request: HttpRequestView },
}

impl DeepView for DownloadPlan {
    type V = DownloadPlanView;

    open spec fn deep_view(&self) -> DownloadPlanView {
        match self {
            DownloadPlan::Direct { request } => DownloadPlanView::Direct { request: request@ },
            DownloadPlan::IfMarked { request } => DownloadPlanView::IfMarked { request: request@ },
        }
    }
}

pub open spec fn download_plan(
    profile: ProviderProfile,
    scope: Option<Seq<char>>,
    file: ProviderFileRefView,
) -> Result<DownloadPlanView, LlmErrorView> {
    match operation_adapter(
        file,
        profile,
        scope,
        |caps: FileCapabilities| caps.download != DownloadSupport::Unsupported,
        "file download"@,
    ) {
        Err(error) => Err(error),
        Ok(adapter) => {
            let content = rest::content_endpoint(profile.base_url@, adapter, file.file_id);
            let url = if adapter == Adapter::MiniMax {
                content + "?file_id="@ + http::query_text(file.file_id)
            } else {
                content
            };
            let request = file_request(profile, "GET"@, url, Seq::empty(), None);
            Ok(
                if policy::adapter_capabilities(adapter).download
                    == DownloadSupport::UploadedFiles {
                    DownloadPlanView::Direct { request }
                } else {
                    DownloadPlanView::IfMarked { request }
                },
            )
        },
    }
}

/// The media type of a header's value, without its parameters.
pub open spec fn essence(value: Seq<char>) -> Seq<char> {
    text::trimmed(before_semicolon(value))
}

pub open spec fn before_semicolon(value: Seq<char>) -> Seq<char>
    decreases value.len(),
{
    if value.len() == 0 || value[0] == ';' {
        Seq::empty()
    } else {
        seq![value[0]] + before_semicolon(value.skip(1))
    }
}

fn media_essence(value: &str) -> (result: String)
    ensures
        result@ == essence(value@),
{
    let cs = text::chars(value);
    let mut i: usize = 0;
    assert(cs@.skip(0) =~= cs@);
    assert(cs@.subrange(0, 0) + before_semicolon(cs@) =~= before_semicolon(cs@));
    while i < cs.len() && cs[i] != ';'
        invariant
            i <= cs.len(),
            before_semicolon(cs@) == cs@.subrange(0, i as int) + before_semicolon(
                cs@.skip(i as int),
            ),
        decreases cs.len() - i,
    {
        assert(cs@.skip(i as int).skip(1) =~= cs@.skip(i + 1));
        assert(cs@.subrange(0, i + 1) =~= cs@.subrange(0, i as int) + seq![cs@[i as int]]);
        let ghost rest = before_semicolon(cs@.skip(i + 1));
        assert(cs@.subrange(0, i as int) + (seq![cs@[i as int]] + rest) =~= cs@.subrange(
            0,
            i + 1,
        ) + rest);
        i = i + 1;
    }
    assert(before_semicolon(cs@) =~= cs@.subrange(0, i as int));
    text::trim(&text::range(&cs, 0, i))
}

/// How far Gemini's upload and processing may take, in milliseconds.
pub open spec fn gemini_times(
    upload: Option<u64>,
    processing: Option<u64>,
    media_type: Seq<char>,
) -> (u64, u64) {
    let video = "video/"@.is_prefix_of(text::lower(media_type));
    let wanted = match upload {
        Some(timeout) => timeout,
        None => if video {
            GEMINI_VIDEO_FILE_TIMEOUT
        } else {
            FILE_TIMEOUT
        },
    };
    let wait = match processing {
        Some(timeout) => timeout,
        None => DEFAULT_GEMINI_PROCESSING_TIMEOUT,
    };
    if video {
        (
            if wanted < GEMINI_VIDEO_FILE_TIMEOUT {
                wanted
            } else {
                GEMINI_VIDEO_FILE_TIMEOUT
            },
            if wait < GEMINI_VIDEO_FILE_TIMEOUT {
                wait
            } else {
                GEMINI_VIDEO_FILE_TIMEOUT
            },
        )
    } else {
        (wanted, wait)
    }
}

/// What a step of Gemini's processing comes to.
#[derive(Debug, Clone, PartialEq, Eq)]
pub enum GeminiStep {
    /// The file can be used.
    Ready { file: ProviderFileRef },
    /// The provider still works on it.
    Pending { file: ProviderFileRef },
    /// The file is there, but what the provider says of it cannot be used.
    Unresolved { file: ProviderFileRef, error: LlmError },
    /// The file is of no use.
    Failed { error: LlmError },
}

pub enum GeminiStepView {
    Ready { file: ProviderFileRefView },
    Pending { file: ProviderFileRefView },
    Unresolved { file: ProviderFileRefView, error: LlmErrorView },
    Failed { error: LlmErrorView },
}

impl DeepView for GeminiStep {
    type V = GeminiStepView;

    open spec fn deep_view(&self) -> GeminiStepView {
        match self {
            GeminiStep::Ready { file } => GeminiStepView::Ready { file: file@ },
            GeminiStep::Pending { file } => GeminiStepView::Pending { file: file@ },
            GeminiStep::Unresolved { file, error } => GeminiStepView::Unresolved {
                file: file@,
                error: error@,
            },
            GeminiStep::Failed { error } => GeminiStepView::Failed { error: error@ },
        }
    }
}

/// Whether the URI is missing or empty.
pub open spec fn no_uri(uri: Option<Seq<char>>) -> bool {
    uri is None || uri->0.len() == 0
}

fn lacks_uri(uri: &Option<String>) -> (result: bool)
    ensures
        result == no_uri(uri.deep_view()),
{
    match uri {
        Some(uri) => text::is_empty(uri),
        None => true,
    }
}

/// What the reply to Gemini's finished transfer comes to.
pub open spec fn transferred_in(
    profile: ProviderProfile,
    scope: Option<Seq<char>>,
    file: UploadFile,
    value: JsonView,
) -> GeminiStepView {
    let resource = rest::resource(value);
    match rest::metadata_in(profile, scope, resource) {
        Err(error) => GeminiStepView::Failed { error },
        Ok(metadata) => {
            let found = ProviderFileRefView {
                media_type: Some(file.media_type@),
                filename: Some(file.filename@),
                ..metadata.file
            };
            let state = json::str_at(resource, "state"@);
            if state == Some("FAILED"@) {
                GeminiStepView::Failed {
                    error: http::shape_error("Gemini file processing failed"@),
                }
            } else if state == Some("PROCESSING"@) {
                GeminiStepView::Pending { file: found }
            } else if state is Some && state != Some("ACTIVE"@) {
                GeminiStepView::Unresolved {
                    file: found,
                    error: http::shape_error(
                        "Gemini file upload returned an unknown processing state"@,
                    ),
                }
            } else if no_uri(found.uri) {
                GeminiStepView::Unresolved {
                    file: found,
                    error: http::shape_error("Gemini file upload omitted the model-input URI"@),
                }
            } else {
                GeminiStepView::Ready { file: found }
            }
        },
    }
}

/// What a poll of a pending file comes to.
pub open spec fn polled_in(
    profile: ProviderProfile,
    scope: Option<Seq<char>>,
    pending: ProviderFileRefView,
    value: JsonView,
) -> GeminiStepView {
    let resource = rest::resource(value);
    let state = json::str_at(resource, "state"@);
    if state == Some("ACTIVE"@) {
        match rest::metadata_in(profile, scope, resource) {
            Err(error) => GeminiStepView::Unresolved { file: pending, error },
            Ok(metadata) => if metadata.file.file_id != pending.file_id {
                GeminiStepView::Unresolved {
                    file: pending,
                    error: http::shape_error("Gemini file status returned another file ID"@),
                }
            } else {
                let found = ProviderFileRefView {
                    uri: or_text(metadata.file.uri, pending.uri),
                    media_type: or_text(metadata.file.media_type, pending.media_type),
                    filename: or_text(metadata.file.filename, pending.filename),
                    ..metadata.file
                };
                if no_uri(found.uri) {
                    GeminiStepView::Unresolved {
                        file: pending,
                        error: http::shape_error(
                            "Gemini active file omitted the model-input URI"@,
                        ),
                    }
                } else {
                    GeminiStepView::Ready { file: found }
                }
            },
        }
    } else if state == Some("FAILED"@) {
        GeminiStepView::Failed { error: http::shape_error("Gemini file processing failed"@) }
    } else if state == Some("PROCESSING"@) {
        GeminiStepView::Pending { file: pending }
    } else {
        GeminiStepView::Unresolved {
            file: pending,
            error: http::shape_error("Gemini file processing returned an unknown state"@),
        }
    }
}

/// What a poll of Qwen's parsing comes to.
#[derive(Debug, Clone, PartialEq, Eq)]
pub enum QwenStep {
    Ready,
    Pending,
    Failed { error: LlmError },
}

pub enum QwenStepView {
    Ready,
    Pending,
    Failed { error: LlmErrorView },
}

impl DeepView for QwenStep {
    type V = QwenStepView;

    open spec fn deep_view(&self) -> QwenStepView {
        match self {
            QwenStep::Ready => QwenStepView::Ready,
            QwenStep::Pending => QwenStepView::Pending,
            QwenStep::Failed { error } => QwenStepView::Failed { error: error@ },
        }
    }
}

pub open spec fn qwen_polled_in(
    profile: ProviderProfile,
    scope: Option<Seq<char>>,
    file: ProviderFileRefView,
    response: HttpResponse,
) -> QwenStepView {
    match rest::adapter_json(Adapter::Qwen, response, "file metadata"@) {
        Err(error) => if error is RateLimited {
            QwenStepView::Pending
        } else {
            QwenStepView::Failed { error }
        },
        Ok(value) => match rest::metadata_in(profile, scope, value) {
            Err(error) => QwenStepView::Failed { error },
            Ok(metadata) => if metadata.file.file_id != file.file_id {
                QwenStepView::Failed {
                    error: http::shape_error("Qwen file metadata returned another file ID"@),
                }
            } else if metadata.status == Some("processed"@) {
                QwenStepView::Ready
            } else if metadata.status == Some("error"@) {
                QwenStepView::Failed { error: http::shape_error("Qwen file parsing failed"@) }
            } else if metadata.status == Some("uploaded"@) || metadata.status
                == Some("processing"@) {
                QwenStepView::Pending
            } else {
                QwenStepView::Failed {
                    error: http::shape_error("Qwen file metadata has an unknown status"@),
                }
            },
        },
    }
}

fn is_text(s: &Option<String>, t: &str) -> (result: bool)
    ensures
        result == (s.deep_view() == Some(t@)),
{
    match s {
        Some(s) => text::same(s, t),
        None => false,
    }
}

fn str_is(s: Option<&str>, t: &str) -> (result: bool)
    ensures
        result == (s.deep_view() == Some(t@)),
{
    match s {
        Some(s) => text::same(s, t),
        None => false,
    }
}

impl<'a> FileService<'a> {
    pub fn new(profile: &'a ProviderProfile, account_scope: Option<String>) -> (service: Self)
        ensures
            service.profile == profile,
            service.account_scope == account_scope,
            service.gemini_upload_timeout is None,
            service.gemini_processing_timeout is None,
            service.gemini_request_deadline is None,
    {
        FileService {
            profile,
            account_scope,
            gemini_upload_timeout: None,
            gemini_processing_timeout: None,
            gemini_request_deadline: None,
        }
    }

    /// Ends uploads and waits with the request that they are made for.
    pub fn with_gemini_request_deadline(self, deadline: u64) -> (service: Self)
        ensures
            service == (FileService { gemini_request_deadline: Some(deadline), ..self }),
    {
        FileService { gemini_request_deadline: Some(deadline), ..self }
    }

    /// Bounds the Gemini upload transfer. Video files default to and are capped
    /// at two hours; other files default to two minutes.
    pub fn with_gemini_upload_timeout(self, timeout: u64) -> (service: Self)
        ensures
            service == (FileService {
                gemini_upload_timeout: Some(
                    clamped(timeout, GEMINI_FILE_POLL_INTERVAL, GEMINI_FILE_RETENTION),
                ),
                ..self
            }),
    {
        FileService {
            gemini_upload_timeout: Some(
                clamp(timeout, GEMINI_FILE_POLL_INTERVAL, GEMINI_FILE_RETENTION),
            ),
            ..self
        }
    }

    /// Bounds the wait for a Gemini file to become active after its upload, between
    /// one second and the provider's 48-hour retention.
    pub fn with_gemini_processing_timeout(self, timeout: u64) -> (service: Self)
        ensures
            service == (FileService {
                gemini_processing_timeout: Some(
                    clamped(timeout, GEMINI_FILE_POLL_INTERVAL, GEMINI_FILE_RETENTION),
                ),
                ..self
            }),
    {
        FileService {
            gemini_processing_timeout: Some(
                clamp(timeout, GEMINI_FILE_POLL_INTERVAL, GEMINI_FILE_RETENTION),
            ),
            ..self
        }
    }

    /// Capabilities for this concrete profile, model and media type. The caller
    /// must still check model vision/file modality when present.
    pub fn capabilities(&self, model: &str, media_type: &str) -> (result: FileCapabilities)
        ensures
            result == policy::capabilities_of(*self.profile, model@, media_type@),
    {
        policy::capabilities(self.profile, model, media_type)
    }

    /// Upload and model-input support for a specific purpose. This separates
    /// extraction or agent auxiliary files from chat references.
    pub fn capabilities_for_purpose(
        &self,
        model: &str,
        media_type: &str,
        purpose: FilePurpose,
    ) -> (result: FileCapabilities)
        ensures
            result == policy::capabilities_of_purpose(*self.profile, model@, media_type@, purpose),
    {
        policy::capabilities_for_purpose(self.profile, model, media_type, purpose)
    }

    pub fn request(&self, method: &str, url: String, body: Vec<u8>, content_type: Option<String>) -> (request:
        HttpRequest)
        ensures
            request@ == file_request(
                *self.profile,
                method@,
                url@,
                body@,
                content_type.deep_view(),
            ),
    {
        let mut headers: Vec<(String, String)> = Vec::new();
        headers.push(("accept".to_owned(), "application/json".to_owned()));
        assert(headers.deep_view() =~= seq![("accept"@, "application/json"@)]);
        if let Some(content_type) = content_type {
            headers.push(("content-type".to_owned(), content_type));
        }
        extras::merge_headers(self.profile, &mut headers);
        let anthropic = match policy::adapter(self.profile) {
            Some(Adapter::Anthropic) => true,
            _ => false,
        };
        if anthropic {
            transport::drop_header(&mut headers, "anthropic-version");
            let version = match self.profile.extra.str_at("api_version") {
                Some(version) => version,
                None => extras::DEFAULT_ANTHROPIC_API_VERSION,
            };
            headers.push(("anthropic-version".to_owned(), version.to_owned()));
        }
        HttpRequest {
            method: method.to_owned(),
            url,
            headers,
            body,
            timeout: Some(FILE_TIMEOUT),
        }
    }

    pub fn check_ref(&self, file: &ProviderFileRef) -> (result: Result<(), LlmError>)
        ensures
            views::res(result) == http::checked(
                ref_error(file@, *self.profile, self.account_scope.deep_view()),
            ),
    {
        if text::same(&file.profile_name, &self.profile.profile_name) && text::same(
            &file.provider_id,
            &self.profile.provider_id,
        ) && file.protocol == self.profile.protocol && text::same(
            &file.endpoint_fingerprint,
            &http::provider_file_endpoint_fingerprint(&self.profile.base_url),
        ) && inference::same_text(&file.account_scope, &self.account_scope) {
            Ok(())
        } else {
            Err(
                LlmError::PermissionDenied {
                    message:
                        "provider file reference belongs to another profile, endpoint, or account scope".to_owned(),
                },
            )
        }
    }

    fn has_scope(&self) -> (result: bool)
        ensures
            result == !no_scope(self.account_scope.deep_view()),
    {
        match &self.account_scope {
            Some(scope) => !text::is_blank(scope),
            None => false,
        }
    }

    fn check_upload(&self, file: &UploadFile, purpose: FilePurpose) -> (result: Result<
        Adapter,
        LlmError,
    >)
        ensures
            match result {
                Ok(adapter) => upload_adapter(
                    *self.profile,
                    self.account_scope.deep_view(),
                    *file,
                    purpose,
                ) == Ok::<Adapter, LlmErrorView>(adapter),
                Err(error) => upload_adapter(
                    *self.profile,
                    self.account_scope.deep_view(),
                    *file,
                    purpose,
                ) == Err::<Adapter, LlmErrorView>(error@),
            },
    {
        http::validate_media_type(&file.media_type)?;
        let adapter = match policy::adapter(self.profile) {
            Some(adapter) => adapter,
            None => return Err(http::unsupported("upload")),
        };
        let caps = policy::capabilities_for_media_type(
            policy::purpose_capabilities(adapter, purpose, &file.media_type),
            adapter,
            &file.media_type,
        );
        if !caps.upload {
            return Err(http::unsupported("upload for this purpose"));
        }
        if (purpose == FilePurpose::ModelInput || purpose == FilePurpose::VideoUnderstanding)
            && !self.has_scope() {
            return Err(
                error::invalid("model-input file uploads require a nonempty account scope"),
            );
        }
        if let Some(limit) = caps.max_upload_bytes {
            if file.bytes.len() as u64 > limit {
                return Err(
                    LlmError::RequestTooLarge {
                        message: text::cat3(
                            "file exceeds the provider limit of ",
                            &text::decimal(limit),
                            " bytes",
                        ),
                    },
                );
            }
        }
        Ok(adapter)
    }

    /// Checks an upload and says how it goes. `boundary` separates the parts of a
    /// multipart body and does not occur in the file.
    pub fn plan_upload(
        &self,
        file: &UploadFile,
        purpose: FilePurpose,
        expires_in_seconds: Option<u64>,
        boundary: &str,
    ) -> (result: Result<UploadPlan, LlmError>)
        ensures
            views::res(result) == upload_plan(
                *self.profile,
                self.account_scope.deep_view(),
                *file,
                purpose,
                expires_in_seconds,
                boundary@,
            ),
    {
        let adapter = self.check_upload(file, purpose)?;
        if adapter == Adapter::Gemini {
            return Ok(UploadPlan::Resumable);
        }
        let body = http::multipart_body(adapter, purpose, file, boundary, expires_in_seconds);
        let root = rest::files_url(self.profile, adapter);
        let url = if adapter == Adapter::MiniMax {
            text::cat2(&root, "/upload")
        } else {
            root
        };
        let content_type = Some(text::cat2("multipart/form-data; boundary=", boundary));
        Ok(UploadPlan::Multipart { request: self.request("POST", url, body, content_type) })
    }

    /// The lifetime that an automatic upload asks for, in seconds, where the
    /// provider supports one.
    pub fn automatic_expiration(&self) -> (result: Option<u64>)
        ensures
            result == (match policy::adapter_of(*self.profile) {
                Some(Adapter::Anthropic | Adapter::OpenAi | Adapter::Xai) => Some(
                    policy::AUTOMATIC_FILE_TTL,
                ),
                _ => None,
            }),
    {
        match policy::adapter(self.profile) {
            Some(Adapter::Anthropic) | Some(Adapter::OpenAi) | Some(Adapter::Xai) => Some(
                policy::AUTOMATIC_FILE_TTL,
            ),
            _ => None,
        }
    }

    /// How long to wait before an automatic upload is tried again, in
    /// milliseconds, where it is.
    pub fn automatic_retry(&self, error: &LlmError, retries: u32) -> (result: Option<u64>)
        ensures
            result == (if error is RateLimited && policy::adapter_of(*self.profile) == Some(
                Adapter::Qwen,
            ) && retries < 3 {
                Some(
                    if retries == 0 {
                        500u64
                    } else if retries == 1 {
                        1_000u64
                    } else {
                        2_000u64
                    },
                )
            } else {
                None
            }),
    {
        let limited = match error {
            LlmError::RateLimited { .. } => true,
            _ => false,
        };
        if limited && policy::needs_automatic_cleanup(self.profile) && retries < 3 {
            Some(
                if retries == 0 {
                    500
                } else if retries == 1 {
                    1_000
                } else {
                    2_000
                },
            )
        } else {
            None
        }
    }

    /// A provider ID longer than the preflight bound cannot safely be substituted
    /// into a request that was checked before the upload.
    pub fn check_automatic(&self, uploaded: &ProviderFileRef) -> (result: Result<(), LlmError>)
        ensures
            views::res(result) == http::checked(
                if policy::adapter_of(*self.profile) == Some(Adapter::Anthropic) && json::bytes_of(
                    JsonView::Str(uploaded.file_id@),
                ).len() > MAX_AUTOMATIC_ANTHROPIC_FILE_ID_JSON_BYTES {
                    Some(
                        error::unsupported_view(
                            "Anthropic returned a file ID too long for automatic request preparation"@,
                        ),
                    )
                } else {
                    None
                },
            ),
    {
        let anthropic = match policy::adapter(self.profile) {
            Some(Adapter::Anthropic) => true,
            _ => false,
        };
        if anthropic && json::to_bytes(&json::string(&uploaded.file_id)).len()
            > MAX_AUTOMATIC_ANTHROPIC_FILE_ID_JSON_BYTES {
            return Err(
                error::unsupported(
                    "Anthropic returned a file ID too long for automatic request preparation",
                ),
            );
        }
        Ok(())
    }

    /// What the reply to a multipart upload comes to. The API may omit what the
    /// upload knows.
    pub fn uploaded(&self, file: &UploadFile, purpose: FilePurpose, response: &HttpResponse) -> (result:
        Result<ProviderFileRef, LlmError>)
        ensures
            views::res(result) == uploaded_in(
                *self.profile,
                self.account_scope.deep_view(),
                *file,
                purpose,
                *response,
            ),
    {
        let adapter = match policy::adapter(self.profile) {
            Some(adapter) => adapter,
            None => return Err(http::unsupported("upload")),
        };
        let value = rest::adapter_json_success(adapter, response, "file upload")?;
        let metadata = rest::decode_metadata(self.profile, &self.account_scope, &value)?;
        let purpose = match policy::purpose_name(adapter, purpose) {
            Some(name) => Some(name.to_owned()),
            None => None,
        };
        let found = metadata.file;
        Ok(
            ProviderFileRef {
                media_type: or_owned(found.media_type, &Some(file.media_type.clone())),
                filename: or_owned(found.filename, &Some(file.filename.clone())),
                purpose: or_owned(found.purpose, &purpose),
                ..found
            },
        )
    }

    /// The request for the metadata of a file.
    pub fn get_request(&self, file: &ProviderFileRef) -> (result: Result<HttpRequest, LlmError>)
        ensures
            views::res(result) == (match operation_adapter(
                file@,
                *self.profile,
                self.account_scope.deep_view(),
                |caps: FileCapabilities| caps.retrieve_metadata,
                "metadata retrieval"@,
            ) {
                Err(error) => Err(error),
                Ok(adapter) => {
                    let at = rest::file_endpoint(self.profile.base_url@, adapter, file.file_id@);
                    let url = if adapter == Adapter::MiniMax {
                        at + "?file_id="@ + http::query_text(file.file_id@)
                    } else {
                        at
                    };
                    Ok(file_request(*self.profile, "GET"@, url, Seq::empty(), None))
                },
            }),
    {
        self.check_ref(file)?;
        let adapter = match policy::adapter(self.profile) {
            Some(adapter) => adapter,
            None => return Err(http::unsupported("metadata retrieval")),
        };
        if !policy::capabilities_for_adapter(adapter).retrieve_metadata {
            return Err(http::unsupported("metadata retrieval"));
        }
        let at = rest::file_url(self.profile, adapter, &file.file_id);
        let url = if adapter == Adapter::MiniMax {
            text::cat3(&at, "?file_id=", &http::query_value(&file.file_id))
        } else {
            at
        };
        Ok(self.request("GET", url, Vec::new(), None))
    }

    /// What the reply to a metadata request comes to.
    pub fn got(&self, file: &ProviderFileRef, response: &HttpResponse) -> (result: Result<
        ProviderFileMetadata,
        LlmError,
    >)
        ensures
            views::res(result) == got_in(
                *self.profile,
                self.account_scope.deep_view(),
                file@,
                *response,
            ),
    {
        let adapter = match policy::adapter(self.profile) {
            Some(adapter) => adapter,
            None => return Err(http::unsupported("metadata retrieval")),
        };
        let value = rest::adapter_json_success(adapter, response, "file metadata")?;
        let metadata = rest::decode_metadata(self.profile, &self.account_scope, &value)?;
        if text::same(&metadata.file.file_id, &file.file_id)
            && metadata.file.media_type.is_none() {
            Ok(
                ProviderFileMetadata {
                    file: ProviderFileRef {
                        media_type: inference::dup_text(&file.media_type),
                        ..metadata.file
                    },
                    ..metadata
                },
            )
        } else {
            Ok(metadata)
        }
    }

    fn list_inner(&self, adapter: Adapter, purpose: Option<FilePurpose>, cursor: Option<&str>) -> (result:
        Result<ListPlan, LlmError>)
        ensures
            views::res(result) == list_plan(*self.profile, adapter, purpose, cursor.deep_view()),
    {
        if !policy::capabilities_for_adapter(adapter).list {
            return Err(http::unsupported("file listing"));
        }
        let (url, cursor_field) = rest::list_url(self.profile, adapter, purpose, cursor);
        Ok(
            ListPlan {
                adapter,
                cursor_field,
                request: self.request("GET", url, Vec::new(), None),
            },
        )
    }

    /// The request for a page of provider-owned files. The cursor is opaque.
    pub fn list(&self, cursor: Option<&str>) -> (result: Result<ListPlan, LlmError>)
        ensures
            views::res(result) == plain_list(*self.profile, cursor.deep_view()),
    {
        let adapter = match policy::adapter(self.profile) {
            Some(adapter) => adapter,
            None => return Err(http::unsupported("file listing")),
        };
        if adapter == Adapter::MiniMax {
            return Err(
                error::invalid(
                    "MiniMax file listing requires list_for_purpose with an explicit purpose",
                ),
            );
        }
        self.list_inner(adapter, None, cursor)
    }

    /// The request for a page of the files of one purpose, for an API that requires
    /// a purpose filter (MiniMax) or documents one (OpenAI, Qwen). Other adapters
    /// refuse rather than return an unfiltered page.
    pub fn list_for_purpose(&self, purpose: FilePurpose, cursor: Option<&str>) -> (result: Result<
        ListPlan,
        LlmError,
    >)
        ensures
            views::res(result) == purpose_list(*self.profile, purpose, cursor.deep_view()),
    {
        let adapter = match policy::adapter(self.profile) {
            Some(adapter) => adapter,
            None => return Err(http::unsupported("file listing")),
        };
        if adapter != Adapter::MiniMax && adapter != Adapter::OpenAi && adapter != Adapter::Qwen {
            return Err(http::unsupported("file listing filtered by purpose"));
        }
        if adapter != Adapter::MiniMax && policy::purpose_name(adapter, purpose).is_none() {
            return Err(http::unsupported("file listing for this purpose"));
        }
        if adapter == Adapter::MiniMax && rest::minimax_list_purpose(purpose).is_none() {
            return Err(http::unsupported("MiniMax file listing for this purpose"));
        }
        if adapter == Adapter::MiniMax && cursor.is_some() {
            return Err(http::unsupported("MiniMax file-list pagination"));
        }
        self.list_inner(adapter, Some(purpose), cursor)
    }

    /// What the reply to a listing comes to.
    pub fn listed(&self, plan: &ListPlan, response: &HttpResponse) -> (result: Result<
        ProviderFilePage,
        LlmError,
    >)
        ensures
            views::res(result) == (match rest::adapter_json(
                plan.adapter,
                *response,
                "file listing"@,
            ) {
                Err(error) => Err(error),
                Ok(value) => rest::page_in(
                    *self.profile,
                    self.account_scope.deep_view(),
                    plan.adapter,
                    plan.cursor_field,
                    value,
                ),
            }),
    {
        let value = rest::adapter_json_success(plan.adapter, response, "file listing")?;
        rest::decode_page(
            self.profile,
            &self.account_scope,
            plan.adapter,
            plan.cursor_field,
            &value,
        )
    }

    /// The request that deletes provider-owned storage. This does not delete the
    /// app's original attachment.
    pub fn delete_request(&self, file: &ProviderFileRef) -> (result: Result<HttpRequest, LlmError>)
        ensures
            views::res(result) == delete_request_in(
                *self.profile,
                self.account_scope.deep_view(),
                file@,
            ),
    {
        self.check_ref(file)?;
        let adapter = match policy::adapter(self.profile) {
            Some(adapter) => adapter,
            None => return Err(http::unsupported("file deletion")),
        };
        if !policy::capabilities_for_adapter(adapter).delete {
            return Err(http::unsupported("file deletion"));
        }
        if adapter == Adapter::MiniMax {
            let purpose = match &file.purpose {
                Some(purpose) => purpose,
                None => return Err(
                    error::invalid("MiniMax file deletion requires the original provider purpose"),
                ),
            };
            let purpose = match rest::minimax_delete_purpose(purpose) {
                Some(purpose) => purpose,
                None => return Err(http::unsupported("MiniMax deletion for this purpose")),
            };
            let body = json::object2(
                "file_id",
                json::string(&file.file_id),
                "purpose",
                json::string(purpose),
            );
            return Ok(
                self.request(
                    "POST",
                    text::cat2(&rest::files_url(self.profile, adapter), "/delete"),
                    json::to_bytes(&body),
                    Some("application/json".to_owned()),
                ),
            );
        }
        Ok(
            self.request(
                "DELETE",
                rest::file_url(self.profile, adapter, &file.file_id),
                Vec::new(),
                None,
            ),
        )
    }

    /// What the reply to a deletion comes to.
    pub fn deleted(&self, file: &ProviderFileRef, response: &HttpResponse) -> (result: Result<
        (),
        LlmError,
    >)
        ensures
            views::res(result) == deleted_in(*self.profile, file@, *response),
    {
        let adapter = match policy::adapter(self.profile) {
            Some(adapter) => adapter,
            None => return Err(http::unsupported("file deletion")),
        };
        if adapter != Adapter::Qwen {
            return rest::adapter_status_result(adapter, response, "file deletion");
        }
        let value = http::json_success(response, "file deletion")?;
        let gone = match value.bool_at("deleted") {
            Some(gone) => gone,
            None => false,
        };
        if gone && str_is(value.str_at("id"), &file.file_id) {
            Ok(())
        } else {
            Err(http::provider_shape("Qwen did not confirm deletion of the requested file"))
        }
    }

    /// The request for the original bytes, where the provider documents that
    /// uploaded files are retrievable.
    pub fn plan_download(&self, file: &ProviderFileRef) -> (result: Result<DownloadPlan, LlmError>)
        ensures
            views::res(result) == download_plan(
                *self.profile,
                self.account_scope.deep_view(),
                file@,
            ),
    {
        self.check_ref(file)?;
        let adapter = match policy::adapter(self.profile) {
            Some(adapter) => adapter,
            None => return Err(http::unsupported("file download")),
        };
        let support = policy::capabilities_for_adapter(adapter).download;
        if support == DownloadSupport::Unsupported {
            return Err(http::unsupported("file download"));
        }
        let content = rest::content_url(self.profile, adapter, &file.file_id);
        let url = if adapter == Adapter::MiniMax {
            text::cat3(&content, "?file_id=", &http::query_value(&file.file_id))
        } else {
            content
        };
        let request = self.request("GET", url, Vec::new(), None);
        if support == DownloadSupport::UploadedFiles {
            Ok(DownloadPlan::Direct { request })
        } else {
            Ok(DownloadPlan::IfMarked { request })
        }
    }

    /// Whether the metadata allows the download.
    pub fn check_marked(&self, metadata: &ProviderFileMetadata) -> (result: Result<(), LlmError>)
        ensures
            views::res(result) == http::checked(
                if metadata.file.downloadable == Some(true) {
                    None
                } else {
                    Some(http::unsupported_error("download of this uploaded file"@))
                },
            ),
    {
        match metadata.file.downloadable {
            Some(true) => Ok(()),
            _ => Err(http::unsupported("download of this uploaded file")),
        }
    }

    /// The media type that a download's headers state.
    pub fn download_media_type(&self, headers: &Vec<(String, String)>) -> (result: Option<String>)
        ensures
            result.deep_view() == (match transport::header_in(
                headers.deep_view(),
                "content-type"@,
                0,
            ) {
                Some(value) => Some(essence(value)),
                None => None,
            }),
    {
        match transport::find_header(headers, "content-type") {
            Some(value) => Some(media_essence(value)),
            None => None,
        }
    }

    /// The error of a download whose status is no success, with what was kept of
    /// its body.
    pub fn download_failed(&self, status: u16, body: &[u8]) -> (error: LlmError)
        ensures
            error@ == http::status_error_view(
                status,
                text::lossy_text(body@),
                "file download"@,
            ),
    {
        http::status_error(status, &text::lossy(body), "file download")
    }

    /// The request for the provider's text representation of a file.
    pub fn extract_request(&self, file: &ProviderFileRef) -> (result: Result<HttpRequest, LlmError>)
        ensures
            views::res(result) == (match operation_adapter(
                file@,
                *self.profile,
                self.account_scope.deep_view(),
                |caps: FileCapabilities| caps.extract_text,
                "text extraction"@,
            ) {
                Err(error) => Err(error),
                Ok(adapter) => Ok(
                    file_request(
                        *self.profile,
                        "GET"@,
                        rest::files_endpoint(self.profile.base_url@, adapter) + "/"@
                            + http::query_text(file.file_id@) + "/content"@,
                        Seq::empty(),
                        None,
                    ),
                ),
            }),
    {
        self.check_ref(file)?;
        let adapter = match policy::adapter(self.profile) {
            Some(adapter) => adapter,
            None => return Err(http::unsupported("text extraction")),
        };
        if !policy::capabilities_for_adapter(adapter).extract_text {
            return Err(http::unsupported("text extraction"));
        }
        let url = text::cat4(
            &rest::files_url(self.profile, adapter),
            "/",
            &http::query_value(&file.file_id),
            "/content",
        );
        Ok(self.request("GET", url, Vec::new(), None))
    }

    /// What the reply to a text extraction comes to.
    pub fn extracted(&self, response: HttpResponse) -> (result: Result<String, LlmError>)
        ensures
            views::res(result) == (match http::response_error(
                response,
                "file text extraction"@,
            ) {
                Some(error) => Err(error),
                None => if valid_utf8(response.body@) {
                    Ok(decode_utf8(response.body@))
                } else {
                    Err(
                        http::shape_error(
                            "extracted file text is not UTF-8: "@ + text::utf8_error_text(
                                response.body@,
                            ),
                        ),
                    )
                },
            }),
    {
        http::status_result(&response, "file text extraction")?;
        match text::from_utf8(response.body) {
            Ok(text) => Ok(text),
            Err(error) => Err(
                http::provider_shape(&text::cat2("extracted file text is not UTF-8: ", &error)),
            ),
        }
    }

    /// How long Gemini's transfer and its processing may take, in milliseconds.
    pub fn gemini_timeouts(&self, media_type: &str) -> (result: (u64, u64))
        ensures
            result == gemini_times(
                self.gemini_upload_timeout,
                self.gemini_processing_timeout,
                media_type@,
            ),
    {
        let video = text::starts_with(&text::to_lower(media_type), "video/");
        let wanted = match self.gemini_upload_timeout {
            Some(timeout) => timeout,
            None => if video {
                GEMINI_VIDEO_FILE_TIMEOUT
            } else {
                FILE_TIMEOUT
            },
        };
        let wait = match self.gemini_processing_timeout {
            Some(timeout) => timeout,
            None => DEFAULT_GEMINI_PROCESSING_TIMEOUT,
        };
        if video {
            (least(wanted, GEMINI_VIDEO_FILE_TIMEOUT), least(wait, GEMINI_VIDEO_FILE_TIMEOUT))
        } else {
            (wanted, wait)
        }
    }

    /// The request that starts a Gemini upload, before authentication.
    pub fn gemini_start(&self, file: &UploadFile) -> (request: HttpRequest)
        ensures
            request@ == file_request(
                *self.profile,
                "POST"@,
                http::gemini_upload_endpoint(self.profile.base_url@),
                json::bytes_of(
                    json::obj1(
                        "file"@,
                        json::obj1("display_name"@, JsonView::Str(file.filename@)),
                    ),
                ),
                Some("application/json"@),
            ),
    {
        let body = json::object1(
            "file",
            json::object1("display_name", json::string(&file.filename)),
        );
        self.request(
            "POST",
            http::gemini_upload_url(self.profile),
            json::to_bytes(&body),
            Some("application/json".to_owned()),
        )
    }

    /// The headers that the authenticated start request gets on top.
    pub fn gemini_start_headers(&self, file: &UploadFile) -> (headers: Vec<(String, String)>)
        ensures
            headers.deep_view() == seq![
                ("x-goog-upload-protocol"@, "resumable"@),
                ("x-goog-upload-command"@, "start"@),
                (
                    "x-goog-upload-header-content-length"@,
                    text::decimal_text(file.bytes@.len()),
                ),
                ("x-goog-upload-header-content-type"@, file.media_type@),
            ],
    {
        let mut headers: Vec<(String, String)> = Vec::new();
        headers.push(("x-goog-upload-protocol".to_owned(), "resumable".to_owned()));
        headers.push(("x-goog-upload-command".to_owned(), "start".to_owned()));
        headers.push(
            (
                "x-goog-upload-header-content-length".to_owned(),
                text::decimal(file.bytes.len() as u64),
            ),
        );
        headers.push(
            ("x-goog-upload-header-content-type".to_owned(), file.media_type.clone()),
        );
        assert(headers.deep_view() =~= seq![
            ("x-goog-upload-protocol"@, "resumable"@),
            ("x-goog-upload-command"@, "start"@),
            ("x-goog-upload-header-content-length"@, text::decimal_text(file.bytes@.len())),
            ("x-goog-upload-header-content-type"@, file.media_type@),
        ]);
        headers
    }

    /// Where the bytes of a started Gemini upload go. The URL is a temporary bearer
    /// capability: it has to stay on the configured API's origin.
    pub fn gemini_started(&self, response: &HttpResponse) -> (result: Result<String, LlmError>)
        ensures
            views::res(result) == (match http::response_error(
                *response,
                "Gemini file upload start"@,
            ) {
                Some(error) => Err(error),
                None => match transport::header_in(
                    response.headers.deep_view(),
                    "x-goog-upload-url"@,
                    0,
                ) {
                    None => Err(
                        http::shape_error("Gemini upload start omitted x-goog-upload-url"@),
                    ),
                    Some(url) => if http::origin_matches(
                        crate::encoding::url_parts(url),
                        crate::encoding::url_parts(self.profile.base_url@),
                    ) {
                        Ok(url)
                    } else {
                        Err(
                            LlmErrorView::PermissionDenied {
                                message:
                                    "Gemini returned an upload URL outside the configured API origin"@,
                            },
                        )
                    },
                },
            }),
    {
        http::status_result(response, "Gemini file upload start")?;
        match response.header("x-goog-upload-url") {
            None => Err(http::provider_shape("Gemini upload start omitted x-goog-upload-url")),
            Some(url) => if http::same_origin(url, &self.profile.base_url) {
                Ok(url.to_owned())
            } else {
                Err(
                    LlmError::PermissionDenied {
                        message:
                            "Gemini returned an upload URL outside the configured API origin".to_owned(),
                    },
                )
            },
        }
    }

    /// The request that transfers the bytes. It carries no credential.
    pub fn gemini_transfer(&self, file: &UploadFile, upload_url: &str, timeout: u64) -> (request:
        HttpRequest)
        ensures
            request@ == (HttpRequestView {
                method: "POST"@,
                url: upload_url@,
                headers: seq![
                    ("content-length"@, text::decimal_text(file.bytes@.len())),
                    ("x-goog-upload-offset"@, "0"@),
                    ("x-goog-upload-command"@, "upload, finalize"@),
                ],
                body: file.bytes@,
                timeout: Some(timeout),
            }),
    {
        let mut headers: Vec<(String, String)> = Vec::new();
        headers.push(("content-length".to_owned(), text::decimal(file.bytes.len() as u64)));
        headers.push(("x-goog-upload-offset".to_owned(), "0".to_owned()));
        headers.push(("x-goog-upload-command".to_owned(), "upload, finalize".to_owned()));
        assert(headers.deep_view() =~= seq![
            ("content-length"@, text::decimal_text(file.bytes@.len())),
            ("x-goog-upload-offset"@, "0"@),
            ("x-goog-upload-command"@, "upload, finalize"@),
        ]);
        let mut body: Vec<u8> = Vec::new();
        text::append_bytes(&mut body, &file.bytes);
        assert(body@ =~= file.bytes@);
        HttpRequest {
            method: "POST".to_owned(),
            url: upload_url.to_owned(),
            headers,
            body,
            timeout: Some(timeout),
        }
    }

    /// What the body of the reply to the finished transfer comes to.
    pub fn gemini_transferred(&self, file: &UploadFile, value: &Json) -> (step: GeminiStep)
        ensures
            step.deep_view() == transferred_in(
                *self.profile,
                self.account_scope.deep_view(),
                *file,
                value@,
            ),
    {
        let resource = match value.get("file") {
            Some(file) => file,
            None => value,
        };
        let metadata = match rest::decode_metadata(self.profile, &self.account_scope, resource) {
            Ok(metadata) => metadata,
            Err(error) => return GeminiStep::Failed { error },
        };
        let found = ProviderFileRef {
            media_type: Some(file.media_type.clone()),
            filename: Some(file.filename.clone()),
            ..metadata.file
        };
        let state = resource.str_at("state");
        if str_is(state, "FAILED") {
            GeminiStep::Failed { error: http::provider_shape("Gemini file processing failed") }
        } else if str_is(state, "PROCESSING") {
            GeminiStep::Pending { file: found }
        } else if state.is_some() && !str_is(state, "ACTIVE") {
            GeminiStep::Unresolved {
                file: found,
                error: http::provider_shape(
                    "Gemini file upload returned an unknown processing state",
                ),
            }
        } else if lacks_uri(&found.uri) {
            GeminiStep::Unresolved {
                file: found,
                error: http::provider_shape("Gemini file upload omitted the model-input URI"),
            }
        } else {
            GeminiStep::Ready { file: found }
        }
    }

    /// The request for the state of a pending Gemini file, before authentication.
    pub fn gemini_poll(&self, pending: &ProviderFileRef) -> (request: HttpRequest)
        ensures
            request@ == file_request(
                *self.profile,
                "GET"@,
                rest::file_endpoint(self.profile.base_url@, Adapter::Gemini, pending.file_id@),
                Seq::empty(),
                None,
            ),
    {
        self.request(
            "GET",
            rest::file_url(self.profile, Adapter::Gemini, &pending.file_id),
            Vec::new(),
            None,
        )
    }

    /// What the body of the reply to a poll comes to.
    pub fn gemini_polled(&self, pending: ProviderFileRef, value: &Json) -> (step: GeminiStep)
        ensures
            step.deep_view() == polled_in(
                *self.profile,
                self.account_scope.deep_view(),
                pending@,
                value@,
            ),
    {
        let resource = match value.get("file") {
            Some(file) => file,
            None => value,
        };
        let state = resource.str_at("state");
        if str_is(state, "ACTIVE") {
            let metadata = match rest::decode_metadata(
                self.profile,
                &self.account_scope,
                resource,
            ) {
                Ok(metadata) => metadata,
                Err(error) => return GeminiStep::Unresolved { file: pending, error },
            };
            if !text::same(&metadata.file.file_id, &pending.file_id) {
                return GeminiStep::Unresolved {
                    file: pending,
                    error: http::provider_shape("Gemini file status returned another file ID"),
                };
            }
            let found = metadata.file;
            let found = ProviderFileRef {
                uri: or_owned(found.uri, &pending.uri),
                media_type: or_owned(found.media_type, &pending.media_type),
                filename: or_owned(found.filename, &pending.filename),
                ..found
            };
            if lacks_uri(&found.uri) {
                return GeminiStep::Unresolved {
                    file: pending,
                    error: http::provider_shape("Gemini active file omitted the model-input URI"),
                };
            }
            GeminiStep::Ready { file: found }
        } else if str_is(state, "FAILED") {
            GeminiStep::Failed { error: http::provider_shape("Gemini file processing failed") }
        } else if str_is(state, "PROCESSING") {
            GeminiStep::Pending { file: pending }
        } else {
            GeminiStep::Unresolved {
                file: pending,
                error: http::provider_shape("Gemini file processing returned an unknown state"),
            }
        }
    }

    /// The pending file that a caller wants to go on waiting for.
    pub fn resume_gemini(&self, file: &ProviderFileSource) -> (result: Result<
        ProviderFileRef,
        LlmError,
    >)
        ensures
            views::res(result) == resumed(
                *self.profile,
                self.account_scope.deep_view(),
                file@,
            ),
    {
        let gemini = match policy::adapter(self.profile) {
            Some(Adapter::Gemini) => true,
            _ => false,
        };
        if !gemini {
            return Err(http::unsupported("Gemini file processing"));
        }
        if !self.has_scope() || text::is_blank(&file.file_id) {
            return Err(
                error::invalid(
                    "Gemini processing resume requires an account scope and file ID",
                ),
            );
        }
        let pending = ProviderFileRef {
            provider_id: file.provider_id.clone(),
            profile_name: file.profile_name.clone(),
            endpoint_fingerprint: file.endpoint_fingerprint.clone(),
            account_scope: inference::dup_text(&file.account_scope),
            protocol: file.protocol,
            file_id: file.file_id.clone(),
            uri: inference::dup_text(&file.uri),
            filename: None,
            media_type: inference::dup_text(&file.media_type),
            size_bytes: None,
            expires_at: None,
            downloadable: None,
            purpose: inference::dup_text(&file.purpose),
        };
        self.check_ref(&pending)?;
        Ok(pending)
    }

    /// Whether Qwen's parsing of a file has to be waited for at all.
    pub fn qwen_wait(&self, file: &ProviderFileRef) -> (result: Result<bool, LlmError>)
        ensures
            views::res(result) == (if policy::adapter_of(*self.profile) != Some(Adapter::Qwen) {
                Ok::<bool, LlmErrorView>(false)
            } else if policy::qwen_file_id(file.file_id@) {
                Ok(true)
            } else {
                Err(http::shape_error("Qwen upload returned an invalid file ID"@))
            }),
    {
        if !policy::needs_automatic_cleanup(self.profile) {
            Ok(false)
        } else if policy::valid_qwen_file_id(&file.file_id) {
            Ok(true)
        } else {
            Err(http::provider_shape("Qwen upload returned an invalid file ID"))
        }
    }

    /// The request for the state of Qwen's parsing, before authentication.
    pub fn qwen_poll(&self, file: &ProviderFileRef) -> (request: HttpRequest)
        ensures
            request@ == file_request(
                *self.profile,
                "GET"@,
                rest::file_endpoint(self.profile.base_url@, Adapter::Qwen, file.file_id@),
                Seq::empty(),
                None,
            ),
    {
        self.request(
            "GET",
            rest::file_url(self.profile, Adapter::Qwen, &file.file_id),
            Vec::new(),
            None,
        )
    }

    /// What the reply to a poll of Qwen's parsing comes to.
    pub fn qwen_polled(&self, file: &ProviderFileRef, response: &HttpResponse) -> (step: QwenStep)
        ensures
            step.deep_view() == qwen_polled_in(
                *self.profile,
                self.account_scope.deep_view(),
                file@,
                *response,
            ),
    {
        let value = match rest::adapter_json_success(Adapter::Qwen, response, "file metadata") {
            Ok(value) => value,
            Err(error) => {
                return match error {
                    LlmError::RateLimited { .. } => QwenStep::Pending,
                    error => QwenStep::Failed { error },
                };
            },
        };
        let metadata = match rest::decode_metadata(self.profile, &self.account_scope, &value) {
            Ok(metadata) => metadata,
            Err(error) => return QwenStep::Failed { error },
        };
        if !text::same(&metadata.file.file_id, &file.file_id) {
            return QwenStep::Failed {
                error: http::provider_shape("Qwen file metadata returned another file ID"),
            };
        }
        if is_text(&metadata.status, "processed") {
            QwenStep::Ready
        } else if is_text(&metadata.status, "error") {
            QwenStep::Failed { error: http::provider_shape("Qwen file parsing failed") }
        } else if is_text(&metadata.status, "uploaded") || is_text(
            &metadata.status,
            "processing",
        ) {
            QwenStep::Pending
        } else {
            QwenStep::Failed {
                error: http::provider_shape("Qwen file metadata has an unknown status"),
            }
        }
    }
}

/// What resuming a pending file comes to.
pub open spec fn resumed(
    profile: ProviderProfile,
    scope: Option<Seq<char>>,
    file: ProviderFileSourceView,
) -> Result<ProviderFileRefView, LlmErrorView> {
    let pending = ProviderFileRefView {
        provider_id: file.provider_id,
        profile_name: file.profile_name,
        endpoint_fingerprint: file.endpoint_fingerprint,
        account_scope: file.account_scope,
        protocol: file.protocol,
        file_id: file.file_id,
        uri: file.uri,
        filename: None,
        media_type: file.media_type,
        size_bytes: None,
        expires_at: None,
        downloadable: None,
        purpose: file.purpose,
    };
    if policy::adapter_of(profile) != Some(Adapter::Gemini) {
        Err(http::unsupported_error("Gemini file processing"@))
    } else if no_scope(scope) || text::blank(file.file_id) {
        Err(
            error::invalid_view(
                "Gemini processing resume requires an account scope and file ID"@,
            ),
        )
    } else {
        match ref_error(pending, profile, scope) {
            Some(error) => Err(error),
            None => Ok(pending),
        }
    }
}

/// The error that keeps a pending file recoverable. `message` is the displayed
/// cause.
pub fn gemini_processing_unresolved(pending: &ProviderFileRef, message: &str) -> (error: LlmError)
    ensures
        error@ == (LlmErrorView::ProviderFileProcessing {
            message: message@,
            file: types::source_of(pending@),
        }),
{
    LlmError::ProviderFileProcessing {
        message: message.to_owned(),
        file: pending.model_reference(),
    }
}

/// What is left of a wait, in milliseconds on one clock.
pub open spec fn left(deadline: u64, now: u64) -> u64 {
    if now < deadline {
        (deadline - now) as u64
    } else {
        0
    }
}

/// What is left of an upload, or the timeout. `timeout` is the displayed limit.
pub fn gemini_timeout_remaining(deadline: u64, now: u64, timeout: &str, phase: &str) -> (result:
    Result<u64, LlmError>)
    ensures
        views::res(result) == (if left(deadline, now) == 0 {
            Err::<u64, LlmErrorView>(
                LlmErrorView::TransportTimeout {
                    message: "Gemini file "@ + phase@ + " timed out after "@ + timeout@,
                },
            )
        } else {
            Ok(left(deadline, now))
        }),
{
    if now < deadline {
        Ok(deadline - now)
    } else {
        Err(
            LlmError::TransportTimeout {
                message: text::cat4("Gemini file ", phase, " timed out after ", timeout),
            },
        )
    }
}

/// What is left of the wait for a pending file, or the error that keeps it
/// recoverable. `timeout` is the displayed limit.
pub fn gemini_processing_remaining(
    deadline: u64,
    now: u64,
    timeout: &str,
    pending: &ProviderFileRef,
) -> (result: Result<u64, LlmError>)
    ensures
        views::res(result) == (if left(deadline, now) == 0 {
            Err::<u64, LlmErrorView>(
                LlmErrorView::ProviderFileProcessing {
                    message: "Gemini file remains PROCESSING after "@ + timeout@,
                    file: types::source_of(pending@),
                },
            )
        } else {
            Ok(left(deadline, now))
        }),
{
    if now < deadline {
        Ok(deadline - now)
    } else {
        Err(
            gemini_processing_unresolved(
                pending,
                &text::cat2("Gemini file remains PROCESSING after ", timeout),
            ),
        )
    }
}

/// Appends a piece of a download, within the cap.
pub fn append_download(body: &mut Vec<u8>, frame: &[u8]) -> (result: Result<(), LlmError>)
    ensures
        if old(body)@.len() + frame@.len() > MAX_PROVIDER_FILE_DOWNLOAD_BYTES {
            final(body)@ == old(body)@ && views::res(result) == Err::<(), LlmErrorView>(
                LlmErrorView::RequestTooLarge {
                    message: "provider file exceeds the 67108864 byte download cap"@,
                },
            )
        } else {
            final(body)@ == old(body)@ + frame@ && result is Ok
        },
{
    let over = body.len() > MAX_PROVIDER_FILE_DOWNLOAD_BYTES || frame.len()
        > MAX_PROVIDER_FILE_DOWNLOAD_BYTES - body.len();
    if over {
        return Err(
            LlmError::RequestTooLarge {
                message: "provider file exceeds the 67108864 byte download cap".to_owned(),
            },
        );
    }
    text::append_bytes(body, frame);
    Ok(())
}

/// Appends a piece of an error's body, up to the cap. Says whether there is room
/// for more.
pub fn append_error_body(body: &mut Vec<u8>, frame: &[u8], cap: usize) -> (more: bool)
    ensures
        old(body)@.len() >= cap ==> final(body)@ == old(body)@ && !more,
        old(body)@.len() < cap ==> more && final(body)@ == old(body)@ + (if frame@.len()
            <= cap - old(body)@.len() {
            frame@
        } else {
            frame@.take(cap - old(body)@.len())
        }),
{
    if body.len() >= cap {
        return false;
    }
    let room = cap - body.len();
    let ghost before = body@;
    let n = if frame.len() <= room {
        frame.len()
    } else {
        room
    };
    let mut i: usize = 0;
    while i < n
        invariant
            i <= n <= frame.len(),
            body@ == before + frame@.take(i as int),
        decreases n - i,
    {
        body.push(frame[i]);
        i = i + 1;
        assert(frame@.take(i as int) =~= frame@.take(i - 1).push(frame@[i - 1]));
    }
    assert(frame@.take(frame@.len() as int) =~= frame@);
    true
}

/// How long to wait until a paced operation may start, in milliseconds on one
/// clock.
pub fn pace(next: u64, now: u64) -> (delay: u64)
    ensures
        delay == left(next, now),
{
    if now < next {
        next - now
    } else {
        0
    }
}

/// The files without those of the ID.
pub open spec fn without_file(files: Seq<ProviderFileRefView>, file_id: Seq<char>, i: int) -> Seq<
    ProviderFileRefView,
>
    decreases files.len() - i,
{
    if i < 0 || i >= files.len() {
        Seq::empty()
    } else if files[i].file_id == file_id {
        without_file(files, file_id, i + 1)
    } else {
        seq![files[i]] + without_file(files, file_id, i + 1)
    }
}

/// Forgets a file that was deleted.
pub fn release(pending: Vec<ProviderFileRef>, file_id: &str) -> (kept: Vec<ProviderFileRef>)
    ensures
        kept.deep_view() == without_file(pending.deep_view(), file_id@, 0),
{
    let ghost all = pending.deep_view();
    let mut rest = pending;
    let mut kept: Vec<ProviderFileRef> = Vec::new();
    let ghost mut i: int = 0;
    assert(all.skip(0) =~= all);
    assert(kept.deep_view() + without_file(all, file_id@, 0) =~= without_file(all, file_id@, 0));
    while rest.len() > 0
        invariant
            0 <= i <= all.len(),
            rest.deep_view() == all.skip(i),
            kept.deep_view() + without_file(all, file_id@, i) == without_file(all, file_id@, 0),
        decreases rest.len(),
    {
        let ghost before = rest@;
        let ghost kept_before = kept.deep_view();
        assert(views::each(before)[0] == before[0]@);
        assert(views::each(before).len() == all.len() - i);
        let file = rest.remove(0);
        assert(all.skip(i)[0] == all[i]);
        assert(views::each(rest@) =~= views::each(before).skip(1));
        assert(all.skip(i).skip(1) =~= all.skip(i + 1));
        if !text::same(&file.file_id, file_id) {
            kept.push(file);
            assert(kept_before.push(file@) + without_file(all, file_id@, i + 1) =~= kept_before + (
            seq![all[i]] + without_file(all, file_id@, i + 1)));
        }
        proof {
            i = i + 1;
        }
    }
    assert(kept.deep_view() + Seq::<ProviderFileRefView>::empty() =~= kept.deep_view());
    kept
}

/// The wait before the next try of a deletion in the background, in milliseconds,
/// where there is one.
pub fn cleanup_retry(attempt: u32) -> (result: Option<u64>)
    ensures
        result == (if attempt == 0 {
            Some(1_000u64)
        } else if attempt == 1 {
            Some(2_000u64)
        } else {
            None
        }),
{
    if attempt == 0 {
        Some(1_000)
    } else if attempt == 1 {
        Some(2_000)
    } else {
        None
    }
}

/// A file that a connection's reply states is that connection's own: it passes
/// the check of later operations, and so does the reference made of it, wherever
/// an account scope is there.
pub proof fn a_decoded_file_belongs_to_its_connection(
    profile: ProviderProfile,
    scope: Option<Seq<char>>,
    value: JsonView,
)
    requires
        rest::metadata_in(profile, scope, value) is Ok,
    ensures
        ({
            let file = rest::metadata_in(profile, scope, value)->Ok_0.file;
            &&& ref_error(file, profile, scope) is None
            &&& policy::belongs(types::source_of(file), profile, scope)
        }),
{
}

/// A file of one connection is refused on another, unless the two share the
/// profile name, the provider, the protocol, the endpoint and the account scope.
pub proof fn a_file_is_refused_elsewhere(
    file: ProviderFileRefView,
    profile: ProviderProfile,
    other: ProviderProfile,
    scope: Option<Seq<char>>,
    other_scope: Option<Seq<char>>,
)
    requires
        owned(file, profile, scope),
        profile.profile_name@ != other.profile_name@ || profile.provider_id@ != other.provider_id@
            || profile.protocol != other.protocol || http::fingerprint_of(profile.base_url@)
            != http::fingerprint_of(other.base_url@) || scope != other_scope,
    ensures
        ref_error(file, other, other_scope) is Some,
        !policy::belongs(types::source_of(file), other, other_scope),
{
}

/// What resuming gives back is the reference that was pending.
pub proof fn a_resumed_file_is_the_pending_one(
    profile: ProviderProfile,
    scope: Option<Seq<char>>,
    file: ProviderFileSourceView,
)
    requires
        resumed(profile, scope, file) is Ok,
    ensures
        types::source_of(resumed(profile, scope, file)->Ok_0) == file,
{
}

} // verus!
