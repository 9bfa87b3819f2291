//! File REST shapes, with the exceptions of each vendor.

use crate::encoding;
use crate::files::http;
use crate::files::policy::{self, Adapter};
use crate::files::types::{
    FilePurpose, ProviderFileMetadata, ProviderFileMetadataView, ProviderFilePage,
    ProviderFilePageView, ProviderFileRef, ProviderFileRefView,
};
use crate::json::{self, Json, JsonView};
use crate::protocol::inference;
use crate::protocol::{LlmError, LlmErrorView, ProviderProfile};
use crate::text;
use crate::transport::HttpResponse;
use crate::views;
use vstd::prelude::*;

verus! {

broadcast use {crate::views::group_views, crate::json::group_json};

/// The root of MiniMax's files: the origin of the base URL, not its path.
pub open spec fn minimax_root(base_url: Seq<char>) -> Option<Seq<char>> {
    match encoding::url_parts(base_url) {
        Some(parts) => Some(
            parts.scheme + "://"@ + (match parts.host {
                Some(host) => host,
                None => ""@,
            }) + "/v1/files"@,
        ),
        None => None,
    }
}

/// The collection of files of a connection.
pub open spec fn files_endpoint(base_url: Seq<char>, adapter: Adapter) -> Seq<char> {
    let base = text::without_trailing(base_url, '/');
    match adapter {
        Adapter::Anthropic => if "/v1"@.is_suffix_of(base) {
            base + "/files"@
        } else {
            base + "/v1/files"@
        },
        Adapter::Gemini => if "/v1beta"@.is_suffix_of(base) {
            base + "/files"@
        } else {
            base + "/v1beta/files"@
        },
        Adapter::MiniMax => match minimax_root(base_url) {
            Some(root) => root,
            None => base + "/files"@,
        },
        _ => base + "/files"@,
    }
}

pub fn files_url(profile: &ProviderProfile, adapter: Adapter) -> (result: String)
    ensures
        result@ == files_endpoint(profile.base_url@, adapter),
{
    let base = text::trim_end_char(&profile.base_url, '/');
    match adapter {
        Adapter::Anthropic => if text::ends_with(&base, "/v1") {
            text::cat2(&base, "/files")
        } else {
            text::cat2(&base, "/v1/files")
        },
        Adapter::Gemini => if text::ends_with(&base, "/v1beta") {
            text::cat2(&base, "/files")
        } else {
            text::cat2(&base, "/v1beta/files")
        },
        Adapter::MiniMax => match encoding::parse_url(&profile.base_url) {
            Some(parts) => {
                let host = match &parts.host {
                    Some(host) => host.as_str(),
                    None => "",
                };
                text::cat4(&parts.scheme, "://", host, "/v1/files")
            },
            None => text::cat2(&base, "/files"),
        },
        _ => text::cat2(&base, "/files"),
    }
}

/// One file of a connection.
pub open spec fn file_endpoint(base_url: Seq<char>, adapter: Adapter, file_id: Seq<char>) -> Seq<
    char,
> {
    match adapter {
        Adapter::MiniMax => files_endpoint(base_url, adapter) + "/retrieve"@,
        Adapter::Gemini => {
            let name = if "files/"@.is_prefix_of(file_id) {
                file_id
            } else {
                "files/"@ + file_id
            };
            let base = text::without_trailing(base_url, '/');
            let root = if "/v1beta"@.is_suffix_of(base) {
                base
            } else {
                base + "/v1beta"@
            };
            root + "/"@ + http::path_text(name)
        },
        _ => files_endpoint(base_url, adapter) + "/"@ + http::query_text(file_id),
    }
}

pub fn file_url(profile: &ProviderProfile, adapter: Adapter, file_id: &str) -> (result: String)
    ensures
        result@ == file_endpoint(profile.base_url@, adapter, file_id@),
{
    match adapter {
        Adapter::MiniMax => text::cat2(&files_url(profile, adapter), "/retrieve"),
        Adapter::Gemini => {
            let name = if text::starts_with(file_id, "files/") {
                file_id.to_owned()
            } else {
                text::cat2("files/", file_id)
            };
            let base = text::trim_end_char(&profile.base_url, '/');
            let root = if text::ends_with(&base, "/v1beta") {
                base
            } else {
                text::cat2(&base, "/v1beta")
            };
            text::cat3(&root, "/", &http::encoded_path(&name))
        },
        _ => text::cat3(&files_url(profile, adapter), "/", &http::query_value(file_id)),
    }
}

/// The content of one file of a connection.
pub open spec fn content_endpoint(base_url: Seq<char>, adapter: Adapter, file_id: Seq<char>) -> Seq<
    char,
> {
    match adapter {
        Adapter::Gemini => file_endpoint(base_url, adapter, file_id) + ":download?alt=media"@,
        Adapter::MiniMax => files_endpoint(base_url, adapter) + "/retrieve_content"@,
        _ => files_endpoint(base_url, adapter) + "/"@ + http::query_text(file_id) + "/content"@,
    }
}

pub fn content_url(profile: &ProviderProfile, adapter: Adapter, file_id: &str) -> (result: String)
    ensures
        result@ == content_endpoint(profile.base_url@, adapter, file_id@),
{
    match adapter {
        Adapter::Gemini => text::cat2(
            &file_url(profile, adapter, file_id),
            ":download?alt=media",
        ),
        Adapter::MiniMax => text::cat2(&files_url(profile, adapter), "/retrieve_content"),
        _ => text::cat4(
            &files_url(profile, adapter),
            "/",
            &http::query_value(file_id),
            "/content",
        ),
    }
}

/// The purposes that MiniMax lists by.
pub open spec fn minimax_listing(purpose: FilePurpose) -> Option<Seq<char>> {
    match purpose {
        FilePurpose::VoiceClone => Some("voice_clone"@),
        FilePurpose::PromptAudio => Some("prompt_audio"@),
        FilePurpose::AsyncTtsInput => Some("t2a_async_input"@),
        FilePurpose::VideoGenerationInput => Some("video_generation_input"@),
        _ => None,
    }
}

pub fn minimax_list_purpose(purpose: FilePurpose) -> (result: Option<&'static str>)
    ensures
        result.deep_view() == minimax_listing(purpose),
{
    match purpose {
        FilePurpose::VoiceClone => Some("voice_clone"),
        FilePurpose::PromptAudio => Some("prompt_audio"),
        FilePurpose::AsyncTtsInput => Some("t2a_async_input"),
        FilePurpose::VideoGenerationInput => Some("video_generation_input"),
        _ => None,
    }
}

/// What MiniMax deletes a file of the purpose as.
pub open spec fn minimax_deletion(purpose: Seq<char>) -> Option<Seq<char>> {
    if purpose == "voice_clone"@ || purpose == "prompt_audio"@ || purpose == "t2a_async"@ || purpose
        == "t2a_async_input"@ {
        Some(purpose)
    } else if purpose == "video_generation_input"@ || purpose == "video_generation"@ {
        Some("video_generation"@)
    } else {
        None
    }
}

pub fn minimax_delete_purpose(purpose: &str) -> (result: Option<&'static str>)
    ensures
        result.deep_view() == minimax_deletion(purpose@),
{
    if text::same(purpose, "voice_clone") {
        Some("voice_clone")
    } else if text::same(purpose, "prompt_audio") {
        Some("prompt_audio")
    } else if text::same(purpose, "t2a_async") {
        Some("t2a_async")
    } else if text::same(purpose, "t2a_async_input") {
        Some("t2a_async_input")
    } else if text::same(purpose, "video_generation_input") || text::same(
        purpose,
        "video_generation",
    ) {
        Some("video_generation")
    } else {
        None
    }
}

/// A status code, as a number or as its decimal text.
pub open spec fn status_code(value: JsonView) -> Option<int> {
    match json::i64_of(value) {
        Some(code) => Some(code as int),
        None => match json::str_of(value) {
            Some(code) => text::i64_value(code),
            None => None,
        },
    }
}

fn read_status_code(value: &Json) -> (result: Option<i64>)
    ensures
        match result {
            Some(code) => status_code(value@) == Some(code as int),
            None => status_code(value@) is None,
        },
{
    match value.as_i64() {
        Some(code) => Some(code),
        None => match value.as_str() {
            Some(code) => text::parse_i64(code),
            None => None,
        },
    }
}

/// What MiniMax reports in the body of a successful response, if an error.
pub open spec fn minimax_error(value: JsonView, operation: Seq<char>) -> Option<LlmErrorView> {
    match json::member(value, "base_resp"@) {
        None => Some(http::shape_error(operation + " response omitted base_resp"@)),
        Some(base) => {
            let code = match json::member(base, "status_code"@) {
                Some(code) => status_code(code),
                None => None,
            };
            let said = match json::str_at(base, "status_msg"@) {
                Some(said) => said,
                None => "provider returned an error"@,
            };
            match code {
                None => Some(
                    http::shape_error(
                        operation + " response has invalid base_resp.status_code"@,
                    ),
                ),
                Some(code) => if code == 0 {
                    None
                } else {
                    Some(
                        http::shape_error(
                            operation + " failed with MiniMax status "@ + text::signed_text(code)
                                + ": "@ + text::head(said, 512),
                        ),
                    )
                },
            }
        },
    }
}

pub fn check_minimax_base_response(value: &Json, operation: &str) -> (result: Result<(), LlmError>)
    ensures
        views::res(result) == http::checked(minimax_error(value@, operation@)),
{
    let base = match value.get("base_resp") {
        Some(base) => base,
        None => return Err(
            http::provider_shape(&text::cat2(operation, " response omitted base_resp")),
        ),
    };
    let code = match base.get("status_code") {
        Some(code) => read_status_code(code),
        None => None,
    };
    let code = match code {
        Some(code) => code,
        None => return Err(
            http::provider_shape(
                &text::cat2(operation, " response has invalid base_resp.status_code"),
            ),
        ),
    };
    if code == 0 {
        return Ok(());
    }
    let said = match base.str_at("status_msg") {
        Some(said) => said,
        None => "provider returned an error",
    };
    Err(
        http::provider_shape(
            &text::cat5(
                operation,
                " failed with MiniMax status ",
                &text::signed(code),
                ": ",
                &text::first_chars(said, 512),
            ),
        ),
    )
}

/// The JSON body of an adapter's response, or the error that it stands for.
pub open spec fn adapter_json(adapter: Adapter, response: HttpResponse, operation: Seq<char>) -> Result<
    JsonView,
    LlmErrorView,
> {
    match http::json_body(response, operation) {
        Err(error) => Err(error),
        Ok(value) => if adapter == Adapter::MiniMax && minimax_error(value, operation) is Some {
            Err(minimax_error(value, operation)->0)
        } else {
            Ok(value)
        },
    }
}

pub fn adapter_json_success(adapter: Adapter, response: &HttpResponse, operation: &str) -> (result:
    Result<Json, LlmError>)
    ensures
        views::res(result) == adapter_json(adapter, *response, operation@),
{
    let value = http::json_success(response, operation)?;
    if adapter == Adapter::MiniMax {
        check_minimax_base_response(&value, operation)?;
    }
    Ok(value)
}

/// The error that an adapter's response stands for, where only its success
/// counts.
pub open spec fn adapter_status(adapter: Adapter, response: HttpResponse, operation: Seq<char>) -> Result<
    (),
    LlmErrorView,
> {
    if adapter == Adapter::MiniMax {
        match adapter_json(adapter, response, operation) {
            Err(error) => Err(error),
            Ok(_) => Ok(()),
        }
    } else {
        http::checked(http::response_error(response, operation))
    }
}

pub fn adapter_status_result(adapter: Adapter, response: &HttpResponse, operation: &str) -> (result:
    Result<(), LlmError>)
    ensures
        views::res(result) == adapter_status(adapter, *response, operation@),
{
    if adapter == Adapter::MiniMax {
        adapter_json_success(adapter, response, operation)?;
        Ok(())
    } else {
        http::status_result(response, operation)
    }
}

/// Which field of a listing says where the next page starts.
#[derive(Debug, Clone, Copy, PartialEq, Eq, Structural)]
pub enum CursorField {
    OpenAi,
    Qwen,
    Anthropic,
    Gemini,
    Xai,
    OpenRouter,
    MiniMax,
}

/// The cursor's parameter, the page size's parameter and the page size.
pub open spec fn page_parameters(adapter: Adapter) -> Option<
    (Seq<char>, Seq<char>, CursorField),
> {
    match adapter {
        Adapter::OpenAi => Some(("after"@, "limit=100"@, CursorField::OpenAi)),
        Adapter::Qwen => Some(("after"@, "limit=100"@, CursorField::Qwen)),
        Adapter::Anthropic => Some(("page"@, "limit=1000"@, CursorField::Anthropic)),
        Adapter::Gemini => Some(("pageToken"@, "pageSize=100"@, CursorField::Gemini)),
        Adapter::Xai => Some(("pagination_token"@, "limit=100"@, CursorField::Xai)),
        Adapter::OpenRouter => Some(("cursor"@, "limit=100"@, CursorField::OpenRouter)),
        _ => None,
    }
}

fn parameters(adapter: Adapter) -> (result: Option<(&'static str, &'static str, CursorField)>)
    ensures
        result.deep_view() == page_parameters(adapter),
{
    match adapter {
        Adapter::OpenAi => Some(("after", "limit=100", CursorField::OpenAi)),
        Adapter::Qwen => Some(("after", "limit=100", CursorField::Qwen)),
        Adapter::Anthropic => Some(("page", "limit=1000", CursorField::Anthropic)),
        Adapter::Gemini => Some(("pageToken", "pageSize=100", CursorField::Gemini)),
        Adapter::Xai => Some(("pagination_token", "limit=100", CursorField::Xai)),
        Adapter::OpenRouter => Some(("cursor", "limit=100", CursorField::OpenRouter)),
        _ => None,
    }
}

impl DeepView for CursorField {
    type V = CursorField;

    open spec fn deep_view(&self) -> CursorField {
        *self
    }
}

/// The URL of one page of a listing, and the field that continues it.
pub open spec fn listing(
    base_url: Seq<char>,
    adapter: Adapter,
    purpose: Option<FilePurpose>,
    cursor: Option<Seq<char>>,
) -> (Seq<char>, CursorField) {
    let base = files_endpoint(base_url, adapter);
    if adapter == Adapter::MiniMax {
        let named = match purpose {
            Some(purpose) => minimax_listing(purpose),
            None => None,
        };
        match named {
            Some(named) => (
                base + "/list?purpose="@ + http::query_text(named),
                CursorField::MiniMax,
            ),
            None => (base + "/list"@, CursorField::MiniMax),
        }
    } else {
        match page_parameters(adapter) {
            None => (base, CursorField::OpenAi),
            Some((field, limit, continues)) => {
                let paged = match cursor {
                    Some(cursor) => limit + "&"@ + field + "="@ + http::query_text(cursor),
                    None => limit,
                };
                let named = match purpose {
                    Some(purpose) => policy::purpose_of(adapter, purpose),
                    None => None,
                };
                let query = match named {
                    Some(named) => if adapter == Adapter::OpenAi || adapter == Adapter::Qwen {
                        paged + "&purpose="@ + http::query_text(named)
                    } else {
                        paged
                    },
                    None => paged,
                };
                (base + "?"@ + query, continues)
            },
        }
    }
}

pub fn list_url(
    profile: &ProviderProfile,
    adapter: Adapter,
    purpose: Option<FilePurpose>,
    cursor: Option<&str>,
) -> (result: (String, CursorField))
    ensures
        (result.0@, result.1) == listing(
            profile.base_url@,
            adapter,
            purpose,
            cursor.deep_view(),
        ),
{
    let base = files_url(profile, adapter);
    if adapter == Adapter::MiniMax {
        let named = match purpose {
            Some(purpose) => minimax_list_purpose(purpose),
            None => None,
        };
        return match named {
            Some(named) => (
                text::cat3(&base, "/list?purpose=", &http::query_value(named)),
                CursorField::MiniMax,
            ),
            None => (text::cat2(&base, "/list"), CursorField::MiniMax),
        };
    }
    let (field, limit, continues) = match parameters(adapter) {
        Some(found) => found,
        None => return (base, CursorField::OpenAi),
    };
    let mut query = match cursor {
        Some(cursor) => text::cat5(limit, "&", field, "=", &http::query_value(cursor)),
        None => limit.to_owned(),
    };
    if adapter == Adapter::OpenAi || adapter == Adapter::Qwen {
        if let Some(purpose) = purpose {
            if let Some(named) = policy::purpose_name(adapter, purpose) {
                query.append("&purpose=");
                query.append(&http::query_value(named));
            }
        }
    }
    (text::cat3(&base, "?", &query), continues)
}

/// What is said of whether a file can be downloaded.
pub open spec fn downloadable_in(adapter: Adapter, value: JsonView) -> Option<bool> {
    match adapter {
        Adapter::Gemini => Some(
            json::str_at(value, "source"@) == Some("GENERATED"@) && (match json::member(
                value,
                "downloadUri"@,
            ) {
                Some(uri) => match http::nonempty(uri) {
                    Some(uri) => http::safe_uri(encoding::url_parts(uri)),
                    None => false,
                },
                None => false,
            }),
        ),
        Adapter::MiniMax => match json::either(value, "download_url"@, "downloadable"@) {
            Some(v) => match json::bool_of(v) {
                Some(b) => Some(b),
                None => if http::nonempty(v) is Some {
                    Some(true)
                } else {
                    None
                },
            },
            None => None,
        },
        _ => json::bool_at(value, "downloadable"@),
    }
}

fn downloadable(adapter: Adapter, value: &Json) -> (result: Option<bool>)
    ensures
        result == downloadable_in(adapter, value@),
{
    match adapter {
        Adapter::Gemini => {
            let generated = match value.str_at("source") {
                Some(source) => text::same(source, "GENERATED"),
                None => false,
            };
            if !generated {
                return Some(false);
            }
            match value.get("downloadUri") {
                Some(uri) => match http::nonempty_string(uri) {
                    Some(uri) => Some(http::valid_download_uri(&uri)),
                    None => Some(false),
                },
                None => Some(false),
            }
        },
        Adapter::MiniMax => match value.get_either("download_url", "downloadable") {
            Some(v) => match v.as_bool() {
                Some(b) => Some(b),
                None => if http::nonempty_string(v).is_some() {
                    Some(true)
                } else {
                    None
                },
            },
            None => None,
        },
        _ => value.bool_at("downloadable"),
    }
}

/// A scalar that may be there, as text.
pub open spec fn scalar_in(value: Option<JsonView>) -> Option<Seq<char>> {
    match value {
        Some(value) => http::scalar_text(value),
        None => None,
    }
}

fn scalar(value: Option<&Json>) -> (result: Option<String>)
    ensures
        result.deep_view() == scalar_in(value.deep_view()),
{
    match value {
        Some(value) => http::json_optional_scalar_string(value),
        None => None,
    }
}

/// A count that may be there.
pub open spec fn count_in(value: Option<JsonView>) -> Option<u64> {
    match value {
        Some(value) => http::count_of(value),
        None => None,
    }
}

fn count(value: Option<&Json>) -> (result: Option<u64>)
    ensures
        result == count_in(value.deep_view()),
{
    match value {
        Some(value) => http::json_u64(value),
        None => None,
    }
}

/// The URI of a file that states none.
pub open spec fn derived_uri(
    adapter: Adapter,
    purpose: Option<Seq<char>>,
    file_id: Seq<char>,
) -> Option<Seq<char>> {
    if adapter == Adapter::Qwen && purpose == Some("file-extract"@) {
        Some("fileid://"@ + file_id)
    } else if adapter == Adapter::MiniMax && purpose == Some("video_understanding"@) {
        Some("mm_file://"@ + file_id)
    } else {
        None
    }
}

/// The file resource: the value itself or what stands under `file` in it.
pub open spec fn resource(value: JsonView) -> JsonView {
    match json::member(value, "file"@) {
        Some(file) => file,
        None => value,
    }
}

/// The metadata that a file resource of an adapter states.
pub open spec fn metadata_for(
    adapter: Adapter,
    profile: ProviderProfile,
    scope: Option<Seq<char>>,
    value: JsonView,
) -> Result<ProviderFileMetadataView, LlmErrorView> {
    match scalar_in(json::either3(value, "id"@, "file_id"@, "name"@)) {
        None => Err(http::shape_error("file metadata has no id or name"@)),
        Some(file_id) => {
            let purpose = json::str_at(value, "purpose"@);
            let uri = match json::str_at(value, "uri"@) {
                Some(uri) => Some(uri),
                None => derived_uri(adapter, purpose, file_id),
            };
            Ok(
                ProviderFileMetadataView {
                    file: ProviderFileRefView {
                        provider_id: profile.provider_id@,
                        profile_name: profile.profile_name@,
                        endpoint_fingerprint: http::fingerprint_of(profile.base_url@),
                        account_scope: scope,
                        protocol: profile.protocol,
                        file_id,
                        uri,
                        filename: json::str_in(
                            json::either3(value, "filename"@, "display_name"@, "displayName"@),
                        ),
                        media_type: json::str_in(json::either(value, "mime_type"@, "mimeType"@)),
                        size_bytes: count_in(
                            json::either3(value, "bytes"@, "size_bytes"@, "sizeBytes"@),
                        ),
                        expires_at: scalar_in(
                            json::either(value, "expires_at"@, "expirationTime"@),
                        ),
                        downloadable: downloadable_in(adapter, value),
                        purpose,
                    },
                    created_at: scalar_in(json::either(value, "created_at"@, "createTime"@)),
                    status: json::str_in(json::either(value, "status"@, "state"@)),
                },
            )
        },
    }
}

/// The metadata that a value states on the connection.
pub open spec fn metadata_in(
    profile: ProviderProfile,
    scope: Option<Seq<char>>,
    value: JsonView,
) -> Result<ProviderFileMetadataView, LlmErrorView> {
    match policy::adapter_of(profile) {
        None => Err(http::unsupported_error("file metadata decoding"@)),
        Some(adapter) => metadata_for(adapter, profile, scope, resource(value)),
    }
}

/// The metadata behind [`decode_metadata`], for a known adapter.
pub fn decode_resource(
    adapter: Adapter,
    profile: &ProviderProfile,
    account_scope: &Option<String>,
    value: &Json,
) -> (result: Result<ProviderFileMetadata, LlmError>)
    ensures
        views::res(result) == metadata_for(
            adapter,
            *profile,
            account_scope.deep_view(),
            value@,
        ),
{
    let file_id = match scalar(value.get_either3("id", "file_id", "name")) {
        Some(file_id) => file_id,
        None => return Err(http::provider_shape("file metadata has no id or name")),
    };
    let purpose = json::owned_text_in(value.get("purpose"));
    let stated = json::owned_text_in(value.get("uri"));
    let extract = match &purpose {
        Some(purpose) => text::same(purpose, "file-extract"),
        None => false,
    };
    let video = match &purpose {
        Some(purpose) => text::same(purpose, "video_understanding"),
        None => false,
    };
    let uri = match stated {
        Some(uri) => Some(uri),
        None => if adapter == Adapter::Qwen && extract {
            Some(text::cat2("fileid://", &file_id))
        } else if adapter == Adapter::MiniMax && video {
            Some(text::cat2("mm_file://", &file_id))
        } else {
            None
        },
    };
    Ok(
        ProviderFileMetadata {
            file: ProviderFileRef {
                provider_id: profile.provider_id.clone(),
                profile_name: profile.profile_name.clone(),
                endpoint_fingerprint: http::provider_file_endpoint_fingerprint(&profile.base_url),
                account_scope: inference::dup_text(account_scope),
                protocol: profile.protocol,
                file_id,
                uri,
                filename: json::owned_text_in(
                    value.get_either3("filename", "display_name", "displayName"),
                ),
                media_type: json::owned_text_in(value.get_either("mime_type", "mimeType")),
                size_bytes: count(value.get_either3("bytes", "size_bytes", "sizeBytes")),
                expires_at: scalar(value.get_either("expires_at", "expirationTime")),
                downloadable: downloadable(adapter, value),
                purpose,
            },
            created_at: scalar(value.get_either("created_at", "createTime")),
            status: json::owned_text_in(value.get_either("status", "state")),
        },
    )
}

pub fn decode_metadata(
    profile: &ProviderProfile,
    account_scope: &Option<String>,
    value: &Json,
) -> (result: Result<ProviderFileMetadata, LlmError>)
    ensures
        views::res(result) == metadata_in(*profile, account_scope.deep_view(), value@),
{
    let value = match value.get("file") {
        Some(file) => file,
        None => value,
    };
    match policy::adapter(profile) {
        Some(adapter) => decode_resource(adapter, profile, account_scope, value),
        None => Err(http::unsupported("file metadata decoding")),
    }
}

/// The rows of a listing.
pub open spec fn rows_in(adapter: Adapter, value: JsonView) -> Option<JsonView> {
    if adapter == Adapter::Gemini {
        json::member(value, "files"@)
    } else if json::member2(value, "data"@, "files"@) is Some {
        json::member2(value, "data"@, "files"@)
    } else if json::member2(value, "data"@, "file_list"@) is Some {
        json::member2(value, "data"@, "file_list"@)
    } else if json::member2(value, "data"@, "data"@) is Some {
        json::member2(value, "data"@, "data"@)
    } else if json::member(value, "data"@) matches Some(JsonView::Array(_)) {
        json::member(value, "data"@)
    } else {
        json::either(value, "files"@, "file_list"@)
    }
}

fn rows<'a>(adapter: Adapter, value: &'a Json) -> (result: Option<&'a Json>)
    ensures
        result.deep_view() == rows_in(adapter, value@),
{
    if adapter == Adapter::Gemini {
        return value.get("files");
    }
    if let Some(rows) = value.get2("data", "files") {
        return Some(rows);
    }
    if let Some(rows) = value.get2("data", "file_list") {
        return Some(rows);
    }
    if let Some(rows) = value.get2("data", "data") {
        return Some(rows);
    }
    if let Some(rows) = value.get("data") {
        if rows.as_array().is_some() {
            return Some(rows);
        }
    }
    value.get_either("files", "file_list")
}

/// The metadata of the rows, from the `i`th on, after what came before.
pub open spec fn metadata_rows(
    profile: ProviderProfile,
    scope: Option<Seq<char>>,
    rows: Seq<JsonView>,
    i: int,
    before: Seq<ProviderFileMetadataView>,
) -> Result<Seq<ProviderFileMetadataView>, LlmErrorView>
    decreases rows.len() - i,
{
    if i < 0 || i >= rows.len() {
        Ok(before)
    } else {
        match metadata_in(profile, scope, rows[i]) {
            Err(error) => Err(error),
            Ok(metadata) => metadata_rows(profile, scope, rows, i + 1, before.push(metadata)),
        }
    }
}

/// A text that is not empty, in a member that may be there.
pub open spec fn nonempty_at(value: JsonView, key: Seq<char>) -> Option<Seq<char>> {
    match json::member(value, key) {
        Some(value) => http::nonempty(value),
        None => None,
    }
}

fn nonempty_member(value: &Json, key: &str) -> (result: Option<String>)
    ensures
        result.deep_view() == nonempty_at(value@, key@),
{
    match value.get(key) {
        Some(value) => http::nonempty_string(value),
        None => None,
    }
}

/// Where the next page starts.
pub open spec fn next_cursor_in(field: CursorField, value: JsonView, rows: Seq<JsonView>) -> Result<
    Option<Seq<char>>,
    LlmErrorView,
> {
    match field {
        CursorField::OpenAi => Ok(
            if json::bool_at(value, "has_more"@) == Some(true) {
                nonempty_at(value, "last_id"@)
            } else {
                None
            },
        ),
        CursorField::Qwen => if json::bool_at(value, "has_more"@) == Some(true) {
            let last = if rows.len() > 0 {
                nonempty_at(rows.last(), "id"@)
            } else {
                None
            };
            match last {
                Some(last) => Ok(Some(last)),
                None => Err(http::shape_error("Qwen file list has no next-page ID"@)),
            }
        } else {
            Ok(None)
        },
        CursorField::Anthropic => Ok(nonempty_at(value, "next_page"@)),
        CursorField::Gemini => Ok(nonempty_at(value, "nextPageToken"@)),
        CursorField::Xai => Ok(
            if rows.len() >= 100 {
                nonempty_at(value, "pagination_token"@)
            } else {
                None
            },
        ),
        CursorField::OpenRouter => Ok(
            match json::either(value, "next_cursor"@, "cursor"@) {
                Some(cursor) => http::nonempty(cursor),
                None => None,
            },
        ),
        CursorField::MiniMax => Ok(None),
    }
}

fn next_cursor(field: CursorField, value: &Json, rows: &Vec<Json>) -> (result: Result<
    Option<String>,
    LlmError,
>)
    ensures
        views::res(result) == next_cursor_in(field, value@, rows.deep_view()),
{
    match field {
        CursorField::OpenAi => match value.bool_at("has_more") {
            Some(true) => Ok(nonempty_member(value, "last_id")),
            _ => Ok(None),
        },
        CursorField::Qwen => match value.bool_at("has_more") {
            Some(true) => {
                let last = if rows.len() > 0 {
                    assert(rows.deep_view().last() == rows@[rows@.len() - 1]@);
                    nonempty_member(&rows[rows.len() - 1], "id")
                } else {
                    None
                };
                match last {
                    Some(last) => Ok(Some(last)),
                    None => Err(http::provider_shape("Qwen file list has no next-page ID")),
                }
            },
            _ => Ok(None),
        },
        CursorField::Anthropic => Ok(nonempty_member(value, "next_page")),
        CursorField::Gemini => Ok(nonempty_member(value, "nextPageToken")),
        CursorField::Xai => if rows.len() >= 100 {
            Ok(nonempty_member(value, "pagination_token"))
        } else {
            Ok(None)
        },
        CursorField::OpenRouter => match value.get_either("next_cursor", "cursor") {
            Some(cursor) => Ok(http::nonempty_string(cursor)),
            None => Ok(None),
        },
        CursorField::MiniMax => Ok(None),
    }
}

/// The page that a listing's body states.
pub open spec fn page_in(
    profile: ProviderProfile,
    scope: Option<Seq<char>>,
    adapter: Adapter,
    field: CursorField,
    value: JsonView,
) -> Result<ProviderFilePageView, LlmErrorView> {
    if json::entries_of(value) is None {
        Err(http::shape_error("file list response is not an object"@))
    } else {
        // Gemini's ProtoJSON omits an empty repeated field, and null stands for
        // an unset one.
        let rows = match rows_in(adapter, value) {
            Some(JsonView::Array(rows)) => Some(rows),
            Some(JsonView::Null) | None => if adapter == Adapter::Gemini {
                Some(Seq::empty())
            } else {
                None
            },
            _ => None,
        };
        match rows {
            None => Err(http::shape_error("file list has no array of files"@)),
            Some(rows) => match metadata_rows(profile, scope, rows, 0, Seq::empty()) {
                Err(error) => Err(error),
                Ok(files) => match next_cursor_in(field, value, rows) {
                    Err(error) => Err(error),
                    Ok(next_cursor) => Ok(ProviderFilePageView { files, next_cursor }),
                },
            },
        }
    }
}

fn decode_rows(profile: &ProviderProfile, account_scope: &Option<String>, rows: &Vec<Json>) -> (result:
    Result<Vec<ProviderFileMetadata>, LlmError>)
    ensures
        views::res(result) == metadata_rows(
            *profile,
            account_scope.deep_view(),
            rows.deep_view(),
            0,
            Seq::empty(),
        ),
{
    let mut files: Vec<ProviderFileMetadata> = Vec::new();
    let mut i: usize = 0;
    while i < rows.len()
        invariant
            i <= rows.len(),
            metadata_rows(
                *profile,
                account_scope.deep_view(),
                rows.deep_view(),
                0,
                Seq::empty(),
            ) == metadata_rows(
                *profile,
                account_scope.deep_view(),
                rows.deep_view(),
                i as int,
                files.deep_view(),
            ),
        decreases rows.len() - i,
    {
        assert(rows.deep_view()[i as int] == rows@[i as int]@);
        files.push(decode_metadata(profile, account_scope, &rows[i])?);
        i = i + 1;
    }
    Ok(files)
}

pub fn decode_page(
    profile: &ProviderProfile,
    account_scope: &Option<String>,
    adapter: Adapter,
    field: CursorField,
    value: &Json,
) -> (result: Result<ProviderFilePage, LlmError>)
    ensures
        views::res(result) == page_in(
            *profile,
            account_scope.deep_view(),
            adapter,
            field,
            value@,
        ),
{
    if value.as_object().is_none() {
        return Err(http::provider_shape("file list response is not an object"));
    }
    let none: Vec<Json> = Vec::new();
    let rows: &Vec<Json> = match rows(adapter, value) {
        Some(found) => match found {
            Json::Array(rows) => rows,
            Json::Null => if adapter == Adapter::Gemini {
                &none
            } else {
                return Err(http::provider_shape("file list has no array of files"));
            },
            _ => return Err(http::provider_shape("file list has no array of files")),
        },
        None => if adapter == Adapter::Gemini {
            &none
        } else {
            return Err(http::provider_shape("file list has no array of files"));
        },
    };
    let files = decode_rows(profile, account_scope, rows)?;
    let next_cursor = next_cursor(field, value, rows)?;
    Ok(ProviderFilePage { files, next_cursor })
}

} // verus!
