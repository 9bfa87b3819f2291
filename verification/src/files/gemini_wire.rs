//! Gemini's resumable upload messages, for hosts that own authentication and
//! polling.

use crate::json::{self, Json, JsonView};
use crate::protocol::error;
use crate::protocol::{LlmError, LlmErrorView};
use crate::text;
use crate::transport::{self, HttpRequest, HttpRequestView};
use crate::views;
use vstd::prelude::*;

verus! {

broadcast use {crate::views::group_views, crate::json::group_json};

/// A `File` resource. Known states are `PROCESSING`, `ACTIVE` and `FAILED`;
/// others are kept as they are.
#[derive(Debug, Clone, PartialEq, Eq)]
pub struct GeminiFile {
    /// Resource name, e.g. `files/abc123`.
    pub name: String,
    /// Reference URI used in generate calls.
    pub uri: String,
    /// MIME type recorded for the uploaded bytes.
    pub mime_type: String,
    pub state: String,
}

pub struct GeminiFileView {
    pub name: Seq<char>,
    pub uri: Seq<char>,
    pub mime_type: Seq<char>,
    pub state: Seq<char>,
}

impl DeepView for GeminiFile {
    type V = GeminiFileView;

    open spec fn deep_view(&self) -> GeminiFileView {
        GeminiFileView {
            name: self.name@,
            uri: self.uri@,
            mime_type: self.mime_type@,
            state: self.state@,
        }
    }
}

/// The base URL without trailing slashes and without one trailing `/v1beta` or
/// `/v1`.
pub open spec fn upload_root(base_url: Seq<char>) -> Seq<char> {
    let trimmed = text::without_trailing(base_url, '/');
    match text::before_suffix(trimmed, "/v1beta"@) {
        Some(root) => root,
        None => match text::before_suffix(trimmed, "/v1"@) {
            Some(root) => root,
            None => trimmed,
        },
    }
}

fn upload_base(base_url: &str) -> (result: String)
    ensures
        result@ == upload_root(base_url@),
{
    let trimmed = text::trim_end_char(base_url, '/');
    match text::strip_suffix(&trimmed, "/v1beta") {
        Some(root) => root,
        None => match text::strip_suffix(&trimmed, "/v1") {
            Some(root) => root,
            None => trimmed,
        },
    }
}

/// Builds the request that starts a resumable upload. It carries only metadata;
/// the response's `x-goog-upload-url` header is where the bytes go.
pub fn start_upload_request(
    base_url: &str,
    num_bytes: usize,
    mime_type: &str,
    display_name: &str,
) -> (request: HttpRequest)
    ensures
        request@ == (HttpRequestView {
            method: "POST"@,
            url: upload_root(base_url@) + "/upload/v1beta/files"@,
            headers: seq![
                ("x-goog-upload-protocol"@, "resumable"@),
                ("x-goog-upload-command"@, "start"@),
                ("x-goog-upload-header-content-length"@, text::decimal_text(num_bytes as nat)),
                ("x-goog-upload-header-content-type"@, mime_type@),
                ("content-type"@, "application/json"@),
            ],
            body: json::bytes_of(
                json::obj1("file"@, json::obj1("display_name"@, JsonView::Str(display_name@))),
            ),
            timeout: None,
        }),
{
    let root = upload_base(base_url);
    let body = json::object1("file", json::object1("display_name", json::string(display_name)));
    let mut headers: Vec<(String, String)> = Vec::new();
    headers.push(("x-goog-upload-protocol".to_owned(), "resumable".to_owned()));
    headers.push(("x-goog-upload-command".to_owned(), "start".to_owned()));
    headers.push(
        ("x-goog-upload-header-content-length".to_owned(), text::decimal(num_bytes as u64)),
    );
    headers.push(("x-goog-upload-header-content-type".to_owned(), mime_type.to_owned()));
    headers.push(("content-type".to_owned(), "application/json".to_owned()));
    let request = HttpRequest {
        method: "POST".to_owned(),
        url: text::cat2(&root, "/upload/v1beta/files"),
        headers,
        body: json::to_bytes(&body),
        timeout: None,
    };
    assert(request@.headers =~= seq![
        ("x-goog-upload-protocol"@, "resumable"@),
        ("x-goog-upload-command"@, "start"@),
        ("x-goog-upload-header-content-length"@, text::decimal_text(num_bytes as nat)),
        ("x-goog-upload-header-content-type"@, mime_type@),
        ("content-type"@, "application/json"@),
    ]);
    request
}

/// The value under a name, from the `i`th header on.
pub open spec fn exact_header(headers: Seq<(Seq<char>, Seq<char>)>, name: Seq<char>, i: int) -> Option<
    Seq<char>,
>
    decreases headers.len() - i,
{
    if i < 0 || i >= headers.len() {
        None
    } else if headers[i].0 == name {
        Some(headers[i].1)
    } else {
        exact_header(headers, name, i + 1)
    }
}

fn find_exact<'a>(headers: &'a Vec<(String, String)>, name: &str) -> (result: Option<&'a str>)
    ensures
        result.deep_view() == exact_header(headers.deep_view(), name@, 0),
{
    let mut i: usize = 0;
    while i < headers.len()
        invariant
            i <= headers.len(),
            exact_header(headers.deep_view(), name@, 0) == exact_header(
                headers.deep_view(),
                name@,
                i as int,
            ),
        decreases headers.len() - i,
    {
        assert(headers.deep_view()[i as int] == headers@[i as int].deep_view());
        if text::same(&headers[i].0, name) {
            return Some(headers[i].1.as_str());
        }
        i = i + 1;
    }
    None
}

/// The session URL that the start response's headers state: under the lower-case
/// name, or else under the name in any case.
pub open spec fn session_url(headers: Seq<(Seq<char>, Seq<char>)>) -> Option<Seq<char>> {
    match exact_header(headers, "x-goog-upload-url"@, 0) {
        Some(url) => Some(url),
        None => transport::header_in(headers, "x-goog-upload-url"@, 0),
    }
}

/// Extracts the session URL from the start response's headers, which stand in
/// the order of their names. The error never repeats a header's value.
pub fn parse_start_response(headers: &Vec<(String, String)>) -> (result: Result<String, LlmError>)
    ensures
        views::res(result) == (match session_url(headers.deep_view()) {
            Some(url) => Ok(url),
            None => Err(
                error::invalid_view(
                    "Gemini upload start response missing x-goog-upload-url header"@,
                ),
            ),
        }),
{
    match find_exact(headers, "x-goog-upload-url") {
        Some(url) => Ok(url.to_owned()),
        None => match transport::find_header(headers, "x-goog-upload-url") {
            Some(url) => Ok(url.to_owned()),
            None => Err(
                error::invalid("Gemini upload start response missing x-goog-upload-url header"),
            ),
        },
    }
}

/// Builds the request that transfers the bytes and finishes the upload.
pub fn upload_finalize_request(upload_url: &str, bytes: Vec<u8>) -> (request: HttpRequest)
    ensures
        request@ == (HttpRequestView {
            method: "POST"@,
            url: upload_url@,
            headers: seq![
                ("x-goog-upload-command"@, "upload, finalize"@),
                ("x-goog-upload-offset"@, "0"@),
            ],
            body: bytes@,
            timeout: None,
        }),
{
    let mut headers: Vec<(String, String)> = Vec::new();
    headers.push(("x-goog-upload-command".to_owned(), "upload, finalize".to_owned()));
    headers.push(("x-goog-upload-offset".to_owned(), "0".to_owned()));
    let request = HttpRequest {
        method: "POST".to_owned(),
        url: upload_url.to_owned(),
        headers,
        body: bytes,
        timeout: None,
    };
    assert(request@.headers =~= seq![
        ("x-goog-upload-command"@, "upload, finalize"@),
        ("x-goog-upload-offset"@, "0"@),
    ]);
    request
}

/// A `File` resource: `name` and `uri` have to be there, the rest may be left
/// out.
pub open spec fn file_object(file: JsonView, prefix: Seq<char>) -> Result<
    GeminiFileView,
    LlmErrorView,
> {
    match (json::str_at(file, "name"@), json::str_at(file, "uri"@)) {
        (None, _) => Err(error::invalid_view(prefix + " file.name"@)),
        (_, None) => Err(error::invalid_view(prefix + " file.uri"@)),
        (Some(name), Some(uri)) => Ok(
            GeminiFileView {
                name,
                uri,
                mime_type: json::text_or_empty(file, "mimeType"@),
                state: json::text_or_empty(file, "state"@),
            },
        ),
    }
}

fn parse_file_object(file: &Json, error_prefix: &str) -> (result: Result<GeminiFile, LlmError>)
    ensures
        views::res(result) == file_object(file@, error_prefix@),
{
    let name = match file.str_at("name") {
        Some(name) => name.to_owned(),
        None => return Err(error::invalid(&text::cat2(error_prefix, " file.name"))),
    };
    let uri = match file.str_at("uri") {
        Some(uri) => uri.to_owned(),
        None => return Err(error::invalid(&text::cat2(error_prefix, " file.uri"))),
    };
    Ok(
        GeminiFile {
            name,
            uri,
            mime_type: json::text_at(file, "mimeType"),
            state: json::text_at(file, "state"),
        },
    )
}

/// Parses the body of the response that finishes an upload, which nests the
/// resource under `file`. A `FAILED` state is data, not an error.
pub fn parse_upload_response(body: &Json) -> (result: Result<GeminiFile, LlmError>)
    ensures
        views::res(result) == (match json::member(body@, "file"@) {
            Some(file) => file_object(file, "Gemini upload response missing"@),
            None => Err(error::invalid_view("Gemini upload response missing file object"@)),
        }),
{
    match body.get("file") {
        Some(file) => parse_file_object(file, "Gemini upload response missing"),
        None => Err(error::invalid("Gemini upload response missing file object")),
    }
}

/// Builds the request for the state of a file, by its resource name.
pub fn file_status_request(base_url: &str, file_name: &str) -> (request: HttpRequest)
    ensures
        request@ == (HttpRequestView {
            method: "GET"@,
            url: upload_root(base_url@) + "/v1beta/"@ + file_name@,
            headers: Seq::empty(),
            body: Seq::empty(),
            timeout: None,
        }),
{
    let root = upload_base(base_url);
    HttpRequest {
        method: "GET".to_owned(),
        url: text::cat3(&root, "/v1beta/", file_name),
        headers: Vec::new(),
        body: Vec::new(),
        timeout: None,
    }
}

/// Parses the body of a state response, which is the resource itself.
pub fn parse_file_status(body: &Json) -> (result: Result<GeminiFile, LlmError>)
    ensures
        views::res(result) == file_object(body@, "Gemini file status response missing"@),
{
    parse_file_object(body, "Gemini file status response missing")
}

} // verus!
