//! File HTTP encoding and parsing helpers.

use crate::encoding::{self, ParsedUrlView};
use crate::files::policy::{self, Adapter};
use crate::files::types::{FilePurpose, UploadFile};
use crate::json::{self, Json, JsonView};
use crate::protocol::{LlmError, LlmErrorView, ProviderProfile};
use crate::text;
use crate::transport::{self, HttpResponse};
use crate::views;
use vstd::prelude::*;
use vstd::utf8::*;

verus! {

broadcast use {crate::views::group_views, crate::json::group_json};

pub const FNV_BASIS: u128 = 0x6c62272e07bb014262b821756295c58du128;

pub const FNV_PRIME: u128 = 0x0000000001000000000000000000013bu128;

/// The 128-bit FNV-1a hash, continued over the bytes from the `i`th on.
pub open spec fn fnv1a(bytes: Seq<u8>, i: int, hash: u128) -> u128
    decreases bytes.len() - i,
{
    if i < 0 || i >= bytes.len() {
        hash
    } else {
        fnv1a(bytes, i + 1, (hash ^ (bytes[i] as u128)).wrapping_mul(FNV_PRIME))
    }
}

/// The fingerprint of a base URL.
pub open spec fn fingerprint_of(base_url: Seq<char>) -> Seq<char> {
    "fnv1a128:"@ + text::lower_hex_text(
        fnv1a(encode_utf8(base_url), 0, FNV_BASIS) as nat,
        32,
    )
}

/// Returns the stable, non-secret endpoint fingerprint carried by provider
/// file references. It covers the full configured base URL without retaining
/// userinfo, query parameters, or any other URL text in the reference.
pub fn provider_file_endpoint_fingerprint(base_url: &str) -> (result: String)
    ensures
        result@ == fingerprint_of(base_url@),
{
    let bytes = base_url.as_bytes();
    let mut hash: u128 = FNV_BASIS;
    let mut i: usize = 0;
    while i < bytes.len()
        invariant
            i <= bytes.len(),
            fnv1a(bytes@, 0, FNV_BASIS) == fnv1a(bytes@, i as int, hash),
        decreases bytes.len() - i,
    {
        hash = (hash ^ (bytes[i] as u128)).wrapping_mul(FNV_PRIME);
        i = i + 1;
    }
    text::cat2("fnv1a128:", &text::lower_hex(hash, 32))
}

/// A form field of a multipart body.
pub open spec fn form_field(boundary: Seq<char>, name: Seq<char>, value: Seq<char>) -> Seq<char> {
    "--"@ + boundary + "\r\nContent-Disposition: form-data; name=\""@ + name + "\"\r\n\r\n"@ + value
        + "\r\n"@
}

fn append_field(body: &mut Vec<u8>, boundary: &str, name: &str, value: &str)
    ensures
        final(body)@ == old(body)@ + encode_utf8(form_field(boundary@, name@, value@)),
{
    let mut field = text::cat4(
        "--",
        boundary,
        "\r\nContent-Disposition: form-data; name=\"",
        name,
    );
    field.append("\"\r\n\r\n");
    field.append(value);
    field.append("\r\n");
    text::append_text(body, &field);
}

/// The form fields that bound the life of an upload.
pub open spec fn expiry_fields(adapter: Adapter, boundary: Seq<char>, expires: Option<u64>) -> Seq<
    u8,
> {
    match expires {
        None => Seq::empty(),
        Some(seconds) => {
            let value = text::decimal_text(seconds as nat);
            match adapter {
                Adapter::Anthropic => encode_utf8(
                    form_field(boundary, "expires_in_seconds"@, value),
                ),
                Adapter::OpenAi => encode_utf8(
                    form_field(boundary, "expires_after[anchor]"@, "created_at"@),
                ) + encode_utf8(form_field(boundary, "expires_after[seconds]"@, value)),
                Adapter::Xai => encode_utf8(form_field(boundary, "expires_after"@, value)),
                _ => Seq::empty(),
            }
        },
    }
}

/// The purpose that an upload states, if it states one.
pub open spec fn stated_purpose(adapter: Adapter, purpose: FilePurpose) -> Option<Seq<char>> {
    match (adapter, purpose) {
        (Adapter::OpenAi, FilePurpose::ModelInput) => Some("user_data"@),
        (Adapter::Xai, FilePurpose::ModelInput) => Some("assistants"@),
        (Adapter::Moonshot, FilePurpose::Extraction) => Some("file-extract"@),
        (Adapter::Qwen, FilePurpose::ModelInput | FilePurpose::Extraction) => Some(
            "file-extract"@,
        ),
        (Adapter::MiniMax, purpose) => policy::purpose_of(adapter, purpose),
        (Adapter::Zai, FilePurpose::Auxiliary) => Some("agent"@),
        (Adapter::Zhipu, FilePurpose::Auxiliary) => Some("agent"@),
        _ => None,
    }
}

fn form_purpose(adapter: Adapter, purpose: FilePurpose) -> (result: Option<&'static str>)
    ensures
        result.deep_view() == stated_purpose(adapter, purpose),
{
    match (adapter, purpose) {
        (Adapter::OpenAi, FilePurpose::ModelInput) => Some("user_data"),
        (Adapter::Xai, FilePurpose::ModelInput) => Some("assistants"),
        (Adapter::Moonshot, FilePurpose::Extraction) => Some("file-extract"),
        (Adapter::Qwen, FilePurpose::ModelInput) => Some("file-extract"),
        (Adapter::Qwen, FilePurpose::Extraction) => Some("file-extract"),
        (Adapter::MiniMax, purpose) => policy::purpose_name(adapter, purpose),
        (Adapter::Zai, FilePurpose::Auxiliary) => Some("agent"),
        (Adapter::Zhipu, FilePurpose::Auxiliary) => Some("agent"),
        _ => None,
    }
}

/// The header of the file part.
pub open spec fn file_part_header(
    boundary: Seq<char>,
    filename: Seq<char>,
    media_type: Seq<char>,
) -> Seq<char> {
    "--"@ + boundary + "\r\nContent-Disposition: form-data; name=\"file\"; filename=\""@
        + safe_filename(filename) + "\"\r\nContent-Type: "@ + media_type + "\r\n\r\n"@
}

/// The multipart body of an upload: what bounds its life, its purpose, the file.
pub open spec fn upload_body(
    adapter: Adapter,
    purpose: FilePurpose,
    file: UploadFile,
    boundary: Seq<char>,
    expires: Option<u64>,
) -> Seq<u8> {
    let purpose_field = match stated_purpose(adapter, purpose) {
        Some(purpose) => encode_utf8(form_field(boundary, "purpose"@, purpose)),
        None => Seq::empty(),
    };
    expiry_fields(adapter, boundary, expires) + purpose_field + encode_utf8(
        file_part_header(boundary, file.filename@, file.media_type@),
    ) + file.bytes@ + encode_utf8("\r\n--"@ + boundary + "--\r\n"@)
}

pub fn multipart_body(
    adapter: Adapter,
    purpose: FilePurpose,
    file: &UploadFile,
    boundary: &str,
    expires_in_seconds: Option<u64>,
) -> (body: Vec<u8>)
    ensures
        body@ == upload_body(adapter, purpose, *file, boundary@, expires_in_seconds),
{
    let mut body: Vec<u8> = Vec::new();
    if let Some(seconds) = expires_in_seconds {
        let value = text::decimal(seconds);
        match adapter {
            Adapter::Anthropic => append_field(&mut body, boundary, "expires_in_seconds", &value),
            Adapter::OpenAi => {
                append_field(&mut body, boundary, "expires_after[anchor]", "created_at");
                append_field(&mut body, boundary, "expires_after[seconds]", &value);
            },
            // xAI's raw multipart API takes a scalar number of seconds, and
            // requires this field to precede the file part.
            Adapter::Xai => append_field(&mut body, boundary, "expires_after", &value),
            _ => {},
        }
    }
    assert(body@ =~= expiry_fields(adapter, boundary@, expires_in_seconds));
    if let Some(value) = form_purpose(adapter, purpose) {
        append_field(&mut body, boundary, "purpose", value);
    }
    let mut header = text::cat3(
        "--",
        boundary,
        "\r\nContent-Disposition: form-data; name=\"file\"; filename=\"",
    );
    header.append(&sanitize_filename(&file.filename));
    header.append("\"\r\nContent-Type: ");
    header.append(&file.media_type);
    header.append("\r\n\r\n");
    text::append_text(&mut body, &header);
    text::append_bytes(&mut body, &file.bytes);
    text::append_text(&mut body, &text::cat3("\r\n--", boundary, "--\r\n"));
    assert(body@ =~= upload_body(adapter, purpose, *file, boundary@, expires_in_seconds));
    body
}

/// A character of a MIME token.
pub open spec fn token_char(c: char) -> bool {
    text::alphanumeric(c) || c == '!' || c == '#' || c == '$' || c == '%' || c == '&' || c == '\''
        || c == '*' || c == '+' || c == '-' || c == '.' || c == '^' || c == '_' || c == '`' || c
        == '|' || c == '~'
}

/// A MIME type: two tokens around the only slash.
pub open spec fn is_mime(value: Seq<char>) -> bool {
    exists|k: int|
        {
            &&& 0 < k < value.len() - 1
            &&& (#[trigger] value[k]) == '/'
            &&& forall|j: int| 0 <= j < value.len() && j != k ==> token_char(#[trigger] value[j])
        }
}

/// What is wrong with a media type, if anything.
pub open spec fn media_type_error(value: Seq<char>) -> Option<LlmErrorView> {
    if is_mime(value) {
        None
    } else if value.contains('/') {
        Some(
            LlmErrorView::InvalidRequest {
                message: "attachment media_type contains invalid MIME token characters"@,
            },
        )
    } else {
        Some(
            LlmErrorView::InvalidRequest { message: "attachment media_type must be a MIME type"@ },
        )
    }
}

/// A result that says only what went wrong.
pub open spec fn checked(error: Option<LlmErrorView>) -> Result<(), LlmErrorView> {
    match error {
        Some(error) => Err(error),
        None => Ok(()),
    }
}

fn is_token_char(c: char) -> (result: bool)
    ensures
        result == token_char(c),
{
    text::is_alphanumeric(c) || c == '!' || c == '#' || c == '$' || c == '%' || c == '&' || c
        == '\'' || c == '*' || c == '+' || c == '-' || c == '.' || c == '^' || c == '_' || c == '`'
        || c == '|' || c == '~'
}

pub fn validate_media_type(value: &str) -> (result: Result<(), LlmError>)
    ensures
        views::res(result) == checked(media_type_error(value@)),
{
    let cs = text::chars(value);
    let mut slash: usize = cs.len();
    let mut slashes_ok = true;
    let mut tokens_ok = true;
    let mut i: usize = 0;
    while i < cs.len()
        invariant
            i <= cs.len(),
            slash < i || slash == cs.len(),
            slash < i ==> cs@[slash as int] == '/',
            slash == cs.len() ==> forall|j: int| 0 <= j < i ==> cs@[j] != '/',
            slashes_ok && slash < i ==> forall|j: int|
                0 <= j < i && j != slash ==> #[trigger] cs@[j] != '/',
            !slashes_ok ==> exists|j: int, k: int|
                0 <= j < k < i && #[trigger] cs@[j] == '/' && #[trigger] cs@[k] == '/',
            tokens_ok ==> forall|j: int|
                0 <= j < i && cs@[j] != '/' ==> token_char(#[trigger] cs@[j]),
            !tokens_ok ==> exists|j: int|
                0 <= j < i && #[trigger] cs@[j] != '/' && !token_char(cs@[j]),
        decreases cs.len() - i,
    {
        if cs[i] == '/' {
            if slash < cs.len() {
                slashes_ok = false;
                assert(cs@[slash as int] == '/' && cs@[i as int] == '/');
            } else {
                slash = i;
            }
        } else if !is_token_char(cs[i]) {
            tokens_ok = false;
            assert(cs@[i as int] != '/' && !token_char(cs@[i as int]));
        }
        i = i + 1;
    }
    if slash == cs.len() {
        assert(!value@.contains('/'));
        assert(!is_mime(value@));
        return Err(
            LlmError::InvalidRequest {
                message: "attachment media_type must be a MIME type".to_owned(),
            },
        );
    }
    assert(value@[slash as int] == '/');
    assert(value@.contains('/'));
    if !slashes_ok || !tokens_ok || slash == 0 || slash == cs.len() - 1 {
        proof {
            if is_mime(value@) {
                let k = choose|k: int|
                    {
                        &&& 0 < k < value@.len() - 1
                        &&& (#[trigger] value@[k]) == '/'
                        &&& forall|j: int|
                            0 <= j < value@.len() && j != k ==> token_char(#[trigger] value@[j])
                    };
                assert(!token_char('/'));
                assert(slash == k);
            }
        }
        return Err(
            LlmError::InvalidRequest {
                message: "attachment media_type contains invalid MIME token characters".to_owned(),
            },
        );
    }
    assert(is_mime(value@));
    Ok(())
}

/// The endpoint of Gemini's resumable uploads.
pub open spec fn gemini_upload_endpoint(base_url: Seq<char>) -> Seq<char> {
    let base = text::without_trailing(base_url, '/');
    if "/v1beta"@.is_suffix_of(base) {
        without_all_suffixes(base, "/v1beta"@) + "/upload/v1beta/files"@
    } else {
        base + "/upload/v1beta/files"@
    }
}

/// The text with every trailing copy of the suffix taken off.
pub open spec fn without_all_suffixes(s: Seq<char>, suffix: Seq<char>) -> Seq<char>
    decreases s.len(),
{
    if suffix.len() > 0 && suffix.is_suffix_of(s) {
        without_all_suffixes(s.take(s.len() - suffix.len()), suffix)
    } else {
        s
    }
}

fn trim_suffixes(s: &str, suffix: &str) -> (result: String)
    requires
        suffix@.len() > 0,
    ensures
        result@ == without_all_suffixes(s@, suffix@),
{
    let mut out = s.to_owned();
    loop
        invariant
            suffix@.len() > 0,
            without_all_suffixes(s@, suffix@) == without_all_suffixes(out@, suffix@),
        decreases out@.len(),
    {
        match text::strip_suffix(&out, suffix) {
            Some(rest) => {
                out = rest;
            },
            None => {
                return out;
            },
        }
    }
}

pub fn gemini_upload_url(profile: &ProviderProfile) -> (result: String)
    ensures
        result@ == gemini_upload_endpoint(profile.base_url@),
{
    let base = text::trim_end_char(&profile.base_url, '/');
    if text::ends_with(&base, "/v1beta") {
        proof {
            reveal_strlit("/v1beta");
        }
        text::cat2(&trim_suffixes(&base, "/v1beta"), "/upload/v1beta/files")
    } else {
        text::cat2(&base, "/upload/v1beta/files")
    }
}

/// A byte that a URL carries as it is.
pub open spec fn unreserved(b: u8) -> bool {
    0x41 <= b <= 0x5a || 0x61 <= b <= 0x7a || 0x30 <= b <= 0x39 || b == 0x2d || b == 0x5f || b
        == 0x2e || b == 0x7e
}

/// The bytes with everything but unreserved ones percent-encoded; a slash stays
/// where `slashes` says so.
pub open spec fn percent_encoded(bytes: Seq<u8>, slashes: bool) -> Seq<char>
    decreases bytes.len(),
{
    if bytes.len() == 0 {
        Seq::empty()
    } else {
        let b = bytes.last();
        let front = percent_encoded(bytes.drop_last(), slashes);
        if unreserved(b) || (slashes && b == 0x2f) {
            front.push(b as char)
        } else {
            front + "%"@ + text::hex_text(b as nat, 2)
        }
    }
}

fn percent_encode(value: &str, slashes: bool) -> (result: String)
    ensures
        result@ == percent_encoded(encode_utf8(value@), slashes),
{
    let bytes = value.as_bytes();
    let mut out = String::new();
    let mut i: usize = 0;
    while i < bytes.len()
        invariant
            i <= bytes.len(),
            out@ == percent_encoded(bytes@.take(i as int), slashes),
        decreases bytes.len() - i,
    {
        let b = bytes[i];
        if (0x41 <= b && b <= 0x5a) || (0x61 <= b && b <= 0x7a) || (0x30 <= b && b <= 0x39) || b
            == 0x2d || b == 0x5f || b == 0x2e || b == 0x7e || (slashes && b == 0x2f) {
            out.push(b as char);
        } else {
            out.append("%");
            out.append(&text::hex(b as u64, 2));
        }
        assert(bytes@.take(i + 1).drop_last() =~= bytes@.take(i as int));
        i = i + 1;
    }
    assert(bytes@.take(i as int) =~= bytes@);
    out
}

/// A query value, percent-encoded.
pub open spec fn query_text(value: Seq<char>) -> Seq<char> {
    percent_encoded(encode_utf8(value), false)
}

pub fn query_value(value: &str) -> (result: String)
    ensures
        result@ == query_text(value@),
{
    percent_encode(value, false)
}

/// A path whose segments are percent-encoded one by one.
pub open spec fn path_text(value: Seq<char>) -> Seq<char> {
    percent_encoded(encode_utf8(value), true)
}

pub fn encoded_path(value: &str) -> (result: String)
    ensures
        result@ == path_text(value@),
{
    percent_encode(value, true)
}

/// What a percent-encoded value consists of: unreserved characters and `%`
/// escapes only, so it never ends the query value it stands in.
pub proof fn an_encoded_value_stays_in_its_place(bytes: Seq<u8>, k: int)
    requires
        0 <= k < percent_encoded(bytes, false).len(),
    ensures
        ({
            let c = percent_encoded(bytes, false)[k];
            text::alphanumeric(c) || c == '-' || c == '_' || c == '.' || c == '~' || c == '%'
        }),
    decreases bytes.len(),
{
    let b = bytes.last();
    let front = percent_encoded(bytes.drop_last(), false);
    if k < front.len() {
        an_encoded_value_stays_in_its_place(bytes.drop_last(), k);
    } else if !unreserved(b) {
        reveal_strlit("%");
        reveal_with_fuel(text::hex_text, 3);
        let tail = text::hex_text(b as nat, 2);
        assert(tail =~= seq![
            text::hex_digit((b as nat / 16) % 16),
            text::hex_digit(b as nat % 16),
        ]);
    }
}

/// The error that a status stands for.
pub open spec fn status_error_view(status: u16, body: Seq<char>, operation: Seq<char>) -> LlmErrorView {
    let message = operation + " failed with HTTP "@ + text::decimal_text(status as nat) + ": "@
        + text::head(body, 512);
    if status == 401 {
        LlmErrorView::Authentication { message }
    } else if status == 403 {
        LlmErrorView::PermissionDenied { message }
    } else if status == 413 {
        LlmErrorView::RequestTooLarge { message }
    } else if status == 429 {
        LlmErrorView::RateLimited { message, retry_after: None }
    } else if 500 <= status <= 599 {
        LlmErrorView::ProviderInternal { message }
    } else {
        LlmErrorView::InvalidRequest { message }
    }
}

pub fn status_error(status: u16, body: &str, operation: &str) -> (error: LlmError)
    ensures
        error@ == status_error_view(status, body@, operation@),
{
    let mut message = text::cat4(
        operation,
        " failed with HTTP ",
        &text::decimal(status as u64),
        ": ",
    );
    message.append(&text::first_chars(body, 512));
    if status == 401 {
        LlmError::Authentication { message }
    } else if status == 403 {
        LlmError::PermissionDenied { message }
    } else if status == 413 {
        LlmError::RequestTooLarge { message }
    } else if status == 429 {
        LlmError::RateLimited { message, retry_after: None }
    } else if 500 <= status && status <= 599 {
        LlmError::ProviderInternal { message }
    } else {
        LlmError::InvalidRequest { message }
    }
}

/// The error of a response that is no success.
pub open spec fn response_error(response: HttpResponse, operation: Seq<char>) -> Option<
    LlmErrorView,
> {
    if transport::is_success(response.status) {
        None
    } else {
        Some(status_error_view(response.status, text::lossy_text(response.body@), operation))
    }
}

pub fn status_result(response: &HttpResponse, operation: &str) -> (result: Result<(), LlmError>)
    ensures
        views::res(result) == checked(response_error(*response, operation@)),
{
    if 200 <= response.status && response.status < 300 {
        return Ok(());
    }
    let body = text::lossy(&response.body);
    Err(status_error(response.status, &body, operation))
}

pub open spec fn shape_error(message: Seq<char>) -> LlmErrorView {
    LlmErrorView::ProviderInternal { message }
}

pub fn provider_shape(message: &str) -> (error: LlmError)
    ensures
        error@ == shape_error(message@),
{
    LlmError::ProviderInternal { message: message.to_owned() }
}

/// What the parsed body of a successful response comes to.
pub open spec fn json_or_shape(parsed: Result<JsonView, Seq<char>>, operation: Seq<char>) -> Result<
    JsonView,
    LlmErrorView,
> {
    match parsed {
        Ok(value) => Ok(value),
        Err(error) => Err(shape_error(operation + " response was not JSON: "@ + error)),
    }
}

/// The JSON body of a response, or the error that it stands for.
pub open spec fn json_body(response: HttpResponse, operation: Seq<char>) -> Result<
    JsonView,
    LlmErrorView,
> {
    match response_error(response, operation) {
        Some(error) => Err(error),
        None => json_or_shape(json::parsed(response.body@), operation),
    }
}

/// The body as JSON, given what the parser made of it.
pub fn json_value(parsed: Result<Json, String>, operation: &str) -> (result: Result<Json, LlmError>)
    ensures
        views::res(result) == json_or_shape(views::res(parsed), operation@),
{
    match parsed {
        Ok(value) => Ok(value),
        Err(error) => Err(
            provider_shape(&text::cat3(operation, " response was not JSON: ", &error)),
        ),
    }
}

pub fn json_success(response: &HttpResponse, operation: &str) -> (result: Result<Json, LlmError>)
    ensures
        views::res(result) == json_body(*response, operation@),
{
    status_result(response, operation)?;
    json_value(json::parse(&response.body), operation)
}

/// A scalar as text: a text as it is, anything else but null as JSON text.
pub open spec fn scalar_text(value: JsonView) -> Option<Seq<char>> {
    match value {
        JsonView::Null => None,
        JsonView::Str(s) => Some(s),
        _ => Some(json::text_of(value)),
    }
}

pub fn json_optional_scalar_string(value: &Json) -> (result: Option<String>)
    ensures
        result.deep_view() == scalar_text(value@),
{
    match value {
        Json::Null => None,
        Json::Str(s) => Some(s.clone()),
        _ => Some(json::to_text(value)),
    }
}

/// A count, as a number or as its decimal text.
pub open spec fn count_of(value: JsonView) -> Option<u64> {
    match json::u64_of(value) {
        Some(n) => Some(n),
        None => match json::str_of(value) {
            Some(s) => match text::u64_value(s) {
                Some(n) => Some(n as u64),
                None => None,
            },
            None => None,
        },
    }
}

pub fn json_u64(value: &Json) -> (result: Option<u64>)
    ensures
        result == count_of(value@),
{
    match value.as_u64() {
        Some(n) => Some(n),
        None => match value.as_str() {
            Some(s) => text::parse_u64(s),
            None => None,
        },
    }
}

/// A text that is not empty.
pub open spec fn nonempty(value: JsonView) -> Option<Seq<char>> {
    match json::str_of(value) {
        Some(s) => if s.len() > 0 {
            Some(s)
        } else {
            None
        },
        None => None,
    }
}

pub fn nonempty_string(value: &Json) -> (result: Option<String>)
    ensures
        result.deep_view() == nonempty(value@),
{
    match value.as_str() {
        Some(s) => if text::is_empty(s) {
            None
        } else {
            Some(s.to_owned())
        },
        None => None,
    }
}

/// An https URL with a host and no user information.
pub open spec fn safe_uri(parts: Option<ParsedUrlView>) -> bool {
    match parts {
        Some(parts) => parts.scheme == "https"@ && parts.host is Some && parts.username.len() == 0
            && parts.password is None,
        None => false,
    }
}

pub fn valid_download_uri(uri: &str) -> (result: bool)
    ensures
        result == safe_uri(encoding::url_parts(uri@)),
{
    match encoding::parse_url(uri) {
        Some(parts) => text::same(&parts.scheme, "https") && parts.host.is_some() && text::is_empty(
            &parts.username,
        ) && parts.password.is_none(),
        None => false,
    }
}

/// Whether the first URL is https, without user information, and has the origin
/// of the second.
pub open spec fn origin_matches(left: Option<ParsedUrlView>, right: Option<ParsedUrlView>) -> bool {
    match (left, right) {
        (Some(left), Some(right)) => {
            &&& left.scheme == "https"@
            &&& left.username.len() == 0
            &&& left.password is None
            &&& left.scheme == right.scheme
            &&& left.host == right.host
            &&& left.port == right.port
        },
        _ => false,
    }
}

fn same_port(a: Option<u16>, b: Option<u16>) -> (result: bool)
    ensures
        result == (a == b),
{
    match (a, b) {
        (Some(a), Some(b)) => a == b,
        (None, None) => true,
        _ => false,
    }
}

/// The check behind [`same_origin`], on the parts of the two URLs.
pub fn same_origin_parts(
    left: &Option<encoding::ParsedUrl>,
    right: &Option<encoding::ParsedUrl>,
) -> (result: bool)
    ensures
        result == origin_matches(left.deep_view(), right.deep_view()),
{
    match (left, right) {
        (Some(left), Some(right)) => text::same(&left.scheme, "https") && text::is_empty(&left.username)
            && left.password.is_none() && text::same(&left.scheme, &right.scheme)
            && crate::protocol::inference::same_text(&left.host, &right.host) && same_port(
            left.port,
            right.port,
        ),
        _ => false,
    }
}

pub fn same_origin(left: &str, right: &str) -> (result: bool)
    ensures
        result == origin_matches(encoding::url_parts(left@), encoding::url_parts(right@)),
{
    same_origin_parts(&encoding::parse_url(left), &encoding::parse_url(right))
}

/// What stands behind the last path separator.
pub open spec fn leaf(s: Seq<char>) -> Seq<char>
    decreases s.len(),
{
    if s.len() == 0 || s.last() == '/' || s.last() == '\\' {
        Seq::empty()
    } else {
        leaf(s.drop_last()).push(s.last())
    }
}

/// The character, where a filename may carry it as it is.
pub open spec fn safe_char(c: char) -> char {
    if text::alphanumeric(c) || c == '.' || c == '-' || c == '_' || c == ' ' {
        c
    } else {
        '_'
    }
}

/// A dot or ASCII white space.
pub open spec fn filename_edge(c: char) -> bool {
    c == '.' || c == ' ' || c == '\t' || c == '\n' || c == '\x0C' || c == '\r'
}

/// A filename that a multipart header can carry.
pub open spec fn safe_filename(value: Seq<char>) -> Seq<char> {
    let leaf = leaf(value);
    let safe = Seq::new(leaf.len(), |i: int| safe_char(leaf[i]));
    let name = text::head(text::trimmed_by(safe, |c: char| filename_edge(c)), 180);
    if name.len() == 0 {
        "attachment"@
    } else {
        name
    }
}

fn is_filename_edge(c: char) -> (result: bool)
    ensures
        result == filename_edge(c),
{
    c == '.' || c == ' ' || c == '\t' || c == '\n' || c == '\x0C' || c == '\r'
}

proof fn lemma_leaf(s: Seq<char>, from: int)
    requires
        0 <= from <= s.len(),
        from > 0 ==> s[from - 1] == '/' || s[from - 1] == '\\',
        forall|j: int| from <= j < s.len() ==> s[j] != '/' && s[j] != '\\',
    ensures
        leaf(s) == s.skip(from),
    decreases s.len(),
{
    if s.len() == from {
        assert(s.skip(from) =~= Seq::empty());
    } else {
        lemma_leaf(s.drop_last(), from);
        assert(s.skip(from) =~= s.drop_last().skip(from).push(s.last()));
    }
}

pub fn sanitize_filename(value: &str) -> (result: String)
    ensures
        result@ == safe_filename(value@),
{
    let cs = text::chars(value);
    let mut from: usize = cs.len();
    while from > 0 && cs[from - 1] != '/' && cs[from - 1] != '\\'
        invariant
            from <= cs.len(),
            forall|j: int| from <= j < cs.len() ==> cs@[j] != '/' && cs@[j] != '\\',
        decreases from,
    {
        from = from - 1;
    }
    let ghost leaf = leaf(value@);
    proof {
        lemma_leaf(value@, from as int);
    }
    let mut safe: Vec<char> = Vec::new();
    let mut i: usize = from;
    while i < cs.len()
        invariant
            from <= i <= cs.len(),
            leaf == cs@.skip(from as int),
            safe@ =~= Seq::new((i - from) as nat, |k: int| safe_char(leaf[k])),
        decreases cs.len() - i,
    {
        let c = cs[i];
        if text::is_alphanumeric(c) || c == '.' || c == '-' || c == '_' || c == ' ' {
            safe.push(c);
        } else {
            safe.push('_');
        }
        i = i + 1;
    }
    let ghost drop = |c: char| filename_edge(c);
    let mut a: usize = 0;
    let mut b: usize = safe.len();
    assert(safe@.subrange(0, b as int) =~= safe@);
    while a < b && is_filename_edge(safe[a])
        invariant
            a <= b == safe.len(),
            drop == (|c: char| filename_edge(c)),
            text::trimmed_by(safe@, drop) == text::trimmed_by(
                safe@.subrange(a as int, b as int),
                drop,
            ),
        decreases b - a,
    {
        assert(safe@.subrange(a as int, b as int).skip(1) =~= safe@.subrange(a + 1, b as int));
        a = a + 1;
    }
    while a < b && is_filename_edge(safe[b - 1])
        invariant
            a <= b <= safe.len(),
            a < b ==> !filename_edge(safe@[a as int]),
            drop == (|c: char| filename_edge(c)),
            text::trimmed_by(safe@, drop) == text::trimmed_by(
                safe@.subrange(a as int, b as int),
                drop,
            ),
        decreases b - a,
    {
        assert(safe@.subrange(a as int, b as int).drop_last() =~= safe@.subrange(a as int, b - 1));
        b = b - 1;
    }
    assert(safe@ =~= Seq::new(leaf.len(), |i: int| safe_char(leaf[i])));
    let name = text::first_chars(&text::range(&safe, a, b), 180);
    if text::is_empty(&name) {
        "attachment".to_owned()
    } else {
        name
    }
}

proof fn lemma_trimmed_part(s: Seq<char>, drop: spec_fn(char) -> bool, k: int)
    requires
        0 <= k < text::trimmed_by(s, drop).len(),
    ensures
        exists|j: int| 0 <= j < s.len() && #[trigger] s[j] == text::trimmed_by(s, drop)[k],
    decreases s.len(),
{
    if s.len() > 0 {
        if drop(s[0]) {
            lemma_trimmed_part(s.skip(1), drop, k);
            let j = choose|j: int|
                0 <= j < s.skip(1).len() && #[trigger] s.skip(1)[j] == text::trimmed_by(
                    s.skip(1),
                    drop,
                )[k];
            assert(s[j + 1] == text::trimmed_by(s, drop)[k]);
        } else if drop(s.last()) {
            lemma_trimmed_part(s.drop_last(), drop, k);
            let j = choose|j: int|
                0 <= j < s.drop_last().len() && #[trigger] s.drop_last()[j] == text::trimmed_by(
                    s.drop_last(),
                    drop,
                )[k];
            assert(s[j] == text::trimmed_by(s, drop)[k]);
        } else {
            assert(s[k] == text::trimmed_by(s, drop)[k]);
        }
    }
}

/// A sanitized filename is never empty, has at most 180 characters, and none
/// that could end the header it stands in or name another directory.
pub proof fn a_sanitized_filename_is_safe(value: Seq<char>, k: int)
    ensures
        0 < safe_filename(value).len() <= 180,
        0 <= k < safe_filename(value).len() ==> {
            let c = safe_filename(value)[k];
            text::alphanumeric(c) || c == '.' || c == '-' || c == '_' || c == ' '
        },
{
    reveal_strlit("attachment");
    let leaf = leaf(value);
    let safe = Seq::new(leaf.len(), |i: int| safe_char(leaf[i]));
    let drop = |c: char| filename_edge(c);
    let trimmed = text::trimmed_by(safe, drop);
    let name = text::head(trimmed, 180);
    if 0 <= k < name.len() {
        lemma_trimmed_part(safe, drop, k);
        let j = choose|j: int| 0 <= j < safe.len() && #[trigger] safe[j] == trimmed[k];
        assert(name[k] == safe_char(leaf[j]));
    }
}

pub open spec fn unsupported_error(operation: Seq<char>) -> LlmErrorView {
    LlmErrorView::UnsupportedCapability {
        message: "provider file "@ + operation + " is not supported for this profile"@,
    }
}

pub fn unsupported(operation: &str) -> (error: LlmError)
    ensures
        error@ == unsupported_error(operation@),
{
    LlmError::UnsupportedCapability {
        message: text::cat3(
            "provider file ",
            operation,
            " is not supported for this profile",
        ),
    }
}

proof fn lemma_fnv1a(bytes: Seq<u8>, last: u8, i: int, hash: u128)
    requires
        0 <= i <= bytes.len(),
    ensures
        fnv1a(bytes.push(last), i, hash) == (fnv1a(bytes, i, hash) ^ (last as u128)).wrapping_mul(
            0x0000000001000000000000000000013bu128,
        ),
    decreases bytes.len() - i,
{
    let all = bytes.push(last);
    if i < bytes.len() {
        assert(all[i] == bytes[i]);
        lemma_fnv1a(bytes, last, i + 1, (hash ^ (bytes[i] as u128)).wrapping_mul(FNV_PRIME));
    } else {
        reveal_with_fuel(fnv1a, 2);
        assert(all[i] == last);
    }
}

/// A fingerprint goes on byte by byte: each is mixed into what came before it and the
/// whole is multiplied, from the basis that the hash is defined with.
pub proof fn a_fingerprint_goes_on_byte_by_byte(bytes: Seq<u8>, last: u8)
    ensures
        fnv1a(Seq::empty(), 0, FNV_BASIS) == 0x6c62272e07bb014262b821756295c58du128,
        fnv1a(bytes.push(last), 0, FNV_BASIS) == (fnv1a(bytes, 0, FNV_BASIS) ^ (
        last as u128)).wrapping_mul(0x0000000001000000000000000000013bu128),
{
    lemma_fnv1a(bytes, last, 0, FNV_BASIS);
}

/// The fingerprint of an address is the hash of its bytes, in hexadecimal and behind the
/// name of the hash.
pub proof fn a_fingerprint_is_the_hash_of_the_address(base_url: Seq<char>)
    ensures
        fingerprint_of(base_url) == "fnv1a128:"@ + text::lower_hex_text(
            fnv1a(encode_utf8(base_url), 0, 0x6c62272e07bb014262b821756295c58du128) as nat,
            32,
        ),
{
}

} // verus!
