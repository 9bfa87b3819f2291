//! What the file routes keep of a file: what is asked for, and what a reply says of it.

use crate::encoding;
use crate::files::gemini_wire;
use crate::files::http;
use crate::files::policy::{self, Adapter};
use crate::files::rest::{self, CursorField};
use crate::files::service::{self, DownloadPlanView, GeminiStepView, UploadPlanView};
use crate::files::types::{
    FilePurpose, ModelFileReference, ProviderFileMetadataView, ProviderFileRefView, UploadFile,
};
use crate::json::{self, JsonView};
use crate::protocol::{ProtocolFamily, ProviderProfile};
use crate::text;
use crate::transport::HttpResponse;
use vstd::prelude::*;
use vstd::utf8::encode_utf8;

verus! {

broadcast use {crate::views::group_views, crate::json::group_json};

/// A text or a number as text.
pub open spec fn scalar(value: Option<JsonView>) -> Option<Seq<char>> {
    match value {
        Some(JsonView::Str(s)) => Some(s),
        Some(JsonView::Null) => None,
        Some(other) => Some(json::text_of(other)),
        None => None,
    }
}

/// A file belongs to a connection and to an account of it.
pub open spec fn of_connection(
    file: ProviderFileRefView,
    profile: ProviderProfile,
    scope: Option<Seq<char>>,
) -> bool {
    &&& file.provider_id == profile.provider_id@
    &&& file.profile_name == profile.profile_name@
    &&& file.protocol == profile.protocol
    &&& file.account_scope == scope
    &&& file.endpoint_fingerprint == http::fingerprint_of(profile.base_url@)
}

/// What a value on the wire says of a file is what is known of it.
pub open spec fn describes(value: JsonView, found: ProviderFileMetadataView) -> bool {
    let file = found.file;
    let id = json::member(value, "id"@);
    let size = json::member(value, "bytes"@);
    &&& id is Some ==> Some(file.file_id) == scalar(id)
    &&& id is None && json::member(value, "file_id"@) is Some ==> Some(file.file_id) == scalar(
        json::member(value, "file_id"@),
    )
    &&& id is None && json::member(value, "file_id"@) is None ==> Some(file.file_id) == scalar(
        json::member(value, "name"@),
    )
    &&& json::str_at(value, "uri"@) is Some ==> file.uri == json::str_at(value, "uri"@)
    &&& file.purpose == json::str_at(value, "purpose"@)
    &&& json::member(value, "filename"@) is Some ==> file.filename == json::str_at(
        value,
        "filename"@,
    )
    &&& json::member(value, "filename"@) is None && json::member(value, "display_name"@) is None
        ==> file.filename == json::str_at(value, "displayName"@)
    &&& json::member(value, "mime_type"@) is Some ==> file.media_type == json::str_at(
        value,
        "mime_type"@,
    )
    &&& json::member(value, "mime_type"@) is None ==> file.media_type == json::str_at(
        value,
        "mimeType"@,
    )
    &&& size is Some && json::u64_of(size->0) is Some ==> file.size_bytes == json::u64_of(size->0)
    &&& json::member(value, "created_at"@) is Some ==> found.created_at == scalar(
        json::member(value, "created_at"@),
    )
    &&& json::member(value, "expires_at"@) is Some ==> file.expires_at == scalar(
        json::member(value, "expires_at"@),
    )
    &&& json::member(value, "status"@) is Some ==> found.status == json::str_at(value, "status"@)
    &&& json::member(value, "status"@) is None ==> found.status == json::str_at(value, "state"@)
}

/// A file is known by what its provider says of it, and belongs to the connection and
/// the account that asked. A value without an id is refused.
#[verifier::spinoff_prover]
#[verifier::rlimit(40)]
pub proof fn a_file_is_described_as_it_is(
    adapter: Adapter,
    profile: ProviderProfile,
    scope: Option<Seq<char>>,
    value: JsonView,
)
    ensures
        match rest::metadata_for(adapter, profile, scope, value) {
            Ok(found) => describes(value, found) && of_connection(found.file, profile, scope),
            Err(_) => scalar(json::either3(value, "id"@, "file_id"@, "name"@)) is None,
        },
{
    lemma_names();
}

/// The value that a file is in: under `file`, or itself.
pub open spec fn file_in(value: JsonView) -> JsonView {
    match json::member(value, "file"@) {
        Some(file) => file,
        None => value,
    }
}

pub open spec fn all_described(rows: Seq<JsonView>, files: Seq<ProviderFileMetadataView>) -> bool {
    rows.len() == files.len() && forall|i: int|
        0 <= i < rows.len() ==> describes(file_in(rows[i]), #[trigger] files[i])
}

proof fn lemma_rows(
    profile: ProviderProfile,
    scope: Option<Seq<char>>,
    rows: Seq<JsonView>,
    i: int,
    before: Seq<ProviderFileMetadataView>,
)
    requires
        before.len() == i <= rows.len(),
        forall|k: int| 0 <= k < i ==> describes(file_in(rows[k]), #[trigger] before[k]),
        forall|k: int| 0 <= k < i ==> of_connection((#[trigger] before[k]).file, profile, scope),
    ensures
        rest::metadata_rows(profile, scope, rows, i, before) matches Ok(files) ==> all_described(
            rows,
            files,
        ) && forall|k: int|
            0 <= k < files.len() ==> of_connection((#[trigger] files[k]).file, profile, scope),
    decreases rows.len() - i,
{
    if i < rows.len() {
        if let Ok(found) = rest::metadata_in(profile, scope, rows[i]) {
            let adapter = policy::adapter_of(profile)->0;
            a_file_is_described_as_it_is(adapter, profile, scope, file_in(rows[i]));
            lemma_rows(profile, scope, rows, i + 1, before.push(found));
        }
    }
}

/// A text of a value that is there and not empty.
pub open spec fn full(value: JsonView, key: Seq<char>) -> Option<Seq<char>> {
    match json::str_at(value, key) {
        Some(text) => if text.len() > 0 {
            Some(text)
        } else {
            None
        },
        None => None,
    }
}

/// A page of files gives one file for each row, in order and with what the row says, and
/// the place to go on from, under the name that the provider has for it.
#[verifier::spinoff_prover]
#[verifier::rlimit(40)]
pub proof fn a_page_gives_every_file(
    profile: ProviderProfile,
    scope: Option<Seq<char>>,
    adapter: Adapter,
    field: CursorField,
    value: JsonView,
)
    ensures
        rest::page_in(profile, scope, adapter, field, value) matches Ok(page) ==> {
            let data = json::items_in(json::member(value, "data"@));
            let files = json::items_in(json::member(value, "files"@));
            let more = json::bool_at(value, "has_more"@) == Some(true);
            &&& adapter != Adapter::Gemini && json::at(value, "data"@) is Array ==> all_described(
                data,
                page.files,
            )
            &&& adapter == Adapter::Gemini ==> all_described(files, page.files)
            &&& forall|k: int|
                0 <= k < page.files.len() ==> of_connection(
                    (#[trigger] page.files[k]).file,
                    profile,
                    scope,
                )
            &&& field == CursorField::OpenAi ==> page.next_cursor == if more {
                full(value, "last_id"@)
            } else {
                None
            }
            &&& field == CursorField::Anthropic ==> page.next_cursor == full(value, "next_page"@)
            &&& field == CursorField::Gemini ==> page.next_cursor == full(value, "nextPageToken"@)
            &&& field == CursorField::MiniMax ==> page.next_cursor is None
            &&& field == CursorField::Qwen ==> (page.next_cursor is Some <==> more)
        },
{
    lemma_names();
    let rows = match rest::rows_in(adapter, value) {
        Some(JsonView::Array(rows)) => rows,
        _ => Seq::empty(),
    };
    lemma_rows(profile, scope, rows, 0, Seq::empty());
}

/// An uploaded file is the one that the reply names. Where the reply does not say, its
/// name, its media type and its purpose are those of the upload.
pub proof fn an_uploaded_file_is_the_one_that_was_sent(
    profile: ProviderProfile,
    scope: Option<Seq<char>>,
    file: UploadFile,
    purpose: FilePurpose,
    response: HttpResponse,
)
    ensures
        service::uploaded_in(profile, scope, file, purpose, response) matches Ok(found) ==> {
            &&& policy::adapter_of(profile) matches Some(adapter)
            &&& json::parsed(response.body@) matches Ok(value)
            &&& 200 <= response.status < 300
            &&& rest::metadata_in(profile, scope, value) matches Ok(said)
            &&& describes(file_in(value), said)
            &&& found.file_id == said.file.file_id
            &&& found.uri == said.file.uri
            &&& of_connection(found, profile, scope)
            &&& said.file.media_type is Some ==> found.media_type == said.file.media_type
            &&& said.file.media_type is None ==> found.media_type == Some(file.media_type@)
            &&& said.file.filename is Some ==> found.filename == said.file.filename
            &&& said.file.filename is None ==> found.filename == Some(file.filename@)
            &&& said.file.purpose is Some ==> found.purpose == said.file.purpose
            &&& said.file.purpose is None ==> found.purpose == policy::purpose_of(adapter, purpose)
        },
{
    if service::uploaded_in(profile, scope, file, purpose, response) is Ok {
        let adapter = policy::adapter_of(profile)->0;
        let value = json::parsed(response.body@)->Ok_0;
        a_file_is_described_as_it_is(adapter, profile, scope, file_in(value));
    }
}

/// The bytes of an upload are the file's own, between the headers of its part and the
/// line that closes the form.
pub proof fn an_upload_holds_the_file(
    adapter: Adapter,
    purpose: FilePurpose,
    file: UploadFile,
    boundary: Seq<char>,
    expires: Option<u64>,
)
    ensures
        ({
            let body = http::upload_body(adapter, purpose, file, boundary, expires);
            let closing = encode_utf8("\r\n--"@ + boundary + "--\r\n"@);
            let end = body.len() - closing.len();
            &&& end >= file.bytes@.len()
            &&& body.subrange(end, body.len() as int) == closing
            &&& body.subrange(end - file.bytes@.len(), end) == file.bytes@
        }),
{
    let body = http::upload_body(adapter, purpose, file, boundary, expires);
    let closing = encode_utf8("\r\n--"@ + boundary + "--\r\n"@);
    let end = body.len() - closing.len();
    assert(body.subrange(end, body.len() as int) =~= closing);
    assert(body.subrange(end - file.bytes@.len(), end) =~= file.bytes@);
}

/// A file is deleted by a request for that file alone, and only over the connection and
/// the account that it belongs to.
#[verifier::spinoff_prover]
#[verifier::rlimit(40)]
pub proof fn a_file_is_deleted_where_it_belongs(
    profile: ProviderProfile,
    scope: Option<Seq<char>>,
    file: ProviderFileRefView,
)
    ensures
        service::delete_request_in(profile, scope, file) matches Ok(request) ==> {
            &&& of_connection(file, profile, scope)
            &&& policy::adapter_of(profile) matches Some(adapter)
            &&& policy::adapter_capabilities(adapter).delete
            &&& adapter != Adapter::MiniMax ==> request.method == "DELETE"@ && request.body.len()
                == 0 && request.url == rest::file_endpoint(
                profile.base_url@,
                adapter,
                file.file_id,
            )
            &&& adapter == Adapter::MiniMax ==> request.method == "POST"@ && exists|body: JsonView|
                request.body == #[trigger] json::bytes_of(body) && json::str_at(body, "file_id"@)
                    == Some(file.file_id)
        },
        !of_connection(file, profile, scope) ==> (service::delete_request_in(
            profile,
            scope,
            file,
        ) matches Err(error) && error is PermissionDenied),
{
    broadcast use json::entry_after_put;

    lemma_names();
    if let Some(purpose) = file.purpose {
        if let Some(stated) = rest::minimax_deletion(purpose) {
            let body = json::obj2(
                "file_id"@,
                JsonView::Str(file.file_id),
                "purpose"@,
                JsonView::Str(stated),
            );
            assert(json::str_at(body, "file_id"@) == Some(file.file_id));
            assert(json::bytes_of(body) == json::bytes_of(body));
        }
    }
}

/// A file is read by a request for that file alone, and only over the connection and the
/// account that it belongs to.
pub proof fn a_file_is_read_where_it_belongs(
    profile: ProviderProfile,
    scope: Option<Seq<char>>,
    file: ProviderFileRefView,
)
    ensures
        service::download_plan(profile, scope, file) matches Ok(plan) ==> {
            let request = match plan {
                DownloadPlanView::Direct { request } => request,
                DownloadPlanView::IfMarked { request } => request,
            };
            &&& of_connection(file, profile, scope)
            &&& request.method == "GET"@
            &&& request.body.len() == 0
            &&& policy::adapter_of(profile) matches Some(adapter)
            &&& adapter != Adapter::MiniMax ==> request.url == rest::content_endpoint(
                profile.base_url@,
                adapter,
                file.file_id,
            )
            &&& adapter == Adapter::MiniMax ==> request.url == rest::content_endpoint(
                profile.base_url@,
                adapter,
                file.file_id,
            ) + "?file_id="@ + http::query_text(file.file_id)
        },
        !of_connection(file, profile, scope) ==> (service::download_plan(
            profile,
            scope,
            file,
        ) matches Err(error) && error is PermissionDenied),
{
}

/// The address of a file names it, escaped, under the files of its provider.
pub proof fn a_file_has_an_address_of_its_own(base: Seq<char>, adapter: Adapter, id: Seq<char>)
    ensures
        ({
            let root = text::without_trailing(base, '/');
            &&& adapter == Adapter::OpenAi || adapter == Adapter::Qwen || adapter == Adapter::Xai
                || adapter == Adapter::Moonshot || adapter == Adapter::OpenRouter ==> {
                &&& rest::files_endpoint(base, adapter) == root + "/files"@
                &&& rest::file_endpoint(base, adapter, id) == root + "/files"@ + "/"@
                    + http::query_text(id)
                &&& rest::content_endpoint(base, adapter, id) == root + "/files"@ + "/"@
                    + http::query_text(id) + "/content"@
            }
            &&& adapter == Adapter::Anthropic && !"/v1"@.is_suffix_of(root) ==> rest::file_endpoint(
                base,
                adapter,
                id,
            ) == root + "/v1/files"@ + "/"@ + http::query_text(id)
            &&& adapter == Adapter::Gemini && "/v1beta"@.is_suffix_of(root)
                && "files/"@.is_prefix_of(id) ==> rest::file_endpoint(base, adapter, id) == root
                + "/"@ + http::path_text(id)
        }),
{
}

/// A file that Gemini works on is ready once it is active under the same id and with an
/// address, it has failed where the provider says so, and it is waited for while it is
/// processed. The file is never another than the one that was waited for.
#[verifier::spinoff_prover]
#[verifier::rlimit(40)]
pub proof fn a_gemini_file_is_ready_when_it_is_active(
    profile: ProviderProfile,
    scope: Option<Seq<char>>,
    pending: ProviderFileRefView,
    value: JsonView,
)
    ensures
        ({
            let step = service::polled_in(profile, scope, pending, value);
            let state = json::str_at(file_in(value), "state"@);
            &&& step is Ready ==> state == Some("ACTIVE"@)
            &&& step is Pending <==> state == Some("PROCESSING"@)
            &&& step is Failed <==> state == Some("FAILED"@)
            &&& step matches GeminiStepView::Ready { file } ==> {
                &&& file.file_id == pending.file_id
                &&& file.uri is Some && file.uri->0.len() > 0
                &&& file.media_type is None ==> pending.media_type is None
                &&& file.filename is None ==> pending.filename is None
            }
            &&& step matches GeminiStepView::Pending { file } ==> file == pending
            &&& step matches GeminiStepView::Unresolved { file, .. } ==> file == pending
        }),
{
    lemma_names();
}

/// A file that was sent to Gemini is the one that the reply describes, under the name and
/// the media type of the upload, and in the state that the reply names.
#[verifier::spinoff_prover]
#[verifier::rlimit(40)]
pub proof fn a_transferred_file_is_in_the_state_that_it_names(
    profile: ProviderProfile,
    scope: Option<Seq<char>>,
    file: UploadFile,
    value: JsonView,
)
    ensures
        ({
            let step = service::transferred_in(profile, scope, file, value);
            let state = json::str_at(file_in(value), "state"@);
            &&& step is Pending ==> state == Some("PROCESSING"@)
            &&& step is Ready ==> state is None || state == Some("ACTIVE"@)
            &&& state == Some("FAILED"@) ==> step is Failed
            &&& step matches GeminiStepView::Ready { file: found } ==> {
                &&& found.media_type == Some(file.media_type@)
                &&& found.filename == Some(file.filename@)
                &&& found.uri is Some && found.uri->0.len() > 0
            }
            &&& step matches GeminiStepView::Pending { file: found } ==> {
                &&& found.media_type == Some(file.media_type@)
                &&& found.filename == Some(file.filename@)
            }
        }),
{
    lemma_names();
}

/// A file that Qwen parses is ready once it is processed under the same id, it is waited
/// for while it is uploaded or processed or while the provider asks to slow down, and it
/// has failed otherwise.
#[verifier::spinoff_prover]
#[verifier::rlimit(40)]
pub proof fn a_qwen_file_is_ready_when_it_is_processed(
    profile: ProviderProfile,
    scope: Option<Seq<char>>,
    file: ProviderFileRefView,
    response: HttpResponse,
)
    ensures
        ({
            let step = service::qwen_polled_in(profile, scope, file, response);
            &&& response.status == 429 ==> step is Pending
            &&& step is Ready ==> (json::parsed(response.body@) matches Ok(value) && (
            rest::metadata_in(profile, scope, value) matches Ok(said) && said.status == Some(
                "processed"@,
            ) && said.file.file_id == file.file_id))
            &&& 200 <= response.status < 300 ==> (json::parsed(response.body@) matches Ok(value) ==> (
            rest::metadata_in(profile, scope, value) matches Ok(said) ==> {
                let same = said.file.file_id == file.file_id;
                &&& step is Ready <==> same && said.status == Some("processed"@)
                &&& step is Pending <==> same && (said.status == Some("uploaded"@) || said.status
                    == Some("processing"@))
            }))
        }),
{
    lemma_names();
}

/// A deletion is confirmed by a reply that succeeds; Qwen's has to name the file, too.
#[verifier::spinoff_prover]
pub proof fn a_deletion_is_confirmed(
    profile: ProviderProfile,
    file: ProviderFileRefView,
    response: HttpResponse,
)
    ensures
        service::deleted_in(profile, file, response) is Ok ==> {
            &&& 200 <= response.status < 300
            &&& policy::adapter_of(profile) == Some(Adapter::Qwen) ==> (json::parsed(
                response.body@,
            ) matches Ok(value) && json::bool_at(value, "deleted"@) == Some(true) && json::str_at(
                value,
                "id"@,
            ) == Some(file.file_id))
        },
        policy::adapter_of(profile) == Some(Adapter::OpenAi) && 200 <= response.status < 300
            ==> service::deleted_in(profile, file, response) is Ok,
{
}

/// A reply that is refused is an error that tells what its status stands for.
pub proof fn a_refusal_tells_its_cause(response: HttpResponse, operation: Seq<char>)
    ensures
        ({
            let error = http::response_error(response, operation);
            &&& error is None <==> 200 <= response.status < 300
            &&& error is Some && error->0 is Authentication <==> response.status == 401
            &&& error is Some && error->0 is PermissionDenied <==> response.status == 403
            &&& error is Some && error->0 is RequestTooLarge <==> response.status == 413
            &&& error is Some && error->0 is RateLimited <==> response.status == 429
            &&& error is Some && error->0 is ProviderInternal <==> 500 <= response.status <= 599
        }),
{
}

/// Taking a file off a list leaves every other one, in order, and not that one.
pub proof fn a_released_file_is_off_the_list(
    files: Seq<ProviderFileRefView>,
    id: Seq<char>,
    i: int,
    file: ProviderFileRefView,
)
    requires
        0 <= i <= files.len(),
    ensures
        service::without_file(files, id, i).contains(file) <==> file.file_id != id && exists|k: int|
            i <= k < files.len() && #[trigger] files[k] == file,
    decreases files.len() - i,
{
    if i < files.len() {
        let rest = service::without_file(files, id, i + 1);
        a_released_file_is_off_the_list(files, id, i + 1, file);
        if files[i].file_id != id {
            let all = seq![files[i]] + rest;
            if all.contains(file) {
                let k = choose|k: int| 0 <= k < all.len() && all[k] == file;
                if k > 0 {
                    assert(rest[k - 1] == file);
                }
            }
            if rest.contains(file) {
                let k = choose|k: int| 0 <= k < rest.len() && rest[k] == file;
                assert(all[k + 1] == file);
            }
            if files[i] == file {
                assert(all[0] == file);
            }
        }
    }
}

/// An upload that is planned is one that the provider takes: of a media type, within its
/// limit, and for an account where the model is to read it. It is sent with its bytes to
/// the files of that provider, except where the provider takes it in steps.
pub proof fn an_upload_is_one_that_the_provider_takes(
    profile: ProviderProfile,
    scope: Option<Seq<char>>,
    file: UploadFile,
    purpose: FilePurpose,
    expires: Option<u64>,
    boundary: Seq<char>,
)
    ensures
        service::upload_plan(profile, scope, file, purpose, expires, boundary) matches Ok(plan) ==> {
            &&& policy::adapter_of(profile) matches Some(adapter)
            &&& http::is_mime(file.media_type@)
            &&& purpose == FilePurpose::ModelInput || purpose == FilePurpose::VideoUnderstanding
                ==> scope is Some && !text::blank(scope->0)
            &&& policy::limited_by_media(
                policy::capabilities_by_purpose(adapter, purpose, file.media_type@),
                adapter,
                file.media_type@,
            ).max_upload_bytes matches Some(max) ==> file.bytes@.len() <= max
            &&& adapter == Adapter::Gemini <==> plan is Resumable
            &&& plan matches UploadPlanView::Multipart { request } ==> {
                &&& request.method == "POST"@
                &&& request.body == http::upload_body(adapter, purpose, file, boundary, expires)
                &&& adapter != Adapter::MiniMax ==> request.url == rest::files_endpoint(
                    profile.base_url@,
                    adapter,
                )
                &&& adapter == Adapter::MiniMax ==> request.url == rest::files_endpoint(
                    profile.base_url@,
                    adapter,
                ) + "/upload"@
            }
        },
{
}

/// The purpose of a file is told by the name that its provider has for it.
#[verifier::spinoff_prover]
pub proof fn a_purpose_is_told_as_the_provider_has_it(adapter: Adapter, purpose: FilePurpose)
    ensures
        adapter == Adapter::OpenAi && purpose == FilePurpose::ModelInput ==> policy::purpose_of(
            adapter,
            purpose,
        ) == Some("user_data"@) && http::stated_purpose(adapter, purpose) == Some("user_data"@),
        adapter == Adapter::Xai && purpose == FilePurpose::ModelInput ==> policy::purpose_of(
            adapter,
            purpose,
        ) == Some("assistants"@),
        (adapter == Adapter::Qwen || adapter == Adapter::Moonshot) && purpose
            == FilePurpose::Extraction ==> policy::purpose_of(adapter, purpose) == Some(
            "file-extract"@,
        ) && http::stated_purpose(adapter, purpose) == Some("file-extract"@),
        adapter == Adapter::MiniMax && purpose == FilePurpose::VideoUnderstanding
            ==> policy::purpose_of(adapter, purpose) == Some("video_understanding"@),
        adapter == Adapter::Anthropic || adapter == Adapter::Gemini ==> policy::purpose_of(
            adapter,
            purpose,
        ) is None,
{
}

/// A file is handled by the provider that its connection reaches: by the name of the
/// provider and by the host, never by one of them alone.
#[verifier::spinoff_prover]
pub proof fn a_file_is_handled_by_its_provider(
    provider: Seq<char>,
    host: Seq<char>,
    protocol: crate::protocol::ProtocolFamily,
)
    ensures
        ({
            let adapter = policy::adapter_at(provider, Some(host), protocol);
            &&& adapter == Some(Adapter::OpenAi) <==> provider == "openai"@ && host
                == "api.openai.com"@
            &&& adapter == Some(Adapter::Anthropic) <==> provider == "anthropic"@ && host
                == "api.anthropic.com"@
            &&& adapter == Some(Adapter::Gemini) ==> provider == "google"@ && host
                == "generativelanguage.googleapis.com"@
            &&& adapter == Some(Adapter::Xai) <==> provider == "xai"@ && host == "api.x.ai"@
            &&& adapter == Some(Adapter::OpenRouter) <==> provider == "openrouter"@ && host
                == "openrouter.ai"@
            &&& adapter == Some(Adapter::Qwen) ==> provider == "qwen"@
            &&& adapter == Some(Adapter::MiniMax) ==> provider == "minimax"@
            &&& adapter == Some(Adapter::Moonshot) ==> provider == "kimi"@ || provider == "moonshot"@
        }),
{
    lemma_names();
}

/// A page of files is asked for at the provider's files, with its own size of a page, and
/// goes on from the cursor under the name that the provider has for it.
pub proof fn a_page_of_files_is_asked_for_at_its_cursor(
    base: Seq<char>,
    adapter: Adapter,
    cursor: Option<Seq<char>>,
)
    ensures
        ({
            let files = rest::files_endpoint(base, adapter);
            let (url, field) = rest::listing(base, adapter, None, cursor);
            &&& adapter == Adapter::OpenAi ==> field == CursorField::OpenAi && (cursor is None
                ==> url == files + "?"@ + "limit=100"@) && (cursor matches Some(from) ==> url
                == files + "?"@ + ("limit=100"@ + "&"@ + "after"@ + "="@ + http::query_text(from)))
            &&& adapter == Adapter::Qwen ==> field == CursorField::Qwen && (cursor is None
                ==> url == files + "?"@ + "limit=100"@) && (cursor matches Some(from) ==> url
                == files + "?"@ + ("limit=100"@ + "&"@ + "after"@ + "="@ + http::query_text(from)))
            &&& adapter == Adapter::Anthropic ==> field == CursorField::Anthropic && (cursor is None
                ==> url == files + "?"@ + "limit=1000"@) && (cursor matches Some(from) ==> url
                == files + "?"@ + ("limit=1000"@ + "&"@ + "page"@ + "="@ + http::query_text(from)))
            &&& adapter == Adapter::Gemini ==> field == CursorField::Gemini && (cursor is None
                ==> url == files + "?"@ + "pageSize=100"@) && (cursor matches Some(from) ==> url
                == files + "?"@ + ("pageSize=100"@ + "&"@ + "pageToken"@ + "="@ + http::query_text(
                from,
            )))
            &&& adapter == Adapter::Xai ==> field == CursorField::Xai && (cursor is None ==> url
                == files + "?"@ + "limit=100"@) && (cursor matches Some(from) ==> url == files
                + "?"@ + ("limit=100"@ + "&"@ + "pagination_token"@ + "="@ + http::query_text(from)))
            &&& adapter == Adapter::OpenRouter ==> field == CursorField::OpenRouter && (cursor is None
                ==> url == files + "?"@ + "limit=100"@) && (cursor matches Some(from) ==> url
                == files + "?"@ + ("limit=100"@ + "&"@ + "cursor"@ + "="@ + http::query_text(from)))
            &&& adapter == Adapter::MiniMax ==> field == CursorField::MiniMax && url == files
                + "/list"@
        }),
{
}

/// A listing of one purpose names it, in the words of the provider.
pub proof fn a_listing_by_purpose_names_it(base: Seq<char>, purpose: FilePurpose)
    ensures
        ({
            let files = rest::files_endpoint(base, Adapter::MiniMax);
            let url = rest::listing(base, Adapter::MiniMax, Some(purpose), None).0;
            &&& purpose == FilePurpose::VoiceClone ==> url == files + "/list?purpose="@
                + http::query_text("voice_clone"@)
            &&& purpose == FilePurpose::PromptAudio ==> url == files + "/list?purpose="@
                + http::query_text("prompt_audio"@)
            &&& purpose == FilePurpose::AsyncTtsInput ==> url == files + "/list?purpose="@
                + http::query_text("t2a_async_input"@)
            &&& purpose == FilePurpose::VideoGenerationInput ==> url == files + "/list?purpose="@
                + http::query_text("video_generation_input"@)
        }),
        purpose == FilePurpose::ModelInput ==> rest::listing(
            base,
            Adapter::OpenAi,
            Some(purpose),
            None,
        ).0 == rest::files_endpoint(base, Adapter::OpenAi) + "?"@ + ("limit=100"@ + "&purpose="@
            + http::query_text("user_data"@)),
        purpose == FilePurpose::Extraction ==> rest::listing(
            base,
            Adapter::Qwen,
            Some(purpose),
            None,
        ).0 == rest::files_endpoint(base, Adapter::Qwen) + "?"@ + ("limit=100"@ + "&purpose="@
            + http::query_text("file-extract"@)),
{
}

/// Files are listed where the provider lists them, by a plain reading request; a provider
/// that lists by purpose alone is never asked for all of them.
pub proof fn files_are_listed_by_reading(
    profile: ProviderProfile,
    purpose: FilePurpose,
    cursor: Option<Seq<char>>,
)
    ensures
        service::plain_list(profile, cursor) matches Ok(plan) ==> {
            &&& policy::adapter_of(profile) == Some(plan.adapter)
            &&& plan.adapter != Adapter::MiniMax
            &&& plan.request.method == "GET"@
            &&& plan.request.body.len() == 0
            &&& plan.request.url == rest::listing(profile.base_url@, plan.adapter, None, cursor).0
            &&& plan.cursor_field == rest::listing(profile.base_url@, plan.adapter, None, cursor).1
        },
        service::purpose_list(profile, purpose, cursor) matches Ok(plan) ==> {
            &&& policy::adapter_of(profile) == Some(plan.adapter)
            &&& plan.adapter == Adapter::MiniMax || plan.adapter == Adapter::OpenAi || plan.adapter
                == Adapter::Qwen
            &&& plan.adapter == Adapter::MiniMax ==> cursor is None
            &&& plan.request.method == "GET"@
            &&& plan.request.body.len() == 0
            &&& plan.request.url == rest::listing(
                profile.base_url@,
                plan.adapter,
                Some(purpose),
                cursor,
            ).0
        },
        policy::adapter_of(profile) == Some(Adapter::MiniMax) ==> service::plain_list(
            profile,
            cursor,
        ) is Err,
{
}

/// A MiniMax reply is one of success when, and only when, it says so under `base_resp`.
pub proof fn a_minimax_reply_says_whether_it_succeeded(value: JsonView, operation: Seq<char>)
    ensures
        rest::minimax_error(value, operation) is None <==> (json::member2(
            value,
            "base_resp"@,
            "status_code"@,
        ) matches Some(code) && (json::i64_of(code) == Some(0i64) || (json::i64_of(code) is None
            && json::str_of(code) is Some && text::i64_value(json::str_of(code)->0) == Some(0int)))),
{
}

proof fn lemma_session(headers: Seq<(Seq<char>, Seq<char>)>, i: int, from: int)
    requires
        0 <= from <= i < headers.len(),
        headers[i].0 == "x-goog-upload-url"@,
        forall|k: int| from <= k < i ==> (#[trigger] headers[k]).0 != "x-goog-upload-url"@,
    ensures
        gemini_wire::exact_header(headers, "x-goog-upload-url"@, from) == Some(headers[i].1),
    decreases i - from,
{
    if from < i {
        lemma_session(headers, i, from + 1);
    }
}

/// A resumable upload goes on at the address that the start of it was answered with.
pub proof fn an_upload_goes_on_at_its_session(headers: Seq<(Seq<char>, Seq<char>)>, i: int)
    requires
        0 <= i < headers.len(),
        headers[i].0 == "x-goog-upload-url"@,
        forall|k: int| 0 <= k < i ==> (#[trigger] headers[k]).0 != "x-goog-upload-url"@,
    ensures
        gemini_wire::session_url(headers) == Some(headers[i].1),
{
    lemma_session(headers, i, 0);
}

/// A Gemini file is known by its name and its URI, and a reply without either is refused.
pub proof fn a_gemini_file_is_known_by_its_name(file: JsonView, prefix: Seq<char>)
    ensures
        gemini_wire::file_object(file, prefix) is Ok <==> json::str_at(file, "name"@) is Some
            && json::str_at(file, "uri"@) is Some,
        gemini_wire::file_object(file, prefix) matches Ok(found) ==> {
            &&& Some(found.name) == json::str_at(file, "name"@)
            &&& Some(found.uri) == json::str_at(file, "uri"@)
            &&& json::str_at(file, "mimeType"@) matches Some(kind) ==> found.mime_type == kind
            &&& json::str_at(file, "state"@) matches Some(state) ==> found.state == state
        },
{
}

/// Bytes are sent to an address on the origin of the connection alone, over HTTPS and
/// without a name or a password in it.
pub proof fn bytes_stay_on_their_origin(
    left: Option<encoding::ParsedUrlView>,
    right: Option<encoding::ParsedUrlView>,
)
    ensures
        http::origin_matches(left, right) <==> (left matches Some(a) && (right matches Some(b)
            && a.scheme == "https"@ && b.scheme == "https"@ && a.host == b.host && a.port == b.port
            && a.username.len() == 0 && a.password is None)),
{
}

/// A file that is to expire says so in the words of its provider, before anything else in
/// the body.
#[verifier::spinoff_prover]
pub proof fn an_upload_says_when_the_file_expires(
    adapter: Adapter,
    purpose: FilePurpose,
    file: UploadFile,
    boundary: Seq<char>,
    seconds: u64,
)
    ensures
        ({
            let body = http::upload_body(adapter, purpose, file, boundary, Some(seconds));
            let value = text::decimal_text(seconds as nat);
            let field = |name: Seq<char>|
                encode_utf8(
                    "--"@ + boundary + "\r\nContent-Disposition: form-data; name=\""@ + name
                        + "\"\r\n\r\n"@ + value + "\r\n"@,
                );
            &&& adapter == Adapter::Anthropic ==> field("expires_in_seconds"@).is_prefix_of(body)
            &&& adapter == Adapter::Xai ==> field("expires_after"@).is_prefix_of(body)
            &&& adapter == Adapter::OpenAi ==> {
                let anchor = http::form_field(boundary, "expires_after[anchor]"@, "created_at"@);
                (encode_utf8(anchor) + field("expires_after[seconds]"@)).is_prefix_of(body)
            }
        }),
{
    let body = http::upload_body(adapter, purpose, file, boundary, Some(seconds));
    let value = text::decimal_text(seconds as nat);
    let front = http::expiry_fields(adapter, boundary, Some(seconds));
    assert(front.is_prefix_of(body)) by {
        assert(front =~= body.subrange(0, front.len() as int));
    }
    assert(http::form_field(boundary, "expires_in_seconds"@, value) == "--"@ + boundary
        + "\r\nContent-Disposition: form-data; name=\""@ + "expires_in_seconds"@ + "\"\r\n\r\n"@
        + value + "\r\n"@);
}

/// The size, the times and the further names of a file are read where the provider has
/// them, and a file that is read by its id alone gets the address that the provider gives
/// such a file.
#[verifier::spinoff_prover]
#[verifier::rlimit(40)]
pub proof fn a_file_has_the_size_that_is_stated(
    adapter: Adapter,
    profile: ProviderProfile,
    scope: Option<Seq<char>>,
    value: JsonView,
)
    ensures
        rest::metadata_for(adapter, profile, scope, value) matches Ok(found) ==> {
            let file = found.file;
            &&& json::member(value, "bytes"@) is None && json::u64_at(value, "size_bytes"@) is Some
                ==> file.size_bytes == json::u64_at(value, "size_bytes"@)
            &&& json::member(value, "bytes"@) is None && json::member(value, "size_bytes"@) is None
                && json::u64_at(value, "sizeBytes"@) is Some ==> file.size_bytes == json::u64_at(
                value,
                "sizeBytes"@,
            )
            &&& json::member(value, "expires_at"@) is None ==> file.expires_at == scalar(
                json::member(value, "expirationTime"@),
            )
            &&& json::member(value, "created_at"@) is None ==> found.created_at == scalar(
                json::member(value, "createTime"@),
            )
            &&& json::str_at(value, "uri"@) is None ==> {
                &&& adapter == Adapter::Qwen && json::str_at(value, "purpose"@) == Some(
                    "file-extract"@,
                ) ==> file.uri == Some("fileid://"@ + file.file_id)
                &&& adapter == Adapter::MiniMax && json::str_at(value, "purpose"@) == Some(
                    "video_understanding"@,
                ) ==> file.uri == Some("mm_file://"@ + file.file_id)
                &&& adapter != Adapter::Qwen && adapter != Adapter::MiniMax ==> file.uri is None
            }
            &&& adapter != Adapter::Gemini && adapter != Adapter::MiniMax ==> file.downloadable
                == json::bool_at(value, "downloadable"@)
            &&& adapter == Adapter::Gemini && file.downloadable == Some(true) ==> json::str_at(
                value,
                "source"@,
            ) == Some("GENERATED"@) && json::str_at(value, "downloadUri"@) is Some
            &&& adapter == Adapter::MiniMax && json::bool_at(value, "download_url"@) is Some
                ==> file.downloadable == json::bool_at(value, "download_url"@)
        },
{
    lemma_names();
}

/// What is read of a file that is known keeps the media type that was known of it, where
/// the provider says none of the same file.
pub proof fn a_known_media_type_is_kept(
    profile: ProviderProfile,
    scope: Option<Seq<char>>,
    file: ProviderFileRefView,
    response: HttpResponse,
)
    ensures
        service::got_in(profile, scope, file, response) matches Ok(found) ==> (
        policy::adapter_of(profile) matches Some(adapter) && (rest::adapter_json(
            adapter,
            response,
            "file metadata"@,
        ) matches Ok(value) && (rest::metadata_in(profile, scope, value) matches Ok(said) && {
            &&& found.file.file_id == said.file.file_id
            &&& found.status == said.status
            &&& said.file.media_type is Some ==> found.file.media_type == said.file.media_type
            &&& said.file.media_type is None && said.file.file_id == file.file_id
                ==> found.file.media_type == file.media_type
        }))),
{
}

/// A video is given no more time than a video is given, and what is asked for within that
/// is what is given.
pub proof fn a_transfer_is_given_the_time_it_asks_for(
    upload: Option<u64>,
    processing: Option<u64>,
    media_type: Seq<char>,
)
    ensures
        ({
            let (sending, waiting) = service::gemini_times(upload, processing, media_type);
            let video = "video/"@.is_prefix_of(text::lower(media_type));
            &&& upload matches Some(time) ==> sending <= time && (!video || time
                <= service::GEMINI_VIDEO_FILE_TIMEOUT ==> sending == time)
            &&& processing matches Some(time) ==> waiting <= time && (!video || time
                <= service::GEMINI_VIDEO_FILE_TIMEOUT ==> waiting == time)
            &&& video ==> sending <= service::GEMINI_VIDEO_FILE_TIMEOUT && waiting
                <= service::GEMINI_VIDEO_FILE_TIMEOUT
            &&& upload is None && video ==> sending == service::GEMINI_VIDEO_FILE_TIMEOUT
            &&& upload is None && !video ==> sending == service::FILE_TIMEOUT
        }),
{
}

/// A file of MiniMax is deleted under the purpose that its deletion has for it.
pub proof fn a_minimax_file_is_deleted_under_its_purpose(purpose: Seq<char>)
    ensures
        purpose == "voice_clone"@ || purpose == "prompt_audio"@ || purpose == "t2a_async"@
            || purpose == "t2a_async_input"@ ==> rest::minimax_deletion(purpose) == Some(purpose),
        purpose == "video_generation"@ || purpose == "video_generation_input"@
            ==> rest::minimax_deletion(purpose) == Some("video_generation"@),
        purpose == "video_understanding"@ ==> rest::minimax_deletion(purpose) is None,
{
    lemma_names();
}

/// A provider with a host of its own handles the files of its connections there, and on
/// no other host.
#[verifier::spinoff_prover]
pub proof fn a_file_is_handled_on_the_hosts_of_its_provider(
    provider: Seq<char>,
    host: Seq<char>,
    protocol: crate::protocol::ProtocolFamily,
)
    ensures
        ({
            let adapter = policy::adapter_at(provider, Some(host), protocol);
            &&& adapter == Some(Adapter::Moonshot) <==> (provider == "kimi"@ || provider
                == "moonshot"@) && (host == "api.moonshot.cn"@ || host == "api.moonshot.ai"@)
            &&& adapter == Some(Adapter::MiniMax) <==> provider == "minimax"@ && (host
                == "api.minimaxi.com"@ || host == "api.minimax.io"@)
            &&& adapter == Some(Adapter::Zai) <==> provider == "zhipu"@ && host == "api.z.ai"@
            &&& adapter == Some(Adapter::Zhipu) <==> provider == "zhipu"@ && host
                == "open.bigmodel.cn"@
            &&& provider == "qwen"@ && (host == "dashscope.aliyuncs.com"@ || host
                == "dashscope-intl.aliyuncs.com"@) ==> adapter == Some(Adapter::Qwen)
        }),
        policy::adapter_at(provider, None, protocol) is None,
{
    lemma_names();
}

/// A file is given to a model by its id where its provider reads ids, by its address
/// where it reads addresses, and on the provider's own wire alone; a store of files that
/// models do not read is never referred to.
pub proof fn a_file_is_referred_to_as_its_provider_reads_it(
    profile: ProviderProfile,
    model: Seq<char>,
    row: crate::protocol::ModelProfile,
    media: Seq<char>,
    adapter: Adapter,
)
    ensures
        ({
            let found = policy::reference_for(profile, model, row, media, adapter);
            let wire = profile.protocol;
            &&& found == ModelFileReference::FileId ==> adapter == Adapter::OpenAi || adapter
                == Adapter::Anthropic || adapter == Adapter::Xai
            &&& found == ModelFileReference::FileUri ==> adapter == Adapter::Gemini || adapter
                == Adapter::Qwen || adapter == Adapter::MiniMax
            &&& adapter == Adapter::OpenRouter || adapter == Adapter::Moonshot || adapter
                == Adapter::Zai || adapter == Adapter::Zhipu ==> found
                == ModelFileReference::Unsupported
            &&& adapter == Adapter::Anthropic && wire != ProtocolFamily::AnthropicMessages ==> found
                == ModelFileReference::Unsupported
            &&& adapter == Adapter::Gemini && wire != ProtocolFamily::GeminiGenerateContent ==> found
                == ModelFileReference::Unsupported
            &&& adapter == Adapter::Xai && wire != ProtocolFamily::OpenAiResponses ==> found
                == ModelFileReference::Unsupported
            &&& adapter == Adapter::Qwen && wire != ProtocolFamily::OpenAiChat ==> found
                == ModelFileReference::Unsupported
            &&& adapter == Adapter::MiniMax && !"video/"@.is_prefix_of(media) ==> found
                == ModelFileReference::Unsupported
            &&& adapter == Adapter::Anthropic && wire == ProtocolFamily::AnthropicMessages
                && policy::declares_file_input(row) && (media == "application/pdf"@ || media
                == "text/plain"@) ==> found == ModelFileReference::FileId
            &&& adapter == Adapter::OpenAi && wire == ProtocolFamily::OpenAiChat
                && policy::declares_file_input(row) && media == "application/pdf"@ ==> found
                == ModelFileReference::FileId
            &&& (media == "image/png"@ || media == "image/jpeg"@ || media == "image/webp"@)
                && policy::declares_image_input(row) ==> {
                &&& adapter == Adapter::Anthropic && wire == ProtocolFamily::AnthropicMessages
                    ==> found == ModelFileReference::FileId
                &&& adapter == Adapter::OpenAi && wire == ProtocolFamily::OpenAiResponses ==> found
                    == ModelFileReference::FileId
                &&& adapter == Adapter::Gemini && wire == ProtocolFamily::GeminiGenerateContent
                    ==> found == ModelFileReference::FileUri
            }
        }),
{
}

/// A file that a model is given is one of the same connection and account, of the kind
/// that its block says, uploaded for that, and one that the model reads.
pub proof fn a_file_is_one_that_the_model_reads(
    file: crate::protocol::ProviderFileSourceView,
    kind: policy::FileBlock,
    profile: ProviderProfile,
    model: Seq<char>,
    scope: Option<Seq<char>>,
)
    ensures
        policy::direct_file_error(file, kind, profile, model, scope) is None ==> {
            &&& scope is Some && !text::blank(scope->0)
            &&& !text::blank(file.file_id)
            &&& file.media_type matches Some(media)
            &&& kind == policy::FileBlock::Image <==> "image/"@.is_prefix_of(text::lower(media))
            &&& kind == policy::FileBlock::Video ==> "video/"@.is_prefix_of(text::lower(media))
            &&& profile.provider_id@ == "xai"@ ==> file.purpose == Some("assistants"@)
            &&& profile.provider_id@ == "qwen"@ ==> file.purpose == Some("file-extract"@)
            &&& profile.provider_id@ == "minimax"@ && kind == policy::FileBlock::Video
                ==> file.purpose == Some("video_understanding"@)
            &&& policy::capabilities_of(profile, model, media).model_input
                != ModelFileReference::Unsupported
        },
{
    lemma_names();
    if policy::direct_file_error(file, kind, profile, model, scope) is None {
        let lower = text::lower(file.media_type->0);
        if "image/"@.is_prefix_of(lower) && "video/"@.is_prefix_of(lower) {
            assert("image/"@[0] == lower[0]);
            assert("video/"@[0] == lower[0]);
        }
    }
}

/// The files of a provider are listed, read and fetched under the addresses that it has
/// for them.
pub proof fn the_files_of_a_provider_have_their_place(base: Seq<char>, id: Seq<char>)
    ensures
        ({
            let root = text::without_trailing(base, '/');
            let gemini = rest::files_endpoint(base, Adapter::Gemini);
            let minimax = rest::files_endpoint(base, Adapter::MiniMax);
            &&& "/v1beta"@.is_suffix_of(root) ==> gemini == root + "/files"@
            &&& !"/v1beta"@.is_suffix_of(root) ==> gemini == root + "/v1beta/files"@
            &&& rest::content_endpoint(base, Adapter::Gemini, id) == rest::file_endpoint(
                base,
                Adapter::Gemini,
                id,
            ) + ":download?alt=media"@
            &&& rest::file_endpoint(base, Adapter::MiniMax, id) == minimax + "/retrieve"@
            &&& rest::content_endpoint(base, Adapter::MiniMax, id) == minimax
                + "/retrieve_content"@
            &&& encoding::url_parts(base) matches Some(parts) ==> (parts.host matches Some(host)
                ==> minimax == parts.scheme + "://"@ + host + "/v1/files"@)
            &&& !"/v1beta"@.is_suffix_of(root) ==> http::gemini_upload_endpoint(base) == root
                + "/upload/v1beta/files"@
        }),
{
}

/// A page of xAI's files goes on only where it is full, at the token that it states.
pub proof fn a_full_page_goes_on(value: JsonView, rows: Seq<JsonView>)
    ensures
        ({
            let next = rest::next_cursor_in(CursorField::Xai, value, rows);
            &&& rows.len() < 100 ==> (next matches Ok(cursor) && cursor is None)
            &&& rows.len() >= 100 ==> (json::str_at(value, "pagination_token"@) matches Some(token)
                ==> (token.len() > 0 ==> (next matches Ok(cursor) && cursor == Some(token))))
        }),
        ({
            let next = rest::next_cursor_in(CursorField::OpenRouter, value, rows);
            json::str_at(value, "next_cursor"@) matches Some(token) ==> (token.len() > 0 ==> (
            next matches Ok(cursor) && cursor == Some(token)))
        }),
{
}

/// A PDF for Gemini and an image for Qwen have limits of their own, and no file is let
/// through above the limit of its provider.
pub proof fn a_kind_of_file_has_its_own_limit(
    caps: crate::files::types::FileCapabilities,
    adapter: Adapter,
    media_type: Seq<char>,
)
    ensures
        ({
            let limited = policy::limited_by_media(caps, adapter, media_type);
            &&& adapter == Adapter::Gemini && caps.upload && text::lower(media_type) == text::lower(
                "application/pdf"@,
            ) ==> (limited.max_upload_bytes matches Some(max) && max <= 50_000_000 && (
            caps.max_upload_bytes matches Some(limit) ==> max <= limit))
            &&& adapter == Adapter::Qwen && caps.upload && "image/"@.is_prefix_of(
                text::lower(media_type),
            ) ==> limited.max_upload_bytes == Some(20_000_000u64)
            &&& adapter != Adapter::Gemini && adapter != Adapter::Qwen ==> limited == caps
            &&& limited.upload == caps.upload
        }),
{
}

/// An address is safe to fetch from if and only if it is on HTTPS, names a host and holds
/// neither a name nor a password.
pub proof fn a_safe_address_holds_no_secret(parts: Option<encoding::ParsedUrlView>)
    ensures
        http::safe_uri(parts) <==> (parts matches Some(url) && url.scheme == "https"@
            && url.host is Some && url.username.len() == 0 && url.password is None),
{
}

/// The names on the wire, told apart.
#[verifier::spinoff_prover]
proof fn lemma_names()
    ensures
        "&"@.len() == 1,
        "/"@.len() == 1,
        "1"@.len() == 1,
        "="@.len() == 1,
        "?"@.len() == 1,
        "&"@[0] == '&',
        "/"@[0] == '/',
        "1"@[0] == '1',
        "="@[0] == '=',
        "?"@[0] == '?',
        "--"@.len() == 2,
        "id"@.len() == 2,
        "--"@[0] == '-',
        "id"@[0] == 'i',
        "/v1"@.len() == 3,
        "://"@.len() == 3,
        "GET"@.len() == 3,
        "pdf"@.len() == 3,
        "uri"@.len() == 3,
        "xai"@.len() == 3,
        "/v1"@[0] == '/',
        "://"@[0] == ':',
        "GET"@[0] == 'G',
        "pdf"@[0] == 'p',
        "uri"@[0] == 'u',
        "xai"@[0] == 'x',
        "POST"@.len() == 4,
        "data"@.len() == 4,
        "file"@.len() == 4,
        "kimi"@.len() == 4,
        "name"@.len() == 4,
        "page"@.len() == 4,
        "qwen"@.len() == 4,
        "POST"@[0] == 'P',
        "data"@[0] == 'd',
        "file"@[0] == 'f',
        "kimi"@[0] == 'k',
        "name"@[0] == 'n',
        "page"@[0] == 'p',
        "qwen"@[0] == 'q',
        "/list"@.len() == 5,
        "after"@.len() == 5,
        "agent"@.len() == 5,
        "audio"@.len() == 5,
        "bytes"@.len() == 5,
        "error"@.len() == 5,
        "files"@.len() == 5,
        "https"@.len() == 5,
        "image"@.len() == 5,
        "state"@.len() == 5,
        "text/"@.len() == 5,
        "video"@.len() == 5,
        "zhipu"@.len() == 5,
        "/list"@[1] == 'l',
        "after"@[1] == 'f',
        "agent"@[1] == 'g',
        "audio"@[1] == 'u',
        "bytes"@[1] == 'y',
        "error"@[1] == 'r',
        "files"@[1] == 'i',
        "https"@[1] == 't',
        "image"@[1] == 'm',
        "state"@[1] == 't',
        "text/"@[1] == 'e',
        "video"@[1] == 'i',
        "zhipu"@[1] == 'h',
        "/list"@[0] == '/',
        "after"@[0] == 'a',
        "agent"@[0] == 'a',
        "audio"@[0] == 'a',
        "bytes"@[0] == 'b',
        "error"@[0] == 'e',
        "files"@[0] == 'f',
        "https"@[0] == 'h',
        "image"@[0] == 'i',
        "state"@[0] == 's',
        "text/"@[0] == 't',
        "video"@[0] == 'v',
        "zhipu"@[0] == 'z',
        "/files"@.len() == 6,
        "ACTIVE"@.len() == 6,
        "DELETE"@.len() == 6,
        "FAILED"@.len() == 6,
        "cursor"@.len() == 6,
        "files/"@.len() == 6,
        "google"@.len() == 6,
        "image/"@.len() == 6,
        "openai"@.len() == 6,
        "source"@.len() == 6,
        "status"@.len() == 6,
        "video/"@.len() == 6,
        "/files"@[0] == '/',
        "ACTIVE"@[0] == 'A',
        "DELETE"@[0] == 'D',
        "FAILED"@[0] == 'F',
        "cursor"@[0] == 'c',
        "files/"@[0] == 'f',
        "google"@[0] == 'g',
        "image/"@[0] == 'i',
        "openai"@[0] == 'o',
        "source"@[0] == 's',
        "status"@[0] == 's',
        "video/"@[0] == 'v',
        "/files"@[1] == 'f',
        "ACTIVE"@[1] == 'C',
        "DELETE"@[1] == 'E',
        "FAILED"@[1] == 'A',
        "cursor"@[1] == 'u',
        "files/"@[1] == 'i',
        "google"@[1] == 'o',
        "image/"@[1] == 'm',
        "openai"@[1] == 'p',
        "source"@[1] == 'o',
        "status"@[1] == 't',
        "video/"@[1] == 'i',
        "/upload"@.len() == 7,
        "/v1beta"@.len() == 7,
        "deleted"@.len() == 7,
        "file_id"@.len() == 7,
        "last_id"@.len() == 7,
        "minimax"@.len() == 7,
        "purpose"@.len() == 7,
        "/upload"@[0] == '/',
        "/v1beta"@[0] == '/',
        "deleted"@[0] == 'd',
        "file_id"@[0] == 'f',
        "last_id"@[0] == 'l',
        "minimax"@[0] == 'm',
        "purpose"@[0] == 'p',
        "/upload"@[1] == 'u',
        "/v1beta"@[1] == 'v',
        "deleted"@[1] == 'e',
        "file_id"@[1] == 'i',
        "last_id"@[1] == 'a',
        "minimax"@[1] == 'i',
        "purpose"@[1] == 'u',
        "/content"@.len() == 8,
        "api.x.ai"@.len() == 8,
        "api.z.ai"@.len() == 8,
        "document"@.len() == 8,
        "filename"@.len() == 8,
        "has_more"@.len() == 8,
        "mimeType"@.len() == 8,
        "moonshot"@.len() == 8,
        "uploaded"@.len() == 8,
        "/content"@[4] == 't',
        "api.x.ai"@[4] == 'x',
        "api.z.ai"@[4] == 'z',
        "document"@[4] == 'm',
        "filename"@[4] == 'n',
        "has_more"@[4] == 'm',
        "mimeType"@[4] == 'T',
        "moonshot"@[4] == 's',
        "uploaded"@[4] == 'a',
        "/content"@[0] == '/',
        "api.x.ai"@[0] == 'a',
        "api.z.ai"@[0] == 'a',
        "document"@[0] == 'd',
        "filename"@[0] == 'f',
        "has_more"@[0] == 'h',
        "mimeType"@[0] == 'm',
        "moonshot"@[0] == 'm',
        "uploaded"@[0] == 'u',
        "&purpose="@.len() == 9,
        "/retrieve"@.len() == 9,
        "/v1/files"@.len() == 9,
        "?file_id="@.len() == 9,
        "GENERATED"@.len() == 9,
        "anthropic"@.len() == 9,
        "audio/aac"@.len() == 9,
        "audio/l16"@.len() == 9,
        "audio/m4a"@.len() == 9,
        "audio/mp3"@.len() == 9,
        "audio/ogg"@.len() == 9,
        "audio/wav"@.len() == 9,
        "base_resp"@.len() == 9,
        "file_list"@.len() == 9,
        "fileid://"@.len() == 9,
        "image/bmp"@.len() == 9,
        "image/gif"@.len() == 9,
        "image/png"@.len() == 9,
        "limit=100"@.len() == 9,
        "mime_type"@.len() == 9,
        "next_page"@.len() == 9,
        "pageToken"@.len() == 9,
        "processed"@.len() == 9,
        "qwen-long"@.len() == 9,
        "sizeBytes"@.len() == 9,
        "t2a_async"@.len() == 9,
        "user_data"@.len() == 9,
        "video/avi"@.len() == 9,
        "video/mov"@.len() == 9,
        "video/mp4"@.len() == 9,
        "video/mpg"@.len() == 9,
        "video/wmv"@.len() == 9,
        "&purpose="@[8] == '=',
        "/retrieve"@[8] == 'e',
        "/v1/files"@[8] == 's',
        "?file_id="@[8] == '=',
        "GENERATED"@[8] == 'D',
        "anthropic"@[8] == 'c',
        "audio/aac"@[8] == 'c',
        "audio/l16"@[8] == '6',
        "audio/m4a"@[8] == 'a',
        "audio/mp3"@[8] == '3',
        "audio/ogg"@[8] == 'g',
        "audio/wav"@[8] == 'v',
        "base_resp"@[8] == 'p',
        "file_list"@[8] == 't',
        "fileid://"@[8] == '/',
        "image/bmp"@[8] == 'p',
        "image/gif"@[8] == 'f',
        "image/png"@[8] == 'g',
        "limit=100"@[8] == '0',
        "mime_type"@[8] == 'e',
        "next_page"@[8] == 'e',
        "pageToken"@[8] == 'n',
        "processed"@[8] == 'd',
        "qwen-long"@[8] == 'g',
        "sizeBytes"@[8] == 's',
        "t2a_async"@[8] == 'c',
        "user_data"@[8] == 'a',
        "video/avi"@[8] == 'i',
        "video/mov"@[8] == 'v',
        "video/mp4"@[8] == '4',
        "video/mpg"@[8] == 'g',
        "video/wmv"@[8] == 'v',
        "&purpose="@[1] == 'p',
        "/retrieve"@[1] == 'r',
        "/v1/files"@[1] == 'v',
        "?file_id="@[1] == 'f',
        "GENERATED"@[1] == 'E',
        "anthropic"@[1] == 'n',
        "audio/aac"@[1] == 'u',
        "audio/l16"@[1] == 'u',
        "audio/m4a"@[1] == 'u',
        "audio/mp3"@[1] == 'u',
        "audio/ogg"@[1] == 'u',
        "audio/wav"@[1] == 'u',
        "base_resp"@[1] == 'a',
        "file_list"@[1] == 'i',
        "fileid://"@[1] == 'i',
        "image/bmp"@[1] == 'm',
        "image/gif"@[1] == 'm',
        "image/png"@[1] == 'm',
        "limit=100"@[1] == 'i',
        "mime_type"@[1] == 'i',
        "next_page"@[1] == 'e',
        "pageToken"@[1] == 'a',
        "processed"@[1] == 'r',
        "qwen-long"@[1] == 'w',
        "sizeBytes"@[1] == 'i',
        "t2a_async"@[1] == '2',
        "user_data"@[1] == 's',
        "video/avi"@[1] == 'i',
        "video/mov"@[1] == 'i',
        "video/mp4"@[1] == 'i',
        "video/mpg"@[1] == 'i',
        "video/wmv"@[1] == 'i',
        "&purpose="@[6] == 's',
        "/retrieve"@[6] == 'e',
        "/v1/files"@[6] == 'l',
        "?file_id="@[6] == 'i',
        "GENERATED"@[6] == 'T',
        "anthropic"@[6] == 'p',
        "audio/aac"@[6] == 'a',
        "audio/l16"@[6] == 'l',
        "audio/m4a"@[6] == 'm',
        "audio/mp3"@[6] == 'm',
        "audio/ogg"@[6] == 'o',
        "audio/wav"@[6] == 'w',
        "base_resp"@[6] == 'e',
        "file_list"@[6] == 'i',
        "fileid://"@[6] == ':',
        "image/bmp"@[6] == 'b',
        "image/gif"@[6] == 'g',
        "image/png"@[6] == 'p',
        "limit=100"@[6] == '1',
        "mime_type"@[6] == 'y',
        "next_page"@[6] == 'a',
        "pageToken"@[6] == 'k',
        "processed"@[6] == 's',
        "qwen-long"@[6] == 'o',
        "sizeBytes"@[6] == 't',
        "t2a_async"@[6] == 'y',
        "user_data"@[6] == 'a',
        "video/avi"@[6] == 'a',
        "video/mov"@[6] == 'm',
        "video/mp4"@[6] == 'm',
        "video/mpg"@[6] == 'm',
        "video/wmv"@[6] == 'w',
        "PROCESSING"@.len() == 10,
        "assistants"@.len() == 10,
        "audio/aiff"@.len() == 10,
        "audio/alaw"@.len() == 10,
        "audio/flac"@.len() == 10,
        "audio/mpeg"@.len() == 10,
        "audio/opus"@.len() == 10,
        "audio/webm"@.len() == 10,
        "createTime"@.len() == 10,
        "created_at"@.len() == 10,
        "expires_at"@.len() == 10,
        "image/heic"@.len() == 10,
        "image/heif"@.len() == 10,
        "image/jpeg"@.len() == 10,
        "image/webp"@.len() == 10,
        "limit=1000"@.len() == 10,
        "minimax-m3"@.len() == 10,
        "mm_file://"@.len() == 10,
        "openrouter"@.len() == 10,
        "processing"@.len() == 10,
        "qwen-long-"@.len() == 10,
        "size_bytes"@.len() == 10,
        "status_msg"@.len() == 10,
        "text/plain"@.len() == 10,
        "video/3gpp"@.len() == 10,
        "video/mpeg"@.len() == 10,
        "video/webm"@.len() == 10,
        "PROCESSING"@[6] == 'S',
        "assistants"@[6] == 'a',
        "audio/aiff"@[6] == 'a',
        "audio/alaw"@[6] == 'a',
        "audio/flac"@[6] == 'f',
        "audio/mpeg"@[6] == 'm',
        "audio/opus"@[6] == 'o',
        "audio/webm"@[6] == 'w',
        "createTime"@[6] == 'T',
        "created_at"@[6] == 'd',
        "expires_at"@[6] == 's',
        "image/heic"@[6] == 'h',
        "image/heif"@[6] == 'h',
        "image/jpeg"@[6] == 'j',
        "image/webp"@[6] == 'w',
        "limit=1000"@[6] == '1',
        "minimax-m3"@[6] == 'x',
        "mm_file://"@[6] == 'e',
        "openrouter"@[6] == 'u',
        "processing"@[6] == 's',
        "qwen-long-"@[6] == 'o',
        "size_bytes"@[6] == 'y',
        "status_msg"@[6] == '_',
        "text/plain"@[6] == 'l',
        "video/3gpp"@[6] == '3',
        "video/mpeg"@[6] == 'm',
        "video/webm"@[6] == 'w',
        "PROCESSING"@[1] == 'R',
        "assistants"@[1] == 's',
        "audio/aiff"@[1] == 'u',
        "audio/alaw"@[1] == 'u',
        "audio/flac"@[1] == 'u',
        "audio/mpeg"@[1] == 'u',
        "audio/opus"@[1] == 'u',
        "audio/webm"@[1] == 'u',
        "createTime"@[1] == 'r',
        "created_at"@[1] == 'r',
        "expires_at"@[1] == 'x',
        "image/heic"@[1] == 'm',
        "image/heif"@[1] == 'm',
        "image/jpeg"@[1] == 'm',
        "image/webp"@[1] == 'm',
        "limit=1000"@[1] == 'i',
        "minimax-m3"@[1] == 'i',
        "mm_file://"@[1] == 'm',
        "openrouter"@[1] == 'p',
        "processing"@[1] == 'r',
        "qwen-long-"@[1] == 'w',
        "size_bytes"@[1] == 'i',
        "status_msg"@[1] == 't',
        "text/plain"@[1] == 'e',
        "video/3gpp"@[1] == 'i',
        "video/mpeg"@[1] == 'i',
        "video/webm"@[1] == 'i',
        "PROCESSING"@[9] == 'G',
        "assistants"@[9] == 's',
        "audio/aiff"@[9] == 'f',
        "audio/alaw"@[9] == 'w',
        "audio/flac"@[9] == 'c',
        "audio/mpeg"@[9] == 'g',
        "audio/opus"@[9] == 's',
        "audio/webm"@[9] == 'm',
        "createTime"@[9] == 'e',
        "created_at"@[9] == 't',
        "expires_at"@[9] == 't',
        "image/heic"@[9] == 'c',
        "image/heif"@[9] == 'f',
        "image/jpeg"@[9] == 'g',
        "image/webp"@[9] == 'p',
        "limit=1000"@[9] == '0',
        "minimax-m3"@[9] == '3',
        "mm_file://"@[9] == '/',
        "openrouter"@[9] == 'r',
        "processing"@[9] == 'g',
        "qwen-long-"@[9] == '-',
        "size_bytes"@[9] == 's',
        "status_msg"@[9] == 'g',
        "text/plain"@[9] == 'n',
        "video/3gpp"@[9] == 'p',
        "video/mpeg"@[9] == 'g',
        "video/webm"@[9] == 'm',
        "audio/mulaw"@.len() == 11,
        "displayName"@.len() == 11,
        "downloadUri"@.len() == 11,
        "mm_file://1"@.len() == 11,
        "next_cursor"@.len() == 11,
        "status_code"@.len() == 11,
        "video/x-flv"@.len() == 11,
        "voice_clone"@.len() == 11,
        "audio/mulaw"@[6] == 'm',
        "displayName"@[6] == 'y',
        "downloadUri"@[6] == 'a',
        "mm_file://1"@[6] == 'e',
        "next_cursor"@[6] == 'u',
        "status_code"@[6] == '_',
        "video/x-flv"@[6] == 'x',
        "voice_clone"@[6] == 'c',
        "display_name"@.len() == 12,
        "download_url"@.len() == 12,
        "downloadable"@.len() == 12,
        "file-extract"@.len() == 12,
        "pageSize=100"@.len() == 12,
        "prompt_audio"@.len() == 12,
        "display_name"@[8] == 'n',
        "download_url"@[8] == '_',
        "downloadable"@[8] == 'a',
        "file-extract"@[8] == 'r',
        "pageSize=100"@[8] == '=',
        "prompt_audio"@[8] == 'u',
        "/v1beta/files"@.len() == 13,
        "expires_after"@.len() == 13,
        "file metadata"@.len() == 13,
        "nextPageToken"@.len() == 13,
        "openrouter.ai"@.len() == 13,
        "/v1beta/files"@[0] == '/',
        "expires_after"@[0] == 'e',
        "file metadata"@[0] == 'f',
        "nextPageToken"@[0] == 'n',
        "openrouter.ai"@[0] == 'o',
        "/list?purpose="@.len() == 14,
        "api.minimax.io"@.len() == 14,
        "api.openai.com"@.len() == 14,
        "expirationTime"@.len() == 14,
        "message/rfc822"@.len() == 14,
        "/list?purpose="@[4] == 't',
        "api.minimax.io"@[4] == 'm',
        "api.openai.com"@[4] == 'o',
        "expirationTime"@[4] == 'r',
        "message/rfc822"@[4] == 'a',
        "api.moonshot.ai"@.len() == 15,
        "api.moonshot.cn"@.len() == 15,
        "application/csv"@.len() == 15,
        "application/pdf"@.len() == 15,
        "application/rtf"@.len() == 15,
        "file-projection"@.len() == 15,
        "t2a_async_input"@.len() == 15,
        "video/quicktime"@.len() == 15,
        "api.moonshot.ai"@[13] == 'a',
        "api.moonshot.cn"@[13] == 'c',
        "application/csv"@[13] == 's',
        "application/pdf"@[13] == 'd',
        "application/rtf"@[13] == 't',
        "file-projection"@[13] == 'o',
        "t2a_async_input"@[13] == 'u',
        "video/quicktime"@[13] == 'm',
        "api.minimaxi.com"@.len() == 16,
        "application/json"@.len() == 16,
        "application/toml"@.len() == 16,
        "application/yaml"@.len() == 16,
        "open.bigmodel.cn"@.len() == 16,
        "pagination_token"@.len() == 16,
        "video_generation"@.len() == 16,
        "api.minimaxi.com"@[13] == 'c',
        "application/json"@[13] == 's',
        "application/toml"@[13] == 'o',
        "application/yaml"@[13] == 'a',
        "open.bigmodel.cn"@[13] == '.',
        "pagination_token"@[13] == 'k',
        "video_generation"@[13] == 'i',
        "/retrieve_content"@.len() == 17,
        "api.anthropic.com"@.len() == 17,
        "application/json5"@.len() == 17,
        "application/x-awk"@.len() == 17,
        "application/x-iif"@.len() == 17,
        "application/x-php"@.len() == 17,
        "application/x-sql"@.len() == 17,
        "x-goog-upload-url"@.len() == 17,
        "/retrieve_content"@[14] == 'e',
        "api.anthropic.com"@[14] == 'c',
        "application/json5"@[14] == 'o',
        "application/x-awk"@[14] == 'a',
        "application/x-iif"@[14] == 'i',
        "application/x-php"@[14] == 'p',
        "application/x-sql"@[14] == 's',
        "x-goog-upload-url"@[14] == 'u',
        "application/msword"@.len() == 18,
        "application/x-bash"@.len() == 18,
        "application/x-rust"@.len() == 18,
        "application/x-toml"@.len() == 18,
        "application/x-yaml"@.len() == 18,
        "expires_in_seconds"@.len() == 18,
        "application/msword"@[14] == 'w',
        "application/x-bash"@[14] == 'b',
        "application/x-rust"@[14] == 'r',
        "application/x-toml"@[14] == 't',
        "application/x-yaml"@[14] == 'y',
        "expires_in_seconds"@[14] == 'o',
        ":download?alt=media"@.len() == 19,
        "application/graphql"@.len() == 19,
        "application/x-json5"@.len() == 19,
        "application/x-patch"@.len() == 19,
        "application/x-scala"@.len() == 19,
        "video_understanding"@.len() == 19,
        ":download?alt=media"@[14] == 'm',
        "application/graphql"@[14] == 'a',
        "application/x-json5"@[14] == 'j',
        "application/x-patch"@[14] == 'p',
        "application/x-scala"@[14] == 's',
        "video_understanding"@[14] == 'n',
        "/upload/v1beta/files"@.len() == 20,
        "application/epub+zip"@.len() == 20,
        "application/x-ndjson"@.len() == 20,
        "application/x-subrip"@.len() == 20,
        "/upload/v1beta/files"@[14] == '/',
        "application/epub+zip"@[14] == 'u',
        "application/x-ndjson"@[14] == 'n',
        "application/x-subrip"@[14] == 's',
        "application/x-graphql"@.len() == 21,
        "expires_after[anchor]"@.len() == 21,
        "files/file-projection"@.len() == 21,
        "application/x-graphql"@[0] == 'a',
        "expires_after[anchor]"@[0] == 'e',
        "files/file-projection"@[0] == 'f',
        "application/javascript"@.len() == 22,
        "application/typescript"@.len() == 22,
        "application/x-protobuf"@.len() == 22,
        "dashscope.aliyuncs.com"@.len() == 22,
        "expires_after[seconds]"@.len() == 22,
        "video_generation_input"@.len() == 22,
        "application/javascript"@[12] == 'j',
        "application/typescript"@[12] == 't',
        "application/x-protobuf"@[12] == 'x',
        "dashscope.aliyuncs.com"@[12] == 'i',
        "expires_after[seconds]"@[12] == 'r',
        "video_generation_input"@[12] == 't',
        "application/javascript"@[0] == 'a',
        "application/typescript"@[0] == 'a',
        "application/x-protobuf"@[0] == 'a',
        "dashscope.aliyuncs.com"@[0] == 'd',
        "expires_after[seconds]"@[0] == 'e',
        "video_generation_input"@[0] == 'v',
        "application/x-httpd-php"@.len() == 23,
        "application/x-terraform"@.len() == 23,
        "application/x-httpd-php"@[14] == 'h',
        "application/x-terraform"@[14] == 't',
        "application/vnd.ms-excel"@.len() == 24,
        "application/x-powershell"@.len() == 24,
        "application/vnd.ms-excel"@[12] == 'v',
        "application/x-powershell"@[12] == 'x',
        "application/vnd.apple.iwork"@.len() == 27,
        "application/vnd.apple.pages"@.len() == 27,
        "dashscope-intl.aliyuncs.com"@.len() == 27,
        "application/vnd.apple.iwork"@[22] == 'i',
        "application/vnd.apple.pages"@[22] == 'p',
        "dashscope-intl.aliyuncs.com"@[22] == 's',
        ".cn-beijing.maas.aliyuncs.com"@.len() == 29,
        "application/vnd.apple.keynote"@.len() == 29,
        "application/vnd.ms-powerpoint"@.len() == 29,
        ".cn-beijing.maas.aliyuncs.com"@[16] == '.',
        "application/vnd.apple.keynote"@[16] == 'a',
        "application/vnd.ms-powerpoint"@[16] == 'm',
        "application/x-httpd-php-source"@.len() == 30,
        ".ap-southeast-1.maas.aliyuncs.com"@.len() == 33,
        "generativelanguage.googleapis.com"@.len() == 33,
        ".ap-southeast-1.maas.aliyuncs.com"@[0] == '.',
        "generativelanguage.googleapis.com"@[0] == 'g',
        "application/vnd.google-apps.document"@.len() == 36,
        "application/vnd.google-apps.spreadsheet"@.len() == 39,
        "application/vnd.oasis.opendocument.text"@.len() == 39,
        "application/vnd.google-apps.spreadsheet"@[16] == 'g',
        "application/vnd.oasis.opendocument.text"@[16] == 'o',
        "application/vnd.google-apps.presentation"@.len() == 40,
{
    reveal_strlit("&");
    reveal_strlit("&purpose=");
    reveal_strlit("--");
    reveal_strlit(".ap-southeast-1.maas.aliyuncs.com");
    reveal_strlit(".cn-beijing.maas.aliyuncs.com");
    reveal_strlit("/");
    reveal_strlit("/content");
    reveal_strlit("/files");
    reveal_strlit("/list");
    reveal_strlit("/list?purpose=");
    reveal_strlit("/retrieve");
    reveal_strlit("/retrieve_content");
    reveal_strlit("/upload");
    reveal_strlit("/upload/v1beta/files");
    reveal_strlit("/v1");
    reveal_strlit("/v1/files");
    reveal_strlit("/v1beta");
    reveal_strlit("/v1beta/files");
    reveal_strlit("1");
    reveal_strlit("://");
    reveal_strlit(":download?alt=media");
    reveal_strlit("=");
    reveal_strlit("?");
    reveal_strlit("?file_id=");
    reveal_strlit("ACTIVE");
    reveal_strlit("DELETE");
    reveal_strlit("FAILED");
    reveal_strlit("GENERATED");
    reveal_strlit("GET");
    reveal_strlit("POST");
    reveal_strlit("PROCESSING");
    reveal_strlit("after");
    reveal_strlit("agent");
    reveal_strlit("anthropic");
    reveal_strlit("api.anthropic.com");
    reveal_strlit("api.minimax.io");
    reveal_strlit("api.minimaxi.com");
    reveal_strlit("api.moonshot.ai");
    reveal_strlit("api.moonshot.cn");
    reveal_strlit("api.openai.com");
    reveal_strlit("api.x.ai");
    reveal_strlit("api.z.ai");
    reveal_strlit("application/csv");
    reveal_strlit("application/epub+zip");
    reveal_strlit("application/graphql");
    reveal_strlit("application/javascript");
    reveal_strlit("application/json");
    reveal_strlit("application/json5");
    reveal_strlit("application/msword");
    reveal_strlit("application/pdf");
    reveal_strlit("application/rtf");
    reveal_strlit("application/toml");
    reveal_strlit("application/typescript");
    reveal_strlit("application/vnd.apple.iwork");
    reveal_strlit("application/vnd.apple.keynote");
    reveal_strlit("application/vnd.apple.pages");
    reveal_strlit("application/vnd.google-apps.document");
    reveal_strlit("application/vnd.google-apps.presentation");
    reveal_strlit("application/vnd.google-apps.spreadsheet");
    reveal_strlit("application/vnd.ms-excel");
    reveal_strlit("application/vnd.ms-powerpoint");
    reveal_strlit("application/vnd.oasis.opendocument.text");
    reveal_strlit("application/x-awk");
    reveal_strlit("application/x-bash");
    reveal_strlit("application/x-graphql");
    reveal_strlit("application/x-httpd-php");
    reveal_strlit("application/x-httpd-php-source");
    reveal_strlit("application/x-iif");
    reveal_strlit("application/x-json5");
    reveal_strlit("application/x-ndjson");
    reveal_strlit("application/x-patch");
    reveal_strlit("application/x-php");
    reveal_strlit("application/x-powershell");
    reveal_strlit("application/x-protobuf");
    reveal_strlit("application/x-rust");
    reveal_strlit("application/x-scala");
    reveal_strlit("application/x-sql");
    reveal_strlit("application/x-subrip");
    reveal_strlit("application/x-terraform");
    reveal_strlit("application/x-toml");
    reveal_strlit("application/x-yaml");
    reveal_strlit("application/yaml");
    reveal_strlit("assistants");
    reveal_strlit("audio");
    reveal_strlit("audio/aac");
    reveal_strlit("audio/aiff");
    reveal_strlit("audio/alaw");
    reveal_strlit("audio/flac");
    reveal_strlit("audio/l16");
    reveal_strlit("audio/m4a");
    reveal_strlit("audio/mp3");
    reveal_strlit("audio/mpeg");
    reveal_strlit("audio/mulaw");
    reveal_strlit("audio/ogg");
    reveal_strlit("audio/opus");
    reveal_strlit("audio/wav");
    reveal_strlit("audio/webm");
    reveal_strlit("base_resp");
    reveal_strlit("bytes");
    reveal_strlit("createTime");
    reveal_strlit("created_at");
    reveal_strlit("cursor");
    reveal_strlit("dashscope-intl.aliyuncs.com");
    reveal_strlit("dashscope.aliyuncs.com");
    reveal_strlit("data");
    reveal_strlit("deleted");
    reveal_strlit("displayName");
    reveal_strlit("display_name");
    reveal_strlit("document");
    reveal_strlit("downloadUri");
    reveal_strlit("download_url");
    reveal_strlit("downloadable");
    reveal_strlit("error");
    reveal_strlit("expirationTime");
    reveal_strlit("expires_after");
    reveal_strlit("expires_after[anchor]");
    reveal_strlit("expires_after[seconds]");
    reveal_strlit("expires_at");
    reveal_strlit("expires_in_seconds");
    reveal_strlit("file");
    reveal_strlit("file metadata");
    reveal_strlit("file-extract");
    reveal_strlit("file-projection");
    reveal_strlit("file_id");
    reveal_strlit("file_list");
    reveal_strlit("fileid://");
    reveal_strlit("filename");
    reveal_strlit("files");
    reveal_strlit("files/");
    reveal_strlit("files/file-projection");
    reveal_strlit("generativelanguage.googleapis.com");
    reveal_strlit("google");
    reveal_strlit("has_more");
    reveal_strlit("https");
    reveal_strlit("id");
    reveal_strlit("image");
    reveal_strlit("image/");
    reveal_strlit("image/bmp");
    reveal_strlit("image/gif");
    reveal_strlit("image/heic");
    reveal_strlit("image/heif");
    reveal_strlit("image/jpeg");
    reveal_strlit("image/png");
    reveal_strlit("image/webp");
    reveal_strlit("kimi");
    reveal_strlit("last_id");
    reveal_strlit("limit=100");
    reveal_strlit("limit=1000");
    reveal_strlit("message/rfc822");
    reveal_strlit("mimeType");
    reveal_strlit("mime_type");
    reveal_strlit("minimax");
    reveal_strlit("minimax-m3");
    reveal_strlit("mm_file://");
    reveal_strlit("mm_file://1");
    reveal_strlit("moonshot");
    reveal_strlit("name");
    reveal_strlit("nextPageToken");
    reveal_strlit("next_cursor");
    reveal_strlit("next_page");
    reveal_strlit("open.bigmodel.cn");
    reveal_strlit("openai");
    reveal_strlit("openrouter");
    reveal_strlit("openrouter.ai");
    reveal_strlit("page");
    reveal_strlit("pageSize=100");
    reveal_strlit("pageToken");
    reveal_strlit("pagination_token");
    reveal_strlit("pdf");
    reveal_strlit("processed");
    reveal_strlit("processing");
    reveal_strlit("prompt_audio");
    reveal_strlit("purpose");
    reveal_strlit("qwen");
    reveal_strlit("qwen-long");
    reveal_strlit("qwen-long-");
    reveal_strlit("sizeBytes");
    reveal_strlit("size_bytes");
    reveal_strlit("source");
    reveal_strlit("state");
    reveal_strlit("status");
    reveal_strlit("status_code");
    reveal_strlit("status_msg");
    reveal_strlit("t2a_async");
    reveal_strlit("t2a_async_input");
    reveal_strlit("text/");
    reveal_strlit("text/plain");
    reveal_strlit("uploaded");
    reveal_strlit("uri");
    reveal_strlit("user_data");
    reveal_strlit("video");
    reveal_strlit("video/");
    reveal_strlit("video/3gpp");
    reveal_strlit("video/avi");
    reveal_strlit("video/mov");
    reveal_strlit("video/mp4");
    reveal_strlit("video/mpeg");
    reveal_strlit("video/mpg");
    reveal_strlit("video/quicktime");
    reveal_strlit("video/webm");
    reveal_strlit("video/wmv");
    reveal_strlit("video/x-flv");
    reveal_strlit("video_generation");
    reveal_strlit("video_generation_input");
    reveal_strlit("video_understanding");
    reveal_strlit("voice_clone");
    reveal_strlit("x-goog-upload-url");
    reveal_strlit("xai");
    reveal_strlit("zhipu");
}

} // verus!
