//! The list whose ids are resource paths, and which paginates with a page token.

use crate::codecs::gemini;
use crate::codecs::openai::chat;
use crate::directory::{
    self, DecodedModelPage, DecodedPageView, LiveModel, LiveModelView, ModelDirectory, ModelPage,
    ModelPageView,
};
use crate::json::{self, Json, JsonView};
use crate::protocol::error;
use crate::protocol::{LlmError, LlmErrorView, ProtocolFamily, ProviderProfile};
use crate::text;
use crate::transport::{self, HttpRequest, HttpRequestView, HttpResponse};
use crate::views;
use vstd::prelude::*;

verus! {

broadcast use {crate::views::group_views, crate::json::group_json};

#[derive(Debug, Default, Clone, Copy)]
pub struct GeminiDirectory;

/// The id that a request carries: the resource path without its collection.
pub open spec fn bare_id(name: Seq<char>) -> Seq<char> {
    match text::after_prefix(name, "models/"@) {
        Some(id) => id,
        None => name,
    }
}

fn read_id(name: &str) -> (id: String)
    ensures
        id@ == bare_id(name@),
{
    match text::strip_prefix(name, "models/") {
        Some(id) => id,
        None => name.to_owned(),
    }
}

pub open spec fn methods_error() -> LlmErrorView {
    error::internal_view(
        "a Gemini model's supportedGenerationMethods must be an array of strings"@,
    )
}

pub open spec fn method_error() -> LlmErrorView {
    error::internal_view(
        "a Gemini model's supportedGenerationMethods must contain only strings"@,
    )
}

/// Whether a method from the `i`th on generates content.
pub open spec fn generates(methods: Seq<JsonView>, i: int, before: bool) -> Result<bool, LlmErrorView>
    decreases methods.len() - i,
{
    if i < 0 || i >= methods.len() {
        Ok(before)
    } else {
        match json::str_of(methods[i]) {
            Some(method) => generates(methods, i + 1, before || method == "generateContent"@),
            None => Err(method_error()),
        }
    }
}

/// Whether a row says that the model generates content. A missing list says
/// nothing; one without the method is a negative.
pub open spec fn supports_of(row: JsonView) -> Result<Option<bool>, LlmErrorView> {
    match json::member(row, "supportedGenerationMethods"@) {
        None => Ok(None),
        Some(JsonView::Array(methods)) => match generates(methods, 0, false) {
            Ok(supports) => Ok(Some(supports)),
            Err(error) => Err(error),
        },
        Some(_) => Err(methods_error()),
    }
}

fn read_methods(methods: &Vec<Json>) -> (result: Result<bool, LlmError>)
    ensures
        match generates(methods.deep_view(), 0, false) {
            Ok(supports) => result matches Ok(found) && found == supports,
            Err(error) => result matches Err(found) && found@ == error,
        },
{
    let mut supports = false;
    let mut i: usize = 0;
    while i < methods.len()
        invariant
            i <= methods.len(),
            generates(methods.deep_view(), 0, false) == generates(
                methods.deep_view(),
                i as int,
                supports,
            ),
        decreases methods.len() - i,
    {
        assert(methods.deep_view()[i as int] == methods@[i as int]@);
        match methods[i].as_str() {
            Some(method) => if text::same(method, "generateContent") {
                supports = true;
            },
            None => return Err(
                error::internal(
                    "a Gemini model's supportedGenerationMethods must contain only strings",
                ),
            ),
        }
        i = i + 1;
    }
    Ok(supports)
}

fn supports_generate_content(row: &Json) -> (result: Result<Option<bool>, LlmError>)
    ensures
        match supports_of(row@) {
            Ok(supports) => result matches Ok(found) && found == supports,
            Err(error) => result matches Err(found) && found@ == error,
        },
{
    match row.get("supportedGenerationMethods") {
        None => Ok(None),
        Some(Json::Array(methods)) => {
            let supports = read_methods(methods)?;
            Ok(Some(supports))
        },
        Some(_) => Err(
            error::internal(
                "a Gemini model's supportedGenerationMethods must be an array of strings",
            ),
        ),
    }
}

/// A model of the list.
pub open spec fn model_of(row: JsonView, id: Seq<char>) -> LiveModelView {
    LiveModelView {
        inference_features: None,
        request_model: id,
        display_name: directory::text_of(row, "displayName"@),
        description: directory::text_of(row, "description"@),
        context_window: json::u64_at(row, "inputTokenLimit"@),
        max_output_tokens: json::u64_at(row, "outputTokenLimit"@),
    }
}

/// The rows that were read.
pub struct Rows {
    pub models: Vec<LiveModel>,
    pub incompatible: Vec<String>,
    pub compatible: Vec<String>,
}

pub struct RowsView {
    pub models: Seq<LiveModelView>,
    pub incompatible: Seq<Seq<char>>,
    pub compatible: Seq<Seq<char>>,
}

impl DeepView for Rows {
    type V = RowsView;

    open spec fn deep_view(&self) -> RowsView {
        RowsView {
            models: self.models.deep_view(),
            incompatible: self.incompatible.deep_view(),
            compatible: self.compatible.deep_view(),
        }
    }
}

pub open spec fn no_rows() -> RowsView {
    RowsView { models: Seq::empty(), incompatible: Seq::empty(), compatible: Seq::empty() }
}

/// What was read, with one more row.
pub open spec fn with_row(read: RowsView, row: JsonView) -> Result<RowsView, LlmErrorView> {
    match json::str_at(row, "name"@) {
        None => Err(directory::no_id("name"@)),
        Some(name) => {
            let id = bare_id(name);
            match supports_of(row) {
                Err(error) => Err(error),
                Ok(Some(false)) => Ok(
                    RowsView { incompatible: read.incompatible.push(id), ..read },
                ),
                Ok(Some(true)) => Ok(
                    RowsView {
                        models: read.models.push(model_of(row, id)),
                        compatible: read.compatible.push(id),
                        ..read
                    },
                ),
                Ok(None) => Ok(
                    RowsView { models: read.models.push(model_of(row, id)), ..read },
                ),
            }
        },
    }
}

pub open spec fn with_rows(read: RowsView, rows: Seq<JsonView>, i: int) -> Result<
    RowsView,
    LlmErrorView,
>
    decreases rows.len() - i,
{
    if i < 0 || i >= rows.len() {
        Ok(read)
    } else {
        match with_row(read, rows[i]) {
            Ok(read) => with_rows(read, rows, i + 1),
            Err(error) => Err(error),
        }
    }
}

fn read_row(read: Rows, row: &Json) -> (result: Result<Rows, LlmError>)
    ensures
        views::res(result) == with_row(read.deep_view(), row@),
{
    let mut read = read;
    let name = directory::required_id(row, "name")?;
    let id = read_id(&name);
    let supports = supports_generate_content(row)?;
    if let Some(supports) = supports {
        if !supports {
            read.incompatible.push(id);
            return Ok(read);
        }
        read.compatible.push(id.clone());
    }
    read.models.push(
        LiveModel {
            inference_features: None,
            request_model: id,
            display_name: directory::find_text(row, "displayName"),
            description: directory::find_text(row, "description"),
            context_window: row.u64_at("inputTokenLimit"),
            max_output_tokens: row.u64_at("outputTokenLimit"),
        },
    );
    Ok(read)
}

fn read_rows(rows: &Vec<Json>) -> (result: Result<Rows, LlmError>)
    ensures
        views::res(result) == with_rows(no_rows(), rows.deep_view(), 0),
{
    let mut read = Rows {
        models: Vec::new(),
        incompatible: Vec::new(),
        compatible: Vec::new(),
    };
    assert(read.deep_view() == no_rows());
    let mut i: usize = 0;
    while i < rows.len()
        invariant
            i <= rows.len(),
            with_rows(no_rows(), rows.deep_view(), 0) == with_rows(
                read.deep_view(),
                rows.deep_view(),
                i as int,
            ),
        decreases rows.len() - i,
    {
        assert(rows.deep_view()[i as int] == rows@[i as int]@);
        read = read_row(read, &rows[i])?;
        i = i + 1;
    }
    Ok(read)
}

/// The page token, where there is one that is not empty.
pub open spec fn token_of(body: JsonView) -> Result<Option<Seq<char>>, LlmErrorView> {
    match json::member(body, "nextPageToken"@) {
        None => Ok(None),
        Some(JsonView::Null) => Ok(None),
        Some(JsonView::Str(token)) => if token.len() == 0 {
            Ok(None)
        } else {
            Ok(Some(token))
        },
        Some(_) => Err(
            error::internal_view(
                "the Gemini model directory's nextPageToken must be a string"@,
            ),
        ),
    }
}

fn next_page_cursor(body: &Json) -> (result: Result<Option<String>, LlmError>)
    ensures
        views::res(result) == token_of(body@),
{
    match body.get("nextPageToken") {
        None => Ok(None),
        Some(Json::Null) => Ok(None),
        Some(Json::Str(token)) => if text::is_empty(token) {
            Ok(None)
        } else {
            Ok(Some(token.clone()))
        },
        Some(_) => Err(
            error::internal("the Gemini model directory's nextPageToken must be a string"),
        ),
    }
}

/// The body of a success, or the error that a completion would have given.
pub open spec fn answer_of(response: HttpResponse) -> Result<JsonView, LlmErrorView> {
    if transport::is_success(response.status) {
        directory::body_of(response)
    } else {
        Err(
            gemini::decode::classified(
                response.status,
                json::bytes_value(response.body@),
                chat::decode::retry_after_of(response),
            ),
        )
    }
}

fn read_answer(response: &HttpResponse) -> (result: Result<Json, LlmError>)
    ensures
        views::res(result) == answer_of(*response),
{
    if 200 <= response.status && response.status < 300 {
        return directory::read_body(response);
    }
    let body = json::value_of_bytes(response.body.as_slice());
    Err(
        gemini::classify_error(response.status, &body, chat::decode::retry_after(response)),
    )
}

/// The page of a response, with what it states of operations.
pub open spec fn token_page(response: HttpResponse) -> Result<DecodedPageView, LlmErrorView> {
    match answer_of(response) {
        Err(error) => Err(error),
        Ok(body) => match directory::rows_of(body, "models"@) {
            Err(error) => Err(error),
            Ok(rows) => match with_rows(no_rows(), rows, 0) {
                Err(error) => Err(error),
                Ok(read) => match token_of(body) {
                    Err(error) => Err(error),
                    Ok(next_cursor) => Ok(
                        DecodedPageView {
                            page: ModelPageView { models: read.models, next_cursor },
                            incompatible: read.incompatible,
                            compatible: read.compatible,
                        },
                    ),
                },
            },
        },
    }
}

fn decode(response: &HttpResponse) -> (result: Result<DecodedModelPage, LlmError>)
    ensures
        views::res(result) == token_page(*response),
{
    let body = read_answer(response)?;
    let rows = directory::rows(&body, "models")?;
    let read = read_rows(rows)?;
    let next_cursor = next_page_cursor(&body)?;
    Ok(
        DecodedModelPage {
            page: ModelPage { models: read.models, next_cursor },
            incompatible_model_ids: read.incompatible,
            explicitly_compatible_model_ids: read.compatible,
        },
    )
}

/// The query of a page.
pub open spec fn params_of(cursor: Option<Seq<char>>) -> Seq<(Seq<char>, Seq<char>)> {
    match cursor {
        Some(token) => seq![("pageSize"@, directory::PAGE_SIZE@), ("pageToken"@, token)],
        None => seq![("pageSize"@, directory::PAGE_SIZE@)],
    }
}

impl ModelDirectory for GeminiDirectory {
    open spec fn shape_of(&self) -> ProtocolFamily {
        ProtocolFamily::GeminiGenerateContent
    }

    open spec fn listing_of(&self, profile: ProviderProfile, cursor: Option<Seq<char>>) -> HttpRequestView {
        directory::get_of(
            directory::query_of(
                directory::endpoint_of(profile, "/models"@),
                params_of(cursor),
            ),
            profile,
        )
    }

    open spec fn page_of(&self, response: HttpResponse) -> Result<DecodedPageView, LlmErrorView> {
        token_page(response)
    }

    fn shape(&self) -> (shape: ProtocolFamily) {
        ProtocolFamily::GeminiGenerateContent
    }

    fn list_request(&self, profile: &ProviderProfile, cursor: Option<&str>) -> (request:
        HttpRequest) {
        let mut params: Vec<(&str, &str)> = Vec::new();
        params.push(("pageSize", directory::PAGE_SIZE));
        if let Some(token) = cursor {
            params.push(("pageToken", token));
        }
        assert(views::pairs(params@) =~= params_of(cursor.deep_view()));
        let url = directory::with_query(&directory::endpoint(profile, "/models"), &params);
        directory::get(url, profile)
    }

    fn decode_page(&self, response: &HttpResponse) -> (result: Result<ModelPage, LlmError>) {
        let decoded = decode(response)?;
        Ok(decoded.page)
    }

    fn decode_page_with_exclusions(&self, response: &HttpResponse) -> (result: Result<
        DecodedModelPage,
        LlmError,
    >) {
        decode(response)
    }
}

/// A page that is read by the wrong shape, with its list under another key, is
/// refused rather than read as an empty catalog.
pub proof fn a_page_without_its_list_is_refused(response: HttpResponse)
    requires
        transport::is_success(response.status),
        json::parsed(response.body@) is Ok,
        !(json::at(json::parsed(response.body@)->Ok_0, "models"@) is Array),
    ensures
        GeminiDirectory.page_of(response) is Err,
{
}

} // verus!
