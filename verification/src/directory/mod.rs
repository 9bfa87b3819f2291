//! What a connection says it serves right now.
//!
//! The shipped catalog is authoritative about what a model costs and what it is; a
//! directory says which model ids an endpoint accepts today. The wire an endpoint
//! speaks does not decide the shape of its model list, so a directory is no part of
//! a codec, and a connection without one can still run turns.
//!
//! A wrong parser is worse than none: every shape refuses a page whose list is
//! absent, and a row without an id. Read by the wrong shape, a page would yield no
//! rows, which looks like a provider that withdrew its whole catalog.

pub mod anthropic;
pub mod gemini;
pub mod laws;
pub mod openai;

pub use anthropic::AnthropicMessagesDirectory;
pub use gemini::GeminiDirectory;
pub use openai::OpenAiChatDirectory;

use crate::codecs::extras;
use crate::codecs::web_search_decode;
use crate::files::http;
use crate::json::{self, Json, JsonView};
use crate::protocol::error;
use crate::protocol::{
    FeaturesView, InferenceFeatures, LlmError, LlmErrorView, ProtocolFamily, ProviderProfile,
};
use crate::text;
use crate::transport::{HttpRequest, HttpRequestView, HttpResponse};
use crate::views;
use vstd::prelude::*;

verus! {

broadcast use {crate::views::group_views, crate::json::group_json};

/// One model as the provider's own list describes it. Prices are not read: the
/// catalog is what is priced from.
#[derive(Debug, Clone, PartialEq, Eq)]
pub struct LiveModel {
    pub inference_features: Option<InferenceFeatures>,
    /// The id as it goes on the wire.
    pub request_model: String,
    pub display_name: Option<String>,
    pub description: Option<String>,
    pub context_window: Option<u64>,
    pub max_output_tokens: Option<u64>,
}

pub struct LiveModelView {
    pub inference_features: Option<FeaturesView>,
    pub request_model: Seq<char>,
    pub display_name: Option<Seq<char>>,
    pub description: Option<Seq<char>>,
    pub context_window: Option<u64>,
    pub max_output_tokens: Option<u64>,
}

impl DeepView for LiveModel {
    type V = LiveModelView;

    open spec fn deep_view(&self) -> LiveModelView {
        LiveModelView {
            inference_features: self.inference_features.deep_view(),
            request_model: self.request_model@,
            display_name: self.display_name.deep_view(),
            description: self.description.deep_view(),
            context_window: self.context_window,
            max_output_tokens: self.max_output_tokens,
        }
    }
}

/// One page of a directory, and how to ask for the next.
#[derive(Debug, Clone, PartialEq, Eq)]
pub struct ModelPage {
    pub models: Vec<LiveModel>,
    /// The provider's own cursor; nothing on the last page.
    pub next_cursor: Option<String>,
}

pub struct ModelPageView {
    pub models: Seq<LiveModelView>,
    pub next_cursor: Option<Seq<char>>,
}

impl DeepView for ModelPage {
    type V = ModelPageView;

    open spec fn deep_view(&self) -> ModelPageView {
        ModelPageView {
            models: self.models.deep_view(),
            next_cursor: self.next_cursor.deep_view(),
        }
    }
}

/// A page with what the directory states of operations.
#[derive(Debug, Clone, PartialEq, Eq)]
pub struct DecodedModelPage {
    /// Models that are usable, or about which nothing is stated.
    pub page: ModelPage,
    /// Models that are known not to serve this directory's wire.
    pub incompatible_model_ids: Vec<String>,
    /// Models that are known to serve it.
    pub explicitly_compatible_model_ids: Vec<String>,
}

pub struct DecodedPageView {
    pub page: ModelPageView,
    pub incompatible: Seq<Seq<char>>,
    pub compatible: Seq<Seq<char>>,
}

impl DeepView for DecodedModelPage {
    type V = DecodedPageView;

    open spec fn deep_view(&self) -> DecodedPageView {
        DecodedPageView {
            page: self.page.deep_view(),
            incompatible: self.incompatible_model_ids.deep_view(),
            compatible: self.explicitly_compatible_model_ids.deep_view(),
        }
    }
}

/// The page alone.
pub open spec fn page_alone(page: Result<DecodedPageView, LlmErrorView>) -> Result<
    ModelPageView,
    LlmErrorView,
> {
    match page {
        Ok(decoded) => Ok(decoded.page),
        Err(error) => Err(error),
    }
}

/// A page about whose operations nothing is stated.
pub open spec fn unexcluded(page: Result<ModelPageView, LlmErrorView>) -> Result<
    DecodedPageView,
    LlmErrorView,
> {
    match page {
        Ok(page) => Ok(
            DecodedPageView { page, incompatible: Seq::empty(), compatible: Seq::empty() },
        ),
        Err(error) => Err(error),
    }
}

fn without_exclusions(page: Result<ModelPage, LlmError>) -> (result: Result<
    DecodedModelPage,
    LlmError,
>)
    ensures
        views::res(result) == unexcluded(views::res(page)),
{
    match page {
        Ok(page) => Ok(
            DecodedModelPage {
                page,
                incompatible_model_ids: Vec::new(),
                explicitly_compatible_model_ids: Vec::new(),
            },
        ),
        Err(error) => Err(error),
    }
}

/// How to ask one shape of endpoint what it serves, and how to read the answer.
pub trait ModelDirectory: Sized {
    spec fn shape_of(&self) -> ProtocolFamily;

    /// The request of a page.
    spec fn listing_of(&self, profile: ProviderProfile, cursor: Option<Seq<char>>) -> HttpRequestView;

    /// The page of a response.
    spec fn page_of(&self, response: HttpResponse) -> Result<DecodedPageView, LlmErrorView>;

    /// The shape that this reads.
    fn shape(&self) -> (shape: ProtocolFamily)
        ensures
            shape == self.shape_of(),
    ;

    /// The request of one page. The cursor is one that this same directory gave.
    /// It carries no credential: the caller attaches one.
    fn list_request(&self, profile: &ProviderProfile, cursor: Option<&str>) -> (request: HttpRequest)
        ensures
            request@ == self.listing_of(*profile, cursor.deep_view()),
    ;

    fn decode_page(&self, response: &HttpResponse) -> (result: Result<ModelPage, LlmError>)
        ensures
            views::res(result) == page_alone(self.page_of(*response)),
    ;

    /// Decodes a page with what it states of operations.
    fn decode_page_with_exclusions(&self, response: &HttpResponse) -> (result: Result<
        DecodedModelPage,
        LlmError,
    >)
        ensures
            views::res(result) == self.page_of(*response),
    ;
}

/// A directory request is a background refresh, so it is bounded. In
/// milliseconds.
pub const DIRECTORY_TIMEOUT: u64 = 30_000;

/// The largest page that the paginating shapes serve.
pub const PAGE_SIZE: &'static str = "1000";

/// The endpoint to list from. How much path a base URL carries is a convention of
/// the shape, so the path is too.
pub open spec fn endpoint_of(profile: ProviderProfile, path: Seq<char>) -> Seq<char> {
    text::without_trailing(profile.base_url@, '/') + path
}

fn endpoint(profile: &ProviderProfile, path: &str) -> (url: String)
    ensures
        url@ == endpoint_of(*profile, path@),
{
    text::cat2(&text::trim_end_char(&profile.base_url, '/'), path)
}

/// The URL with query parameters from the `i`th on, the first behind the
/// separator. A cursor is opaque, so every value is percent-encoded.
pub open spec fn queried(
    url: Seq<char>,
    params: Seq<(Seq<char>, Seq<char>)>,
    i: int,
    separator: char,
) -> Seq<char>
    decreases params.len() - i,
{
    if i < 0 || i >= params.len() {
        url
    } else {
        queried(
            url.push(separator) + params[i].0 + "="@ + http::query_text(params[i].1),
            params,
            i + 1,
            '&',
        )
    }
}

/// The URL with query parameters.
pub open spec fn query_of(url: Seq<char>, params: Seq<(Seq<char>, Seq<char>)>) -> Seq<char> {
    queried(
        url,
        params,
        0,
        if text::contains(url, "?"@) {
            '&'
        } else {
            '?'
        },
    )
}

fn with_query(url: &str, params: &Vec<(&str, &str)>) -> (result: String)
    ensures
        result@ == query_of(url@, views::pairs(params@)),
{
    let ghost all = views::pairs(params@);
    let mut out = url.to_owned();
    let mut separator = if text::has_part(url, "?") {
        '&'
    } else {
        '?'
    };
    let mut i: usize = 0;
    while i < params.len()
        invariant
            i <= params.len(),
            all == views::pairs(params@),
            query_of(url@, all) == queried(out@, all, i as int, separator),
        decreases params.len() - i,
    {
        out.push(separator);
        out.append(params[i].0);
        out.append("=");
        out.append(&http::query_value(params[i].1));
        separator = '&';
        i = i + 1;
    }
    out
}

/// A request for a URL with the headers that a profile puts on every request.
pub open spec fn get_of(url: Seq<char>, profile: ProviderProfile) -> HttpRequestView {
    HttpRequestView {
        method: "GET"@,
        url,
        headers: extras::with_extra_headers(profile, seq![("accept"@, "application/json"@)]).0,
        body: Seq::empty(),
        timeout: Some(DIRECTORY_TIMEOUT),
    }
}

fn get(url: String, profile: &ProviderProfile) -> (request: HttpRequest)
    ensures
        request@ == get_of(url@, *profile),
{
    let mut headers: Vec<(String, String)> = Vec::new();
    headers.push(("accept".to_owned(), "application/json".to_owned()));
    assert(headers.deep_view() =~= seq![("accept"@, "application/json"@)]);
    extras::merge_headers(profile, &mut headers);
    HttpRequest {
        method: "GET".to_owned(),
        url,
        headers,
        body: Vec::new(),
        timeout: Some(DIRECTORY_TIMEOUT),
    }
}

/// The body of an answer.
pub open spec fn body_of(response: HttpResponse) -> Result<JsonView, LlmErrorView> {
    match json::parsed(response.body@) {
        Ok(body) => Ok(body),
        Err(e) => Err(
            error::internal_view(
                "the model directory answered with something that is not JSON: "@ + e,
            ),
        ),
    }
}

fn read_body(response: &HttpResponse) -> (result: Result<Json, LlmError>)
    ensures
        views::res(result) == body_of(*response),
{
    match json::parse(response.body.as_slice()) {
        Ok(body) => Ok(body),
        Err(e) => Err(
            error::internal(
                &text::cat2(
                    "the model directory answered with something that is not JSON: ",
                    &e,
                ),
            ),
        ),
    }
}

/// The list of a page. An absent list is no empty catalog.
pub open spec fn rows_of(body: JsonView, key: Seq<char>) -> Result<Seq<JsonView>, LlmErrorView> {
    match json::member(body, key) {
        Some(JsonView::Array(rows)) => Ok(rows),
        _ => Err(
            error::internal_view(
                "the model directory's page has no "@ + text::debug_text(key) + " array"@,
            ),
        ),
    }
}

fn rows<'a>(body: &'a Json, key: &str) -> (result: Result<&'a Vec<Json>, LlmError>)
    ensures
        match result {
            Ok(rows) => rows_of(body@, key@) == Ok::<_, LlmErrorView>(rows.deep_view()),
            Err(error) => rows_of(body@, key@) == Err::<Seq<JsonView>, _>(error@),
        },
{
    match body.get(key) {
        Some(Json::Array(rows)) => Ok(rows),
        _ => Err(
            error::internal(
                &text::cat3("the model directory's page has no ", &text::debug(key), " array"),
            ),
        ),
    }
}

pub open spec fn no_id(key: Seq<char>) -> LlmErrorView {
    error::internal_view(
        "a listed model has no "@ + text::debug_text(key)
            + ", so nothing could be requested of it"@,
    )
}

fn required_id(row: &Json, key: &str) -> (result: Result<String, LlmError>)
    ensures
        match json::str_at(row@, key@) {
            Some(id) => result matches Ok(found) && found@ == id,
            None => result matches Err(found) && found@ == no_id(key@),
        },
{
    match row.str_at(key) {
        Some(id) => Ok(id.to_owned()),
        None => Err(
            error::internal(
                &text::cat3(
                    "a listed model has no ",
                    &text::debug(key),
                    ", so nothing could be requested of it",
                ),
            ),
        ),
    }
}

/// A text member that is not empty.
pub open spec fn text_of(row: JsonView, key: Seq<char>) -> Option<Seq<char>> {
    match json::str_at(row, key) {
        Some(s) => if s.len() == 0 {
            None
        } else {
            Some(s)
        },
        None => None,
    }
}

fn find_text(row: &Json, key: &str) -> (result: Option<String>)
    ensures
        result.deep_view() == text_of(row@, key@),
{
    match row.str_at(key) {
        Some(s) => if text::is_empty(s) {
            None
        } else {
            Some(s.to_owned())
        },
        None => None,
    }
}

} // verus!
