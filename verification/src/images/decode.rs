//! Image responses and tasks as each route's wire reports them.

use crate::images::error::{self, ImageError, ImageErrorView};
use crate::json::{self, Json, JsonView};
use crate::protocol::{
    ImageApi, ImageArtifact, ImageArtifactView, ImageData, ImageDataView, ImageOutcome,
    ImageResponse, ImageResponseView, ImageRouteConfig, ImageTaskRef, ImageTaskSnapshot,
    ImageTaskSnapshotView, LlmError, LlmErrorView, ProviderProfile,
};
use crate::text;
use crate::transport::{self, HttpRequest, HttpRequestView, HttpResponse};
use crate::views;
use vstd::prelude::*;

verus! {

broadcast use {crate::views::group_views, crate::json::group_json};

/// The text, or else the other one.
pub open spec fn text_or(text: Option<Seq<char>>, other: Seq<char>) -> Seq<char> {
    match text {
        Some(text) => text,
        None => other,
    }
}

fn owned_or(text: Option<&str>, other: &str) -> (result: String)
    ensures
        result@ == text_or(text.deep_view(), other@),
{
    match text {
        Some(text) => text.to_owned(),
        None => other.to_owned(),
    }
}

/// The error that a status stands for.
pub open spec fn status_error(status: u16, message: Seq<char>) -> LlmErrorView {
    match status {
        400 | 422 => LlmErrorView::InvalidRequest { message },
        401 => LlmErrorView::Authentication { message },
        403 => LlmErrorView::PermissionDenied { message },
        404 => LlmErrorView::ModelUnavailable { message },
        429 => LlmErrorView::RateLimited { message, retry_after: None },
        _ => LlmErrorView::ProviderInternal { message },
    }
}

/// The JSON body of a response with `status`, or the error that it reports. What
/// is no JSON counts as null where the status already says that the call failed.
pub open spec fn response_json(status: u16, parsed: Result<JsonView, Seq<char>>) -> Result<
    JsonView,
    ImageErrorView,
> {
    if transport::is_success(status) {
        match parsed {
            Err(error) => Err(ImageErrorView::InvalidResponse(error)),
            Ok(body) => {
                let code = match json::member2(body, "base_resp"@, "status_code"@) {
                    Some(code) => json::i64_of(code),
                    None => None,
                };
                if code is Some && code != Some(0i64) {
                    Err(
                        ImageErrorView::Llm(
                            LlmErrorView::ProviderInternal {
                                message: text_or(
                                    json::str_in(
                                        json::member2(body, "base_resp"@, "status_msg"@),
                                    ),
                                    "image provider error"@,
                                ),
                            },
                        ),
                    )
                } else if json::member(body, "code"@) is Some && json::member(body, "data"@) is None
                    && json::member(body, "output"@) is None {
                    Err(
                        ImageErrorView::Llm(
                            LlmErrorView::ProviderInternal {
                                message: text_or(
                                    json::str_in(json::member(body, "message"@)),
                                    "image provider error"@,
                                ),
                            },
                        ),
                    )
                } else {
                    Ok(body)
                }
            },
        }
    } else {
        let body = match parsed {
            Ok(body) => body,
            Err(_) => JsonView::Null,
        };
        let said = match json::member2(body, "error"@, "message"@) {
            Some(message) => Some(message),
            None => json::member(body, "message"@),
        };
        let message = text_or(json::str_in(said), "image provider request failed"@);
        Err(
            ImageErrorView::Llm(
                status_error(
                    status,
                    "HTTP "@ + text::decimal_text(status as nat) + ": "@ + message,
                ),
            ),
        )
    }
}

/// What the parsed body of a response comes to.
pub fn check_response(status: u16, parsed: Result<Json, String>) -> (result: Result<
    Json,
    ImageError,
>)
    ensures
        views::res(result) == response_json(status, views::res(parsed)),
{
    let ok = 200 <= status && status < 300;
    let body = match parsed {
        Ok(body) => body,
        Err(error) => {
            if ok {
                return Err(ImageError::InvalidResponse(error));
            }
            Json::Null
        },
    };
    if ok {
        if let Some(code) = body.get2("base_resp", "status_code") {
            if let Some(code) = code.as_i64() {
                if code != 0 {
                    let message = owned_or(
                        json::text_in(body.get2("base_resp", "status_msg")),
                        "image provider error",
                    );
                    return Err(ImageError::Llm(LlmError::ProviderInternal { message }));
                }
            }
        }
        if body.get("code").is_some() && body.get("data").is_none() && body.get("output").is_none() {
            let message = owned_or(json::text_in(body.get("message")), "image provider error");
            return Err(ImageError::Llm(LlmError::ProviderInternal { message }));
        }
        return Ok(body);
    }
    let said = match body.get2("error", "message") {
        Some(message) => Some(message),
        None => body.get("message"),
    };
    let message = owned_or(json::text_in(said), "image provider request failed");
    let message = text::cat4("HTTP ", &text::decimal(status as u64), ": ", &message);
    let error = match status {
        400 | 422 => LlmError::InvalidRequest { message },
        401 => LlmError::Authentication { message },
        403 => LlmError::PermissionDenied { message },
        404 => LlmError::ModelUnavailable { message },
        429 => LlmError::RateLimited { message, retry_after: None },
        _ => LlmError::ProviderInternal { message },
    };
    Err(ImageError::Llm(error))
}

/// The JSON body of a response, or the error that it reports.
pub fn parse_json(resp: &HttpResponse) -> (result: Result<Json, ImageError>)
    ensures
        views::res(result) == response_json(resp.status, json::parsed(resp.body@)),
{
    check_response(resp.status, json::parse(resp.body.as_slice()))
}

pub open spec fn nonempty(text: Option<Seq<char>>) -> Option<Seq<char>> {
    match text {
        Some(text) => if text.len() > 0 {
            Some(text)
        } else {
            None
        },
        None => None,
    }
}

fn nonempty_text<'a>(text: Option<&'a str>) -> (result: Option<&'a str>)
    ensures
        result.deep_view() == nonempty(text.deep_view()),
{
    match text {
        Some(text) => if text.is_empty() {
            None
        } else {
            Some(text)
        },
        None => None,
    }
}

/// An image that is given by link or by its Base64 data.
pub open spec fn artifact(item: JsonView) -> Option<ImageArtifactView> {
    let link = nonempty(json::str_in(json::member(item, "url"@)));
    let inline = nonempty(json::str_in(json::either(item, "b64_json"@, "base64"@)));
    let data = match link {
        Some(url) => Some(ImageDataView::Url { url }),
        None => match inline {
            Some(data) => Some(ImageDataView::Base64 { data }),
            None => None,
        },
    };
    match data {
        None => None,
        Some(data) => Some(
            ImageArtifactView {
                data,
                media_type: json::str_in(json::either(item, "media_type"@, "mime_type"@)),
                revised_prompt: json::str_in(json::member(item, "revised_prompt"@)),
                expires_at: None,
            },
        ),
    }
}

fn image_artifact(item: &Json) -> (result: Option<ImageArtifact>)
    ensures
        result.deep_view() == artifact(item@),
{
    let data = match nonempty_text(json::text_in(item.get("url"))) {
        Some(url) => ImageData::Url { url: url.to_owned() },
        None => match nonempty_text(json::text_in(item.get_either("b64_json", "base64"))) {
            Some(data) => ImageData::Base64 { data: data.to_owned() },
            None => return None,
        },
    };
    Some(
        ImageArtifact {
            data,
            media_type: json::owned_text_in(item.get_either("media_type", "mime_type")),
            revised_prompt: json::owned_text_in(item.get("revised_prompt")),
            expires_at: None,
        },
    )
}

/// The images among the items from the `i`th on, after those before.
pub open spec fn artifacts(
    items: Seq<JsonView>,
    i: int,
    before: Seq<ImageArtifactView>,
) -> Seq<ImageArtifactView>
    decreases items.len() - i,
{
    if i < 0 || i >= items.len() {
        before
    } else {
        artifacts(
            items,
            i + 1,
            match artifact(items[i]) {
                Some(image) => before.push(image),
                None => before,
            },
        )
    }
}

fn add_artifacts(items: Option<&Json>, images: &mut Vec<ImageArtifact>)
    ensures
        final(images).deep_view() == artifacts(
            json::items_in(items.deep_view()),
            0,
            old(images).deep_view(),
        ),
{
    let ghost wanted = artifacts(json::items_in(items.deep_view()), 0, images.deep_view());
    let items = match items {
        Some(Json::Array(items)) => items,
        _ => return ,
    };
    let mut i: usize = 0;
    while i < items.len()
        invariant
            i <= items.len(),
            wanted == artifacts(items.deep_view(), i as int, images.deep_view()),
        decreases items.len() - i,
    {
        assert(items.deep_view()[i as int] == items@[i as int]@);
        if let Some(image) = image_artifact(&items[i]) {
            images.push(image);
        }
        i = i + 1;
    }
}

/// A bare link or bare data with a media type.
pub open spec fn plain(data: ImageDataView, media_type: Option<Seq<char>>) -> ImageArtifactView {
    ImageArtifactView { data, media_type, revised_prompt: None, expires_at: None }
}

/// The texts among the items as links, or as data of a media type.
pub open spec fn plain_artifacts(
    items: Seq<JsonView>,
    media_type: Option<Seq<char>>,
    i: int,
    before: Seq<ImageArtifactView>,
) -> Seq<ImageArtifactView>
    decreases items.len() - i,
{
    if i < 0 || i >= items.len() {
        before
    } else {
        plain_artifacts(
            items,
            media_type,
            i + 1,
            match json::str_of(items[i]) {
                Some(text) => before.push(
                    plain(
                        match media_type {
                            Some(_) => ImageDataView::Base64 { data: text },
                            None => ImageDataView::Url { url: text },
                        },
                        media_type,
                    ),
                ),
                None => before,
            },
        )
    }
}

fn add_plain(items: Option<&Json>, jpeg: bool, images: &mut Vec<ImageArtifact>)
    ensures
        final(images).deep_view() == plain_artifacts(
            json::items_in(items.deep_view()),
            if jpeg {
                Some("image/jpeg"@)
            } else {
                None
            },
            0,
            old(images).deep_view(),
        ),
{
    let ghost media_type = if jpeg {
        Some("image/jpeg"@)
    } else {
        None
    };
    let ghost wanted = plain_artifacts(
        json::items_in(items.deep_view()),
        media_type,
        0,
        images.deep_view(),
    );
    let items = match items {
        Some(Json::Array(items)) => items,
        _ => return ,
    };
    let mut i: usize = 0;
    while i < items.len()
        invariant
            i <= items.len(),
            media_type == (if jpeg {
                Some("image/jpeg"@)
            } else {
                None
            }),
            wanted == plain_artifacts(items.deep_view(), media_type, i as int, images.deep_view()),
        decreases items.len() - i,
    {
        assert(items.deep_view()[i as int] == items@[i as int]@);
        if let Some(s) = items[i].as_str() {
            let (data, media_type) = if jpeg {
                (ImageData::Base64 { data: s.to_owned() }, Some("image/jpeg".to_owned()))
            } else {
                (ImageData::Url { url: s.to_owned() }, None)
            };
            images.push(ImageArtifact { data, media_type, revised_prompt: None, expires_at: None });
        }
        i = i + 1;
    }
}

/// What a Gemini part adds: its inline image and its text; thoughts add nothing.
pub open spec fn gemini_read(
    parts: Seq<JsonView>,
    i: int,
    images: Seq<ImageArtifactView>,
    said: Option<Seq<char>>,
) -> (Seq<ImageArtifactView>, Option<Seq<char>>)
    decreases parts.len() - i,
{
    if i < 0 || i >= parts.len() {
        (images, said)
    } else {
        let part = parts[i];
        if json::bool_of(json::at(part, "thought"@)) == Some(true) {
            gemini_read(parts, i + 1, images, said)
        } else {
            let data = json::str_in(json::member2(part, "inlineData"@, "data"@));
            let more = match data {
                Some(data) => images.push(
                    plain(
                        ImageDataView::Base64 { data },
                        json::str_in(json::member2(part, "inlineData"@, "mimeType"@)),
                    ),
                ),
                None => images,
            };
            let heard = match json::str_in(json::member(part, "text"@)) {
                Some(text) => Some(text_or(said, seq![]) + text),
                None => said,
            };
            gemini_read(parts, i + 1, more, heard)
        }
    }
}

fn read_gemini(parts: &Vec<Json>) -> (result: (Vec<ImageArtifact>, Option<String>))
    ensures
        (result.0.deep_view(), result.1.deep_view()) == gemini_read(
            parts.deep_view(),
            0,
            seq![],
            None,
        ),
{
    let mut images: Vec<ImageArtifact> = Vec::new();
    let mut said: Option<String> = None;
    assert(images.deep_view() =~= seq![]);
    let mut i: usize = 0;
    while i < parts.len()
        invariant
            i <= parts.len(),
            gemini_read(parts.deep_view(), 0, seq![], None) == gemini_read(
                parts.deep_view(),
                i as int,
                images.deep_view(),
                said.deep_view(),
            ),
        decreases parts.len() - i,
    {
        assert(parts.deep_view()[i as int] == parts@[i as int]@);
        let part = &parts[i];
        i = i + 1;
        let thought = match part.get("thought") {
            Some(flag) => flag.as_bool(),
            None => None,
        };
        if let Some(true) = thought {
            continue;
        }
        if let Some(data) = json::text_in(part.get2("inlineData", "data")) {
            images.push(
                ImageArtifact {
                    data: ImageData::Base64 { data: data.to_owned() },
                    media_type: json::owned_text_in(part.get2("inlineData", "mimeType")),
                    revised_prompt: None,
                    expires_at: None,
                },
            );
        }
        if let Some(more) = json::text_in(part.get("text")) {
            let heard = match &said {
                Some(earlier) => text::cat2(earlier, more),
                None => text::cat2("", more),
            };
            proof {
                reveal_strlit("");
                assert(""@ =~= seq![]);
            }
            said = Some(heard);
        }
    }
    (images, said)
}

/// What the body of a response holds, before it is judged.
pub struct Found {
    pub images: Seq<ImageArtifactView>,
    pub text: Option<Seq<char>>,
    pub blocked: bool,
    pub partial: bool,
}

pub open spec fn blocking_finish(finish: Option<Seq<char>>) -> bool {
    finish == Some("SAFETY"@) || finish == Some("IMAGE_SAFETY"@) || finish == Some(
        "PROHIBITED_CONTENT"@,
    )
}

/// The image links in the choices of the DashScope family.
pub open spec fn choice_images(
    choices: Seq<JsonView>,
    i: int,
    before: Seq<ImageArtifactView>,
) -> Seq<ImageArtifactView>
    decreases choices.len() - i,
{
    if i < 0 || i >= choices.len() {
        before
    } else {
        choice_images(
            choices,
            i + 1,
            content_images(
                json::items_in(json::member2(choices[i], "message"@, "content"@)),
                0,
                before,
            ),
        )
    }
}

pub open spec fn content_images(
    items: Seq<JsonView>,
    i: int,
    before: Seq<ImageArtifactView>,
) -> Seq<ImageArtifactView>
    decreases items.len() - i,
{
    if i < 0 || i >= items.len() {
        before
    } else {
        let link = json::str_in(json::member(items[i], "image"@));
        content_images(
            items,
            i + 1,
            if json::str_at(items[i], "type"@) == Some("image"@) && link is Some {
                before.push(plain(ImageDataView::Url { url: link->0 }, Some("image/png"@)))
            } else {
                before
            },
        )
    }
}

fn add_content_images(items: Option<&Json>, images: &mut Vec<ImageArtifact>)
    ensures
        final(images).deep_view() == content_images(
            json::items_in(items.deep_view()),
            0,
            old(images).deep_view(),
        ),
{
    let ghost wanted = content_images(json::items_in(items.deep_view()), 0, images.deep_view());
    let items = match items {
        Some(Json::Array(items)) => items,
        _ => return ,
    };
    let mut i: usize = 0;
    while i < items.len()
        invariant
            i <= items.len(),
            wanted == content_images(items.deep_view(), i as int, images.deep_view()),
        decreases items.len() - i,
    {
        assert(items.deep_view()[i as int] == items@[i as int]@);
        let is_image = match items[i].str_at("type") {
            Some(kind) => text::same(kind, "image"),
            None => false,
        };
        if is_image {
            if let Some(url) = json::text_in(items[i].get("image")) {
                images.push(
                    ImageArtifact {
                        data: ImageData::Url { url: url.to_owned() },
                        media_type: Some("image/png".to_owned()),
                        revised_prompt: None,
                        expires_at: None,
                    },
                );
            }
        }
        i = i + 1;
    }
}

fn add_choice_images(body: &Json, images: &mut Vec<ImageArtifact>)
    ensures
        final(images).deep_view() == choice_images(
            json::items_in(json::member2(body@, "output"@, "choices"@)),
            0,
            old(images).deep_view(),
        ),
{
    let ghost wanted = choice_images(
        json::items_in(json::member2(body@, "output"@, "choices"@)),
        0,
        images.deep_view(),
    );
    let choices = match body.get2("output", "choices") {
        Some(Json::Array(choices)) => choices,
        _ => return ,
    };
    let mut i: usize = 0;
    while i < choices.len()
        invariant
            i <= choices.len(),
            wanted == choice_images(choices.deep_view(), i as int, images.deep_view()),
        decreases choices.len() - i,
    {
        assert(choices.deep_view()[i as int] == choices@[i as int]@);
        add_content_images(choices[i].get2("message", "content"), images);
        i = i + 1;
    }
}

pub open spec fn found(api: ImageApi, body: JsonView) -> Found {
    match api {
        ImageApi::Gemini => {
            let refused = json::member2(body, "promptFeedback"@, "blockReason"@) is Some;
            match json::element(json::at(body, "candidates"@), 0) {
                None => Found { images: seq![], text: None, blocked: refused, partial: false },
                Some(candidate) => {
                    let read = gemini_read(
                        json::items_in(json::member2(candidate, "content"@, "parts"@)),
                        0,
                        seq![],
                        None,
                    );
                    Found {
                        images: read.0,
                        text: read.1,
                        blocked: refused || blocking_finish(
                            json::str_at(candidate, "finishReason"@),
                        ),
                        partial: false,
                    }
                },
            }
        },
        ImageApi::Minimax => {
            let links = plain_artifacts(
                json::items_in(json::member2(body, "data"@, "image_urls"@)),
                None,
                0,
                seq![],
            );
            let failed = json::str_in(json::member2(body, "metadata"@, "failed_count"@));
            Found {
                images: plain_artifacts(
                    json::items_in(json::member2(body, "data"@, "image_base64"@)),
                    Some("image/jpeg"@),
                    0,
                    links,
                ),
                text: None,
                blocked: false,
                partial: failed is Some && failed != Some("0"@),
            }
        },
        ImageApi::Qwen => Found {
            images: choice_images(
                json::items_in(json::member2(body, "output"@, "choices"@)),
                0,
                artifacts(json::items_in(json::member(body, "data"@)), 0, seq![]),
            ),
            text: None,
            blocked: false,
            partial: false,
        },
        ImageApi::Wan => Found {
            images: choice_images(
                json::items_in(json::member2(body, "output"@, "choices"@)),
                0,
                seq![],
            ),
            text: None,
            blocked: false,
            partial: false,
        },
        _ => Found {
            images: artifacts(json::items_in(json::member(body, "data"@)), 0, seq![]),
            text: None,
            blocked: false,
            partial: false,
        },
    }
}

/// The response to a request for `request_model` on the profile.
pub open spec fn decoded(
    api: ImageApi,
    body: JsonView,
    request_model: Seq<char>,
    profile: ProviderProfile,
) -> Result<ImageResponseView, ImageErrorView> {
    let f = found(api, body);
    if f.images.len() == 0 && !f.blocked && f.text is None {
        Err(ImageErrorView::InvalidResponse("provider returned no image, text, or refusal"@))
    } else {
        Ok(
            ImageResponseView {
                outcome: if f.blocked {
                    ImageOutcome::Blocked
                } else if f.partial {
                    ImageOutcome::Partial
                } else if f.images.len() == 0 {
                    ImageOutcome::NoImage
                } else {
                    ImageOutcome::Complete
                },
                images: f.images,
                text: f.text,
                requested_model: request_model,
                reported_model: json::str_in(json::either(body, "model"@, "modelVersion"@)),
                executed_profile: profile.profile_name@,
                provider_id: profile.provider_id@,
                request_id: json::str_in(json::either(body, "request_id"@, "id"@)),
                usage: json::either(body, "usage"@, "usageMetadata"@),
            },
        )
    }
}

fn same_some(a: Option<&str>, b: &str) -> (result: bool)
    ensures
        result == (a.deep_view() == Some(b@)),
{
    match a {
        Some(a) => text::same(a, b),
        None => false,
    }
}

pub fn decode(api: ImageApi, body: &Json, request_model: &str, profile: &ProviderProfile) -> (result:
    Result<ImageResponse, ImageError>)
    ensures
        views::res(result) == decoded(api, body@, request_model@, *profile),
{
    let mut images: Vec<ImageArtifact> = Vec::new();
    let mut said: Option<String> = None;
    let mut blocked = false;
    let mut partial = false;
    assert(images.deep_view() =~= seq![]);
    match api {
        ImageApi::Gemini => {
            blocked = body.get2("promptFeedback", "blockReason").is_some();
            let candidate = match body.get("candidates") {
                Some(candidates) => candidates.get_index(0),
                None => None,
            };
            if let Some(candidate) = candidate {
                let finish = candidate.str_at("finishReason");
                blocked = blocked || same_some(finish, "SAFETY") || same_some(
                    finish,
                    "IMAGE_SAFETY",
                ) || same_some(finish, "PROHIBITED_CONTENT");
                if let Some(Json::Array(parts)) = candidate.get2("content", "parts") {
                    let read = read_gemini(parts);
                    images = read.0;
                    said = read.1;
                }
            }
        },
        ImageApi::Minimax => {
            add_plain(body.get2("data", "image_urls"), false, &mut images);
            add_plain(body.get2("data", "image_base64"), true, &mut images);
            let failed = json::text_in(body.get2("metadata", "failed_count"));
            partial = failed.is_some() && !same_some(failed, "0");
        },
        ImageApi::Qwen => {
            add_artifacts(body.get("data"), &mut images);
            add_choice_images(body, &mut images);
        },
        ImageApi::Wan => {
            add_choice_images(body, &mut images);
        },
        _ => {
            add_artifacts(body.get("data"), &mut images);
        },
    }
    if images.len() == 0 && !blocked && said.is_none() {
        return Err(
            ImageError::InvalidResponse("provider returned no image, text, or refusal".to_owned()),
        );
    }
    let outcome = if blocked {
        ImageOutcome::Blocked
    } else if partial {
        ImageOutcome::Partial
    } else if images.len() == 0 {
        ImageOutcome::NoImage
    } else {
        ImageOutcome::Complete
    };
    Ok(
        ImageResponse {
            outcome,
            images,
            text: said,
            requested_model: request_model.to_owned(),
            reported_model: json::owned_text_in(body.get_either("model", "modelVersion")),
            executed_profile: profile.profile_name.clone(),
            provider_id: profile.provider_id.clone(),
            request_id: json::owned_text_in(body.get_either("request_id", "id")),
            usage: json::dup_some(body.get_either("usage", "usageMetadata")),
        },
    )
}

/// The identifier under which a provider accepted a task.
pub open spec fn accepted_task(api: ImageApi, body: JsonView) -> Result<Seq<char>, ImageErrorView> {
    let id = match api {
        ImageApi::Qwen | ImageApi::Wan => Some(json::member2(body, "output"@, "task_id"@)),
        ImageApi::Zai => Some(json::member(body, "id"@)),
        _ => None,
    };
    match id {
        None => Err(error::unsupported_view("image route has no task response"@)),
        Some(id) => match nonempty(json::str_in(id)) {
            Some(id) => Ok(id),
            None => Err(ImageErrorView::InvalidResponse("provider accepted no task ID"@)),
        },
    }
}

pub fn task_id(api: ImageApi, body: &Json) -> (result: Result<String, ImageError>)
    ensures
        views::res(result) == accepted_task(api, body@),
{
    let id = match api {
        ImageApi::Qwen | ImageApi::Wan => body.get2("output", "task_id"),
        ImageApi::Zai => body.get("id"),
        _ => return Err(error::unsupported("image route has no task response")),
    };
    match nonempty_text(json::text_in(id)) {
        Some(id) => Ok(id.to_owned()),
        None => Err(ImageError::InvalidResponse("provider accepted no task ID".to_owned())),
    }
}

/// Letters, digits, `-` and `_`.
pub open spec fn plain_id(id: Seq<char>) -> bool {
    forall|i: int|
        0 <= i < id.len() ==> (text::alphanumeric(#[trigger] id[i]) || id[i] == '-' || id[i] == '_')
}

fn is_plain_id(id: &str) -> (result: bool)
    ensures
        result == plain_id(id@),
{
    let cs = text::chars(id);
    let mut i: usize = 0;
    while i < cs.len()
        invariant
            i <= cs.len(),
            cs@ == id@,
            forall|j: int|
                0 <= j < i ==> (text::alphanumeric(#[trigger] cs@[j]) || cs@[j] == '-' || cs@[j]
                    == '_'),
        decreases cs.len() - i,
    {
        if !(text::is_alphanumeric(cs[i]) || cs[i] == '-' || cs[i] == '_') {
            return false;
        }
        i = i + 1;
    }
    true
}

/// The request for the state of a task.
pub open spec fn task_request(route: ImageRouteConfig, task_id: Seq<char>) -> Result<
    HttpRequestView,
    ImageErrorView,
> {
    let url = match route.api {
        ImageApi::Qwen | ImageApi::Wan => match route.task_base_url {
            Some(root) => Ok(text::without_trailing(root@, '/') + "/tasks/"@ + task_id),
            None => Err(error::unsupported_view("task API root missing"@)),
        },
        ImageApi::Zai => Ok(
            text::without_trailing(route.base_url@, '/') + "/async-result/"@ + task_id,
        ),
        _ => Err(error::unsupported_view("image route has no task query endpoint"@)),
    };
    if !plain_id(task_id) {
        Err(error::invalid_view("invalid provider task ID"@))
    } else {
        match url {
            Err(error) => Err(error),
            Ok(url) => Ok(
                HttpRequestView { method: "GET"@, url, headers: seq![], body: seq![], timeout: None },
            ),
        }
    }
}

pub fn task_query(route: &ImageRouteConfig, task_id: &str) -> (result: Result<
    HttpRequest,
    ImageError,
>)
    ensures
        views::res(result) == task_request(*route, task_id@),
{
    if !is_plain_id(task_id) {
        return Err(error::invalid("invalid provider task ID"));
    }
    let url = match route.api {
        ImageApi::Qwen | ImageApi::Wan => match &route.task_base_url {
            Some(root) => text::cat3(&text::trim_end_char(root, '/'), "/tasks/", task_id),
            None => return Err(error::unsupported("task API root missing")),
        },
        ImageApi::Zai => text::cat3(
            &text::trim_end_char(&route.base_url, '/'),
            "/async-result/",
            task_id,
        ),
        _ => return Err(error::unsupported("image route has no task query endpoint")),
    };
    let headers: Vec<(String, String)> = Vec::new();
    assert(headers.deep_view() =~= seq![]);
    let body: Vec<u8> = Vec::new();
    Ok(HttpRequest { method: "GET".to_owned(), url, headers, body, timeout: None })
}

/// The body of a finished Z.AI task with its images under `data`.
pub open spec fn task_result_body(body: JsonView) -> JsonView {
    let data = match json::either(body, "image_result"@, "data"@) {
        Some(JsonView::Array(items)) => JsonView::Array(items),
        Some(JsonView::Object(map)) => match json::either(
            JsonView::Object(map),
            "results"@,
            "data"@,
        ) {
            Some(results) => results,
            None => JsonView::Array(seq![JsonView::Object(map)]),
        },
        _ => JsonView::Array(seq![]),
    };
    match body {
        JsonView::Object(entries) => JsonView::Object(json::put(entries, "data"@, data)),
        _ => JsonView::Object(json::put(seq![], "data"@, data)),
    }
}

fn result_body(body: &Json) -> (result: Json)
    ensures
        result@ == task_result_body(body@),
{
    let result = body.get_either("image_result", "data");
    let data = match result {
        Some(Json::Array(items)) => Json::Array(json::dup_items(items)),
        Some(Json::Object(map)) => {
            let found = match json::find(map, "results") {
                Some(results) => Some(results),
                None => json::find(map, "data"),
            };
            match found {
                Some(results) => results.dup(),
                None => json::array1(Json::Object(json::dup_entries(map))),
            }
        },
        _ => {
            let none: Vec<Json> = Vec::new();
            assert(none.deep_view() =~= seq![]);
            Json::Array(none)
        },
    };
    let mut entries = match body {
        Json::Object(entries) => json::dup_entries(entries),
        _ => json::fields(),
    };
    json::set(&mut entries, "data", data);
    Json::Object(entries)
}

/// The state of a task.
pub open spec fn task_state(
    api: ImageApi,
    body: JsonView,
    task: ImageTaskRef,
    profile: ProviderProfile,
) -> Result<ImageTaskSnapshotView, ImageErrorView> {
    let status = match api {
        ImageApi::Qwen | ImageApi::Wan => Some(json::member2(body, "output"@, "task_status"@)),
        ImageApi::Zai => Some(json::member(body, "task_status"@)),
        _ => None,
    };
    match status {
        None => Err(error::unsupported_view("image route has no task decoder"@)),
        Some(status) => match json::str_in(status) {
            None => Err(ImageErrorView::InvalidResponse("task status missing"@)),
            Some(status) => {
                let name = text::upper(status);
                if name == "PENDING"@ {
                    Ok(ImageTaskSnapshotView::Pending)
                } else if name == "RUNNING"@ || name == "PROCESSING"@ {
                    Ok(ImageTaskSnapshotView::Running)
                } else if name == "SUCCEEDED"@ || name == "SUCCESS"@ {
                    let data = if api == ImageApi::Zai {
                        task_result_body(body)
                    } else {
                        body
                    };
                    match decoded(api, data, task.request_model@, profile) {
                        Ok(response) => Ok(ImageTaskSnapshotView::Succeeded { response }),
                        Err(error) => Err(error),
                    }
                } else if name == "FAILED"@ || name == "FAIL"@ {
                    let said = match json::member(body, "message"@) {
                        Some(message) => Some(message),
                        None => json::member2(body, "output"@, "message"@),
                    };
                    Ok(
                        ImageTaskSnapshotView::Failed {
                            message: text_or(json::str_in(said), "provider task failed"@),
                        },
                    )
                } else if name == "CANCELED"@ || name == "CANCELLED"@ {
                    Ok(ImageTaskSnapshotView::Cancelled)
                } else if name == "EXPIRED"@ {
                    Ok(ImageTaskSnapshotView::Expired)
                } else {
                    Ok(ImageTaskSnapshotView::Unknown { raw_status: status })
                }
            },
        },
    }
}

pub fn decode_task(api: ImageApi, body: &Json, task: &ImageTaskRef, profile: &ProviderProfile) -> (result:
    Result<ImageTaskSnapshot, ImageError>)
    ensures
        views::res(result) == task_state(api, body@, *task, *profile),
{
    let status = match api {
        ImageApi::Qwen | ImageApi::Wan => body.get2("output", "task_status"),
        ImageApi::Zai => body.get("task_status"),
        _ => return Err(error::unsupported("image route has no task decoder")),
    };
    let status = match json::text_in(status) {
        Some(status) => status,
        None => return Err(ImageError::InvalidResponse("task status missing".to_owned())),
    };
    let name = text::to_upper(status);
    if text::same(&name, "PENDING") {
        return Ok(ImageTaskSnapshot::Pending);
    }
    if text::same(&name, "RUNNING") || text::same(&name, "PROCESSING") {
        return Ok(ImageTaskSnapshot::Running);
    }
    if text::same(&name, "SUCCEEDED") || text::same(&name, "SUCCESS") {
        let response = if api == ImageApi::Zai {
            decode(api, &result_body(body), &task.request_model, profile)?
        } else {
            decode(api, body, &task.request_model, profile)?
        };
        return Ok(ImageTaskSnapshot::Succeeded { response });
    }
    if text::same(&name, "FAILED") || text::same(&name, "FAIL") {
        let said = match body.get("message") {
            Some(message) => Some(message),
            None => body.get2("output", "message"),
        };
        let message = owned_or(json::text_in(said), "provider task failed");
        return Ok(ImageTaskSnapshot::Failed { message });
    }
    if text::same(&name, "CANCELED") || text::same(&name, "CANCELLED") {
        return Ok(ImageTaskSnapshot::Cancelled);
    }
    if text::same(&name, "EXPIRED") {
        return Ok(ImageTaskSnapshot::Expired);
    }
    Ok(ImageTaskSnapshot::Unknown { raw_status: status.to_owned() })
}

} // verus!
