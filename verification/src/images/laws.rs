//! What the image routes keep of a request and of a reply.

use crate::images::decode;
use crate::encoding;
use crate::images::encode;
use crate::images::service;
use crate::images::validate;
use crate::json::{self, Entries, JsonView};
use crate::protocol::{
    ImageApi, ImageArtifactView, ImageDataView, ImageEditRequest, ImageFormat, ImageInput,
    ImageModelProfile, ImageOutcome, ImageQuality, ImageRequest, ImageRouteConfig, ImageSize,
    ImageTaskRef, ImageTaskSnapshotView, ProviderProfile, Region,
};
use crate::images::error::ImageErrorView;
use crate::text;
use vstd::prelude::*;

verus! {

broadcast use {crate::views::group_views, crate::json::group_json};

/// The parts of the first candidate of a Gemini reply.
pub open spec fn parts_in(body: JsonView) -> Seq<JsonView> {
    match json::element(json::at(body, "candidates"@), 0) {
        Some(candidate) => json::items_in(json::member2(candidate, "content"@, "parts"@)),
        None => Seq::empty(),
    }
}

/// A part that is no thought.
pub open spec fn spoken(part: JsonView) -> bool {
    json::member(part, "thought"@) != Some(JsonView::Bool(true))
}

/// A part that is no thought and holds the data of an image.
pub open spec fn pictured(part: JsonView) -> bool {
    spoken(part) && json::str_in(json::member2(part, "inlineData"@, "data"@)) is Some
}

/// The parts among the first `n` that hold an image.
pub open spec fn pictures(parts: Seq<JsonView>, n: int) -> Seq<JsonView>
    decreases n,
{
    if n <= 0 {
        Seq::empty()
    } else if pictured(parts[n - 1]) {
        pictures(parts, n - 1).push(parts[n - 1])
    } else {
        pictures(parts, n - 1)
    }
}

/// The texts of the first `n` parts that are no thoughts, put together.
pub open spec fn words(parts: Seq<JsonView>, n: int) -> Option<Seq<char>>
    decreases n,
{
    if n <= 0 {
        None
    } else {
        match json::str_at(parts[n - 1], "text"@) {
            Some(text) => if !spoken(parts[n - 1]) {
                words(parts, n - 1)
            } else {
                match words(parts, n - 1) {
                    Some(before) => Some(before + text),
                    None => Some(text),
                }
            },
            None => words(parts, n - 1),
        }
    }
}

/// An image is the one that a part holds.
pub open spec fn depicts(part: JsonView, image: ImageArtifactView) -> bool {
    &&& image.data matches ImageDataView::Base64 { data } && Some(data) == json::str_in(
        json::member2(part, "inlineData"@, "data"@),
    )
    &&& image.media_type == json::str_in(json::member2(part, "inlineData"@, "mimeType"@))
}

pub open spec fn all_depicted(parts: Seq<JsonView>, images: Seq<ImageArtifactView>) -> bool {
    parts.len() == images.len() && forall|i: int|
        0 <= i < images.len() ==> depicts(parts[i], #[trigger] images[i])
}

#[verifier::spinoff_prover]
proof fn lemma_gemini(
    parts: Seq<JsonView>,
    i: int,
    images: Seq<ImageArtifactView>,
    said: Option<Seq<char>>,
)
    requires
        0 <= i <= parts.len(),
        all_depicted(pictures(parts, i), images),
        said == words(parts, i),
    ensures
        all_depicted(
            pictures(parts, parts.len() as int),
            decode::gemini_read(parts, i, images, said).0,
        ),
        decode::gemini_read(parts, i, images, said).1 == words(parts, parts.len() as int),
    decreases parts.len() - i,
{
    lemma_names();
    if i < parts.len() {
        let part = parts[i];
        assert(spoken(part) <==> json::bool_of(json::at(part, "thought"@)) != Some(true));
        if !spoken(part) {
            lemma_gemini(parts, i + 1, images, said);
        } else {
            let more = match json::str_in(json::member2(part, "inlineData"@, "data"@)) {
                Some(data) => images.push(
                    decode::plain(
                        ImageDataView::Base64 { data },
                        json::str_in(json::member2(part, "inlineData"@, "mimeType"@)),
                    ),
                ),
                None => images,
            };
            let heard = match json::str_in(json::member(part, "text"@)) {
                Some(text) => Some(decode::text_or(said, seq![]) + text),
                None => said,
            };
            if pictured(part) {
                assert(depicts(part, more.last()));
            }
            if let Some(text) = json::str_at(part, "text"@) {
                assert(seq![] + text =~= text);
            }
            assert(heard == words(parts, i + 1));
            lemma_gemini(parts, i + 1, more, heard);
        }
    }
}

/// A Gemini reply gives one image for each part that is no thought and holds image data,
/// in order and with its data and media type, and the text of the parts that are no
/// thoughts. It is blocked if and only if the prompt was refused or the candidate was
/// stopped for its content.
pub proof fn a_gemini_reply_gives_its_pictures(
    body: JsonView,
    model: Seq<char>,
    profile: ProviderProfile,
)
    ensures
        decode::decoded(ImageApi::Gemini, body, model, profile) matches Ok(reply) ==> {
            let parts = parts_in(body);
            let n = parts.len() as int;
            let finish = match json::element(json::at(body, "candidates"@), 0) {
                Some(candidate) => json::str_at(candidate, "finishReason"@),
                None => None,
            };
            &&& all_depicted(pictures(parts, n), reply.images)
            &&& reply.text == words(parts, n)
            &&& reply.outcome == ImageOutcome::Blocked <==> json::member2(
                body,
                "promptFeedback"@,
                "blockReason"@,
            ) is Some || finish == Some("SAFETY"@) || finish == Some("IMAGE_SAFETY"@) || finish
                == Some("PROHIBITED_CONTENT"@)
        },
        decode::decoded(ImageApi::Gemini, body, model, profile) is Err ==> pictures(
            parts_in(body),
            parts_in(body).len() as int,
        ).len() == 0 && words(parts_in(body), parts_in(body).len() as int) is None,
{
    lemma_names();
    lemma_gemini(parts_in(body), 0, seq![], None);
}

/// A text that is there and not empty.
pub open spec fn full(text: Option<Seq<char>>) -> bool {
    text is Some && text->0.len() > 0
}

/// The data of an image in an item of a list.
pub open spec fn inline_in(item: JsonView) -> Option<Seq<char>> {
    match json::member(item, "b64_json"@) {
        Some(value) => json::str_of(value),
        None => json::str_in(json::member(item, "base64"@)),
    }
}

/// An item of a list that holds an image.
pub open spec fn holds_image(item: JsonView) -> bool {
    full(json::str_at(item, "url"@)) || full(inline_in(item))
}

/// The items among the first `n` that hold an image.
pub open spec fn image_items(items: Seq<JsonView>, n: int) -> Seq<JsonView>
    decreases n,
{
    if n <= 0 {
        Seq::empty()
    } else if holds_image(items[n - 1]) {
        image_items(items, n - 1).push(items[n - 1])
    } else {
        image_items(items, n - 1)
    }
}

/// An image is the one that an item holds: by its link where there is one, or else with
/// its data.
pub open spec fn shows(item: JsonView, image: ImageArtifactView) -> bool {
    let link = json::str_at(item, "url"@);
    &&& full(link) ==> image.data == (ImageDataView::Url { url: link->0 })
    &&& !full(link) ==> image.data == (ImageDataView::Base64 { data: inline_in(item)->0 })
    &&& json::str_at(item, "media_type"@) is Some ==> image.media_type == json::str_at(
        item,
        "media_type"@,
    )
    &&& image.revised_prompt == json::str_at(item, "revised_prompt"@)
}

pub open spec fn all_shown(items: Seq<JsonView>, images: Seq<ImageArtifactView>) -> bool {
    items.len() == images.len() && forall|i: int|
        0 <= i < images.len() ==> shows(items[i], #[trigger] images[i])
}

#[verifier::spinoff_prover]
proof fn lemma_artifacts(items: Seq<JsonView>, i: int, before: Seq<ImageArtifactView>)
    requires
        0 <= i <= items.len(),
        all_shown(image_items(items, i), before),
    ensures
        all_shown(image_items(items, items.len() as int), decode::artifacts(items, i, before)),
    decreases items.len() - i,
{
    lemma_names();
    if i < items.len() {
        assert(holds_image(items[i]) <==> decode::artifact(items[i]) is Some);
        match decode::artifact(items[i]) {
            Some(image) => {
                assert(shows(items[i], image));
                lemma_artifacts(items, i + 1, before.push(image));
            },
            None => {
                lemma_artifacts(items, i + 1, before);
            },
        }
    }
}

/// A reply of a route that lists its images under `data` gives each of them, in order.
pub proof fn a_listed_reply_gives_its_images(
    api: ImageApi,
    body: JsonView,
    model: Seq<char>,
    profile: ProviderProfile,
)
    requires
        api == ImageApi::OpenAi || api == ImageApi::Xai || api == ImageApi::Zai || api
            == ImageApi::OpenRouter,
    ensures
        ({
            let items = json::items_in(json::member(body, "data"@));
            let found = image_items(items, items.len() as int);
            match decode::decoded(api, body, model, profile) {
                Ok(reply) => all_shown(found, reply.images) && reply.outcome
                    == ImageOutcome::Complete,
                Err(_) => found.len() == 0,
            }
        }),
{
    lemma_artifacts(json::items_in(json::member(body, "data"@)), 0, seq![]);
}

/// The texts of a list of texts.
pub open spec fn is_text(item: JsonView) -> bool {
    item is Str
}

pub open spec fn text_items(items: Seq<JsonView>, n: int) -> Seq<JsonView>
    decreases n,
{
    if n <= 0 {
        Seq::empty()
    } else if is_text(items[n - 1]) {
        text_items(items, n - 1).push(items[n - 1])
    } else {
        text_items(items, n - 1)
    }
}

proof fn lemma_plain(
    items: Seq<JsonView>,
    media_type: Option<Seq<char>>,
    i: int,
    front: int,
    before: Seq<ImageArtifactView>,
)
    requires
        0 <= i <= items.len(),
        0 <= front,
        before.len() == front + text_items(items, i).len(),
        forall|k: int|
            0 <= k < text_items(items, i).len() ==> (#[trigger] before[front + k]).data == (
            match media_type {
                Some(_) => ImageDataView::Base64 { data: text_items(items, i)[k]->Str_0 },
                None => ImageDataView::Url { url: text_items(items, i)[k]->Str_0 },
            }) && before[front + k].media_type == media_type,
    ensures
        ({
            let after = decode::plain_artifacts(items, media_type, i, before);
            let texts = text_items(items, items.len() as int);
            &&& after.len() == front + texts.len()
            &&& forall|k: int| 0 <= k < front ==> #[trigger] after[k] == before[k]
            &&& forall|k: int|
                0 <= k < texts.len() ==> (#[trigger] after[front + k]).data == (match media_type {
                    Some(_) => ImageDataView::Base64 { data: texts[k]->Str_0 },
                    None => ImageDataView::Url { url: texts[k]->Str_0 },
                }) && after[front + k].media_type == media_type
        }),
    decreases items.len() - i,
{
    if i < items.len() {
        match json::str_of(items[i]) {
            Some(text) => {
                let image = decode::plain(
                    match media_type {
                        Some(_) => ImageDataView::Base64 { data: text },
                        None => ImageDataView::Url { url: text },
                    },
                    media_type,
                );
                let next = before.push(image);
                assert forall|k: int| 0 <= k < text_items(items, i + 1).len() implies (
                #[trigger] next[front + k]).data == (match media_type {
                    Some(_) => ImageDataView::Base64 { data: text_items(items, i + 1)[k]->Str_0 },
                    None => ImageDataView::Url { url: text_items(items, i + 1)[k]->Str_0 },
                }) && next[front + k].media_type == media_type by {
                    if k < text_items(items, i).len() {
                        assert(next[front + k] == before[front + k]);
                    }
                }
                lemma_plain(items, media_type, i + 1, front, next);
            },
            None => {
                lemma_plain(items, media_type, i + 1, front, before);
            },
        }
    }
}

/// A MiniMax reply gives its links and after them its inline images, in order.
pub proof fn a_minimax_reply_gives_its_images(
    body: JsonView,
    model: Seq<char>,
    profile: ProviderProfile,
)
    ensures
        ({
            let urls = json::items_in(json::member2(body, "data"@, "image_urls"@));
            let inline = json::items_in(json::member2(body, "data"@, "image_base64"@));
            let links = text_items(urls, urls.len() as int);
            let datas = text_items(inline, inline.len() as int);
            match decode::decoded(ImageApi::Minimax, body, model, profile) {
                Ok(reply) => {
                    &&& reply.images.len() == links.len() + datas.len()
                    &&& forall|k: int|
                        0 <= k < links.len() ==> (#[trigger] reply.images[k]).data == (
                        ImageDataView::Url { url: links[k]->Str_0 })
                    &&& forall|k: int|
                        0 <= k < datas.len() ==> (#[trigger] reply.images[links.len() + k]).data == (
                        ImageDataView::Base64 { data: datas[k]->Str_0 })
                },
                Err(_) => links.len() + datas.len() == 0,
            }
        }),
{
    lemma_names();
    let urls = json::items_in(json::member2(body, "data"@, "image_urls"@));
    let inline = json::items_in(json::member2(body, "data"@, "image_base64"@));
    let none = Seq::<ImageArtifactView>::empty();
    lemma_plain(urls, None, 0, 0, none);
    let links = decode::plain_artifacts(urls, None, 0, none);
    assert forall|k: int| 0 <= k < text_items(urls, urls.len() as int).len() implies (
    #[trigger] links[k]).data == (ImageDataView::Url {
        url: text_items(urls, urls.len() as int)[k]->Str_0,
    }) by {
        assert(links[0 + k] == links[k]);
    }
    lemma_plain(inline, Some("image/jpeg"@), 0, links.len() as int, links);
}

/// An item of a message that shows an image by its link.
pub open spec fn linked(item: JsonView) -> bool {
    json::str_at(item, "type"@) == Some("image"@) && json::str_at(item, "image"@) is Some
}

/// The items among the first `n` of a message that show an image.
pub open spec fn linked_items(items: Seq<JsonView>, n: int) -> Seq<JsonView>
    decreases n,
{
    if n <= 0 {
        Seq::empty()
    } else if linked(items[n - 1]) {
        linked_items(items, n - 1).push(items[n - 1])
    } else {
        linked_items(items, n - 1)
    }
}

/// The items that show an image in the messages of the first `n` choices.
pub open spec fn choice_items(choices: Seq<JsonView>, n: int) -> Seq<JsonView>
    decreases n,
{
    if n <= 0 {
        Seq::empty()
    } else {
        let items = json::items_in(json::member2(choices[n - 1], "message"@, "content"@));
        choice_items(choices, n - 1) + linked_items(items, items.len() as int)
    }
}

pub open spec fn all_linked(
    items: Seq<JsonView>,
    front: int,
    images: Seq<ImageArtifactView>,
) -> bool {
    &&& images.len() == front + items.len()
    &&& forall|k: int|
        0 <= k < items.len() ==> Some((#[trigger] images[front + k]).data) == (match json::str_at(
            items[k],
            "image"@,
        ) {
            Some(url) => Some(ImageDataView::Url { url }),
            None => None,
        })
}

proof fn lemma_content(
    items: Seq<JsonView>,
    i: int,
    shown: Seq<JsonView>,
    front: int,
    before: Seq<ImageArtifactView>,
)
    requires
        0 <= i <= items.len(),
        0 <= front,
        all_linked(shown + linked_items(items, i), front, before),
    ensures
        all_linked(
            shown + linked_items(items, items.len() as int),
            front,
            decode::content_images(items, i, before),
        ),
        forall|k: int|
            0 <= k < front ==> #[trigger] decode::content_images(items, i, before)[k] == before[k],
    decreases items.len() - i,
{
    lemma_names();
    if i < items.len() {
        let link = json::str_in(json::member(items[i], "image"@));
        if linked(items[i]) {
            let image = decode::plain(ImageDataView::Url { url: link->0 }, Some("image/png"@));
            let next = before.push(image);
            let all = shown + linked_items(items, i);
            assert(shown + linked_items(items, i + 1) =~= all.push(items[i]));
            assert forall|k: int| 0 <= k < all.push(items[i]).len() implies Some(
                (#[trigger] next[front + k]).data,
            ) == (match json::str_at(all.push(items[i])[k], "image"@) {
                Some(url) => Some(ImageDataView::Url { url }),
                None => None,
            }) by {
                if k < all.len() {
                    assert(next[front + k] == before[front + k]);
                }
            }
            lemma_content(items, i + 1, shown, front, next);
        } else {
            lemma_content(items, i + 1, shown, front, before);
        }
    }
}

proof fn lemma_choices(choices: Seq<JsonView>, i: int, front: int, before: Seq<ImageArtifactView>)
    requires
        0 <= i <= choices.len(),
        0 <= front,
        all_linked(choice_items(choices, i), front, before),
    ensures
        all_linked(
            choice_items(choices, choices.len() as int),
            front,
            decode::choice_images(choices, i, before),
        ),
        forall|k: int|
            0 <= k < front ==> #[trigger] decode::choice_images(choices, i, before)[k] == before[k],
    decreases choices.len() - i,
{
    lemma_names();
    if i < choices.len() {
        let items = json::items_in(json::member2(choices[i], "message"@, "content"@));
        let shown = choice_items(choices, i);
        assert(shown + linked_items(items, 0) =~= shown);
        lemma_content(items, 0, shown, front, before);
        lemma_choices(choices, i + 1, front, decode::content_images(items, 0, before));
    }
}

/// A Wan reply gives the image of each item of its choices that shows one, in order; a
/// Qwen reply gives them after those that it lists under `data`.
pub proof fn a_dashscope_reply_gives_its_images(
    body: JsonView,
    model: Seq<char>,
    profile: ProviderProfile,
)
    ensures
        ({
            let choices = json::items_in(json::member2(body, "output"@, "choices"@));
            let items = choice_items(choices, choices.len() as int);
            match decode::decoded(ImageApi::Wan, body, model, profile) {
                Ok(reply) => all_linked(items, 0, reply.images),
                Err(_) => items.len() == 0,
            }
        }),
        ({
            let choices = json::items_in(json::member2(body, "output"@, "choices"@));
            let items = choice_items(choices, choices.len() as int);
            let data = json::items_in(json::member(body, "data"@));
            let listed = image_items(data, data.len() as int);
            match decode::decoded(ImageApi::Qwen, body, model, profile) {
                Ok(reply) => {
                    &&& all_linked(items, listed.len() as int, reply.images)
                    &&& forall|k: int|
                        0 <= k < listed.len() ==> shows(listed[k], #[trigger] reply.images[k])
                },
                Err(_) => items.len() + listed.len() == 0,
            }
        }),
{
    lemma_names();
    let choices = json::items_in(json::member2(body, "output"@, "choices"@));
    let data = json::items_in(json::member(body, "data"@));
    let none = Seq::<ImageArtifactView>::empty();
    lemma_choices(choices, 0, 0, none);
    lemma_artifacts(data, 0, none);
    let listed = decode::artifacts(data, 0, none);
    lemma_choices(choices, 0, listed.len() as int, listed);
}

/// A reply names the model that was asked for, the connection that it came over, and the
/// model that it says it is from.
pub proof fn a_reply_names_its_models(
    api: ImageApi,
    body: JsonView,
    model: Seq<char>,
    profile: ProviderProfile,
)
    ensures
        decode::decoded(api, body, model, profile) matches Ok(reply) ==> {
            &&& reply.requested_model == model
            &&& reply.executed_profile == profile.profile_name@
            &&& reply.provider_id == profile.provider_id@
            &&& json::str_at(body, "model"@) is Some ==> reply.reported_model == json::str_at(
                body,
                "model"@,
            )
            &&& json::str_at(body, "request_id"@) is Some ==> reply.request_id == json::str_at(
                body,
                "request_id"@,
            )
            &&& reply.outcome == ImageOutcome::NoImage ==> reply.images.len() == 0
            &&& reply.outcome == ImageOutcome::Complete ==> reply.images.len() > 0
        },
{
}

/// The state of a task is the one that its status names.
#[verifier::spinoff_prover]
pub proof fn a_task_is_in_the_state_that_it_names(
    api: ImageApi,
    body: JsonView,
    task: ImageTaskRef,
    profile: ProviderProfile,
    status: Seq<char>,
)
    requires
        api == ImageApi::Qwen || api == ImageApi::Wan ==> json::str_in(
            json::member2(body, "output"@, "task_status"@),
        ) == Some(status),
        api == ImageApi::Zai ==> json::str_at(body, "task_status"@) == Some(status),
        api == ImageApi::Qwen || api == ImageApi::Wan || api == ImageApi::Zai,
    ensures
        ({
            let name = text::upper(status);
            let state = decode::task_state(api, body, task, profile);
            &&& name == "PENDING"@ <==> state is Ok && state->Ok_0 is Pending
            &&& name == "RUNNING"@ || name == "PROCESSING"@ <==> state is Ok && state->Ok_0 is Running
            &&& name == "FAILED"@ || name == "FAIL"@ <==> state is Ok && state->Ok_0 is Failed
            &&& name == "CANCELED"@ || name == "CANCELLED"@ <==> state is Ok
                && state->Ok_0 is Cancelled
            &&& name == "EXPIRED"@ <==> state is Ok && state->Ok_0 is Expired
            &&& state matches Ok(ImageTaskSnapshotView::Succeeded { response }) ==> {
                &&& name == "SUCCEEDED"@ || name == "SUCCESS"@
                &&& response.requested_model == task.request_model@
            }
        }),
{
    lemma_names();
}

/// A task is followed under the id that its provider accepted it with.
pub proof fn a_task_has_the_id_that_was_accepted(api: ImageApi, body: JsonView, id: Seq<char>)
    ensures
        decode::accepted_task(api, body) == Ok::<Seq<char>, ImageErrorView>(id) ==> id.len() > 0 && (
        api == ImageApi::Zai ==> json::str_at(body, "id"@) == Some(id)) && (api != ImageApi::Zai
            ==> json::str_in(json::member2(body, "output"@, "task_id"@)) == Some(id)),
        (api == ImageApi::Qwen || api == ImageApi::Wan) && id.len() > 0 && json::str_in(
            json::member2(body, "output"@, "task_id"@),
        ) == Some(id) ==> decode::accepted_task(api, body) == Ok::<Seq<char>, ImageErrorView>(id),
        api == ImageApi::Zai && id.len() > 0 && json::str_at(body, "id"@) == Some(id)
            ==> decode::accepted_task(api, body) == Ok::<Seq<char>, ImageErrorView>(id),
{
}

/// A reply that is refused is an error that tells what its status stands for.
pub proof fn a_refusal_tells_its_cause(status: u16, parsed: Result<JsonView, Seq<char>>)
    requires
        !(200 <= status < 300),
    ensures
        decode::response_json(status, parsed) matches Err(ImageErrorView::Llm(error)) && {
            &&& error is InvalidRequest <==> status == 400 || status == 422
            &&& error is Authentication <==> status == 401
            &&& error is PermissionDenied <==> status == 403
            &&& error is ModelUnavailable <==> status == 404
            &&& error is RateLimited <==> status == 429
        },
{
}

/// What the request asks of the output, as the fields that every listing route sends.
pub open spec fn asks(req: ImageRequest, model: ImageModelProfile, body: JsonView) -> bool {
    let out = req.wanted();
    let free = |key: Seq<char>| json::entry(req.options_view(), key) is None;
    &&& free("model"@) ==> json::str_at(body, "model"@) == Some(model.request_model@)
    &&& free("prompt"@) ==> json::str_at(body, "prompt"@) == Some(req.prompt_text())
    &&& free("n"@) && out.count is Some ==> json::u64_at(body, "n"@) == Some(out.count->0 as u64)
    &&& free("aspect_ratio"@) ==> (out.aspect_ratio matches Some(ratio) ==> json::str_at(
        body,
        "aspect_ratio"@,
    ) == Some(text::decimal_text(ratio.0 as nat) + ":"@ + text::decimal_text(ratio.1 as nat)))
}

/// What the request asks of the look of the output.
pub open spec fn asks_look(req: ImageRequest, api: ImageApi, body: JsonView) -> bool {
    let out = req.wanted();
    let free = |key: Seq<char>| json::entry(req.options_view(), key) is None;
    &&& free("size"@) ==> (out.size matches Some(ImageSize::Pixels { width, height })
        ==> json::str_at(body, "size"@) == Some(
        text::decimal_text(width as nat) + "x"@ + text::decimal_text(height as nat),
    ))
    &&& free("size"@) ==> (out.size matches Some(ImageSize::Tier { name }) ==> json::str_at(
        body,
        "size"@,
    ) == Some(name@))
    &&& free("output_format"@) ==> {
        &&& out.format == Some(ImageFormat::Png) <==> json::str_at(body, "output_format"@) == Some(
            "png"@,
        )
        &&& out.format == Some(ImageFormat::Jpeg) <==> json::str_at(body, "output_format"@) == Some(
            "jpeg"@,
        )
        &&& out.format == Some(ImageFormat::Webp) <==> json::str_at(body, "output_format"@) == Some(
            "webp"@,
        )
    }
    &&& free("quality"@) && api != ImageApi::Zai ==> {
        &&& out.quality == Some(ImageQuality::High) <==> json::str_at(body, "quality"@) == Some(
            "high"@,
        )
        &&& out.quality == Some(ImageQuality::Medium) <==> json::str_at(body, "quality"@) == Some(
            "medium"@,
        )
        &&& out.quality == Some(ImageQuality::Low) <==> json::str_at(body, "quality"@) == Some(
            "low"@,
        )
    }
}

#[verifier::spinoff_prover]
#[verifier::rlimit(60)]
proof fn lemma_common(req: ImageRequest, model: ImageModelProfile, api: ImageApi)
    ensures
        ({
            let common = JsonView::Object(encode::common_fields(req, model, api));
            &&& asks(req, model, common)
            &&& asks_look(req, api, common)
        }),
{
    broadcast use json::entry_after_put;

    lemma_names();
    let options = req.options_view();
    let out = req.wanted();
    let none = Seq::<(Seq<char>, JsonView)>::empty();
    let base = json::put(
        json::put(none, "model"@, JsonView::Str(model.request_model@)),
        "prompt"@,
        JsonView::Str(req.prompt_text()),
    );
    let counted = json::put_some(
        base,
        "n"@,
        match out.count {
            Some(n) => Some(json::uint_view(n as u64)),
            None => None,
        },
    );
    let sized = match out.size {
        Some(size) => if api == ImageApi::Gemini && size is Auto {
            counted
        } else {
            json::put(counted, "size"@, JsonView::Str(encode::size_text(size)))
        },
        None => counted,
    };
    let shaped = match out.aspect_ratio {
        Some(ratio) => json::put(
            sized,
            "aspect_ratio"@,
            JsonView::Str(
                text::decimal_text(ratio.0 as nat) + ":"@ + text::decimal_text(ratio.1 as nat),
            ),
        ),
        None => sized,
    };
    let formatted = match out.format {
        Some(format) => json::put(
            shaped,
            "output_format"@,
            JsonView::Str(encode::format_text(format)),
        ),
        None => shaped,
    };
    let graded = match out.quality {
        Some(quality) => json::put(
            formatted,
            "quality"@,
            JsonView::Str(
                if api == ImageApi::Zai {
                    "hd"@
                } else {
                    encode::quality_text(quality)
                },
            ),
        ),
        None => formatted,
    };
    assert(encode::common_fields(req, model, api) == json::put_all(graded, options, 0));
    lemma_free(graded, options, "model"@);
    lemma_free(graded, options, "prompt"@);
    lemma_free(graded, options, "n"@);
    lemma_free(graded, options, "aspect_ratio"@);
    lemma_free(graded, options, "size"@);
    lemma_free(graded, options, "output_format"@);
    lemma_free(graded, options, "quality"@);
}

proof fn lemma_free(entries: Entries, options: Entries, key: Seq<char>)
    ensures
        json::entry(options, key) is None ==> json::entry(json::put_all(entries, options, 0), key)
            == json::entry(entries, key),
{
    if json::entry(options, key) is None {
        json::put_all_keeps_other_keys(entries, options, 0, key);
    }
}

/// An image of the request as text on the wire: its link, or a data URI of its data.
pub open spec fn sends(image: ImageInput, sent: Seq<char>) -> bool {
    match image {
        ImageInput::Url { url } => sent == url@,
        ImageInput::Base64 { media_type, data } => sent == "data:"@ + media_type@ + ";base64,"@
            + data@,
        ImageInput::Attachment { .. } => false,
    }
}

pub open spec fn all_sent(images: Seq<ImageInput>, sent: Seq<Seq<char>>) -> bool {
    images.len() == sent.len() && forall|i: int|
        0 <= i < sent.len() ==> sends(images[i], #[trigger] sent[i])
}

proof fn lemma_uris(images: Seq<ImageInput>, i: int, before: Seq<Seq<char>>)
    requires
        before.len() == i <= images.len(),
        forall|k: int| 0 <= k < i ==> sends(images[k], #[trigger] before[k]),
    ensures
        encode::data_uris(images, i, before) matches Ok(uris) ==> all_sent(images, uris),
    decreases images.len() - i,
{
    if i < images.len() {
        if let Ok(uri) = encode::data_uri(images[i]) {
            lemma_uris(images, i + 1, before.push(uri));
        }
    }
}

/// A route that lists its images asks for what the request asks for: the model, the
/// prompt, how many images, and their look.
#[verifier::spinoff_prover]
pub proof fn a_listing_request_asks_for_its_images(
    req: ImageRequest,
    model: ImageModelProfile,
    api: ImageApi,
)
    requires
        api == ImageApi::OpenAi || api == ImageApi::Zai || api == ImageApi::Qwen || api
            == ImageApi::Xai || api == ImageApi::OpenRouter,
    ensures
        encode::json_body(req, model, api, false) matches Ok(body) ==> {
            let sent = JsonView::Object(body);
            let inputs = req.inputs();
            &&& asks(req, model, sent)
            &&& asks_look(req, api, sent)
            &&& api == ImageApi::Qwen && inputs.len() == 1 ==> (json::str_at(
                sent,
                "image"@,
            ) matches Some(uri) && sends(inputs[0], uri))
            &&& api == ImageApi::Qwen && inputs.len() > 1 ==> {
                let images = json::items_in(json::member(sent, "image"@));
                &&& images.len() == inputs.len()
                &&& forall|i: int|
                    0 <= i < images.len() ==> (#[trigger] images[i] matches JsonView::Str(uri)
                        && sends(inputs[i], uri))
            }
            &&& api == ImageApi::OpenRouter && inputs.len() > 0 ==> {
                let images = json::items_in(json::member(sent, "input_references"@));
                &&& images.len() == inputs.len()
                &&& forall|i: int|
                    0 <= i < images.len() ==> (json::str_in(
                        json::member2(#[trigger] images[i], "image_url"@, "url"@),
                    ) matches Some(uri) && sends(inputs[i], uri))
            }
            &&& api == ImageApi::Xai && req.is_edit() ==> (json::str_in(
                json::member2(sent, "image"@, "url"@),
            ) matches Some(uri) && inputs.len() > 0 && sends(inputs[0], uri))
        },
{
    broadcast use json::entry_after_put;

    lemma_names();
    lemma_common(req, model, api);
    lemma_uris(req.inputs(), 0, seq![]);
}

/// An image of the request as a part of a Gemini message.
pub open spec fn gemini_sends(image: ImageInput, sent: JsonView) -> bool {
    match image {
        ImageInput::Base64 { media_type, data } => {
            &&& json::str_in(json::member2(sent, "inlineData"@, "mimeType"@)) == Some(media_type@)
            &&& json::str_in(json::member2(sent, "inlineData"@, "data"@)) == Some(data@)
        },
        ImageInput::Url { url } => json::str_in(json::member2(sent, "fileData"@, "fileUri"@))
            == Some(url@),
        ImageInput::Attachment { .. } => false,
    }
}

proof fn lemma_gemini_parts(images: Seq<ImageInput>, i: int, before: Seq<JsonView>)
    requires
        0 <= i <= images.len(),
        before.len() == i + 1,
        forall|k: int| 0 <= k < i ==> gemini_sends(images[k], #[trigger] before[k + 1]),
    ensures
        encode::gemini_parts(images, i, before) matches Ok(parts) ==> {
            &&& parts.len() == images.len() + 1
            &&& parts[0] == before[0]
            &&& forall|k: int|
                0 <= k < images.len() ==> gemini_sends(images[k], #[trigger] parts[k + 1])
        },
    decreases images.len() - i,
{
    broadcast use json::entry_after_put;

    lemma_names();
    if i < images.len() {
        if let Ok(part) = encode::gemini_part(images[i]) {
            let next = before.push(part);
            assert(gemini_sends(images[i], part));
            assert forall|k: int| 0 <= k < i + 1 implies gemini_sends(
                images[k],
                #[trigger] next[k + 1],
            ) by {
                if k < i {
                    assert(next[k + 1] == before[k + 1]);
                }
            }
            lemma_gemini_parts(images, i + 1, next);
        }
    }
}

/// A Gemini request holds one message of the user: the prompt, and after it the images
/// of the request, one for one and in order. It asks for an image, in the shape that the
/// request names.
#[verifier::spinoff_prover]
#[verifier::rlimit(40)]
pub proof fn a_gemini_request_shows_its_images(req: ImageRequest, model: ImageModelProfile)
    ensures
        encode::json_body(req, model, ImageApi::Gemini, false) matches Ok(body) ==> {
            let sent = JsonView::Object(body);
            let contents = json::items_in(json::member(sent, "contents"@));
            let parts = json::items_in(json::member(contents[0], "parts"@));
            let inputs = req.inputs();
            &&& contents.len() == 1
            &&& json::str_at(contents[0], "role"@) == Some("user"@)
            &&& parts.len() == inputs.len() + 1
            &&& json::str_at(parts[0], "text"@) == Some(req.prompt_text())
            &&& forall|i: int|
                0 <= i < inputs.len() ==> gemini_sends(inputs[i], #[trigger] parts[i + 1])
            &&& json::items_in(
                json::member2(sent, "generationConfig"@, "responseModalities"@),
            ).contains(JsonView::Str("IMAGE"@))
            &&& req.wanted().aspect_ratio matches Some(ratio) ==> (json::entry(
                req.options_view(),
                "aspect_ratio"@,
            ) is None ==> json::str_in(
                json::member2(
                    json::at(sent, "generationConfig"@),
                    "imageConfig"@,
                    "aspectRatio"@,
                ),
            ) == Some(
                text::decimal_text(ratio.0 as nat) + ":"@ + text::decimal_text(ratio.1 as nat),
            ))
        },
{
    broadcast use json::entry_after_put;

    lemma_names();
    let prompt = json::obj1("text"@, JsonView::Str(req.prompt_text()));
    lemma_gemini_parts(req.inputs(), 0, seq![prompt]);
    lemma_common(req, model, ImageApi::Gemini);
    let common = encode::common_fields(req, model, ImageApi::Gemini);
    let modalities = seq![JsonView::Str("IMAGE"@)];
    assert(modalities[0] == JsonView::Str("IMAGE"@));
    let none = Seq::<(Seq<char>, JsonView)>::empty();
    if let Some(ratio) = json::entry(common, "aspect_ratio"@) {
        let sized = json::put_some(
            json::put(none, "aspectRatio"@, ratio),
            "imageSize"@,
            json::entry(json::without(common, "aspect_ratio"@), "size"@),
        );
        assert(json::entry(sized, "aspectRatio"@) == Some(ratio));
        assert(sized.len() > 0) by {
            if sized.len() == 0 {
                assert(json::entry(sized, "aspectRatio"@) is None);
            }
        }
    }
}

/// A request of a message route holds one message of the user with the prompt and the
/// images of the request, for the model that the request names.
#[verifier::spinoff_prover]
#[verifier::rlimit(40)]
pub proof fn a_message_request_shows_its_images(
    req: ImageRequest,
    model: ImageModelProfile,
    api: ImageApi,
    asynchronous: bool,
)
    requires
        api == ImageApi::Wan || (api == ImageApi::Qwen && asynchronous),
    ensures
        encode::json_body(req, model, api, asynchronous) matches Ok(body) ==> {
            let sent = JsonView::Object(body);
            let messages = json::items_in(json::member2(sent, "input"@, "messages"@));
            let content = json::items_in(json::member(messages[0], "content"@));
            let inputs = req.inputs();
            let text = if api == ImageApi::Wan {
                inputs.len() as int
            } else {
                0int
            };
            let front = if api == ImageApi::Wan {
                0int
            } else {
                1int
            };
            &&& json::str_at(sent, "model"@) == Some(model.request_model@)
            &&& messages.len() == 1
            &&& json::str_at(messages[0], "role"@) == Some("user"@)
            &&& content.len() == inputs.len() + 1
            &&& json::str_at(content[text], "text"@) == Some(req.prompt_text())
            &&& forall|i: int|
                0 <= i < inputs.len() ==> (json::str_at(
                    #[trigger] content[front + i],
                    "image"@,
                ) matches Some(uri) && sends(inputs[i], uri))
            &&& req.wanted().count is Some && json::entry(req.options_view(), "n"@) is None
                ==> json::member2(sent, "parameters"@, "n"@) == Some(
                json::uint_view(req.wanted().count->0 as u64),
            )
        },
{
    broadcast use json::entry_after_put;

    lemma_names();
    lemma_uris(req.inputs(), 0, seq![]);
    lemma_common(req, model, api);
    let common = encode::common_fields(req, model, api);
    let bare = json::without(common, "model"@);
    json::without_keeps_other_keys(common, "model"@, "n"@);
    json::without_keeps_other_keys(bare, "prompt"@, "n"@);
}

/// A MiniMax request asks for what the request asks for, with the size in numbers and
/// the images of the request as the characters to keep.
#[verifier::spinoff_prover]
#[verifier::rlimit(40)]
pub proof fn a_minimax_request_asks_for_its_images(req: ImageRequest, model: ImageModelProfile)
    ensures
        encode::json_body(req, model, ImageApi::Minimax, false) matches Ok(body) ==> {
            let sent = JsonView::Object(body);
            let inputs = req.inputs();
            let subjects = json::items_in(json::member(sent, "subject_reference"@));
            &&& asks(req, model, sent)
            &&& req.wanted().size matches Some(ImageSize::Pixels { width, height }) ==> {
                &&& json::u64_at(sent, "width"@) == Some(width as u64)
                &&& json::u64_at(sent, "height"@) == Some(height as u64)
            }
            &&& inputs.len() > 0 ==> subjects.len() == inputs.len() && forall|i: int|
                0 <= i < inputs.len() ==> (json::str_at(
                    #[trigger] subjects[i],
                    "image_file"@,
                ) matches Some(uri) && sends(inputs[i], uri))
        },
{
    broadcast use json::entry_after_put;

    lemma_names();
    lemma_uris(req.inputs(), 0, seq![]);
    lemma_common(req, model, ImageApi::Minimax);
    let common = encode::common_fields(req, model, ImageApi::Minimax);
    let bare = json::without(common, "output_format"@);
    json::without_keeps_other_keys(common, "output_format"@, "model"@);
    json::without_keeps_other_keys(common, "output_format"@, "prompt"@);
    json::without_keeps_other_keys(common, "output_format"@, "n"@);
    json::without_keeps_other_keys(common, "output_format"@, "aspect_ratio"@);
    json::without_keeps_other_keys(bare, "size"@, "model"@);
    json::without_keeps_other_keys(bare, "size"@, "prompt"@);
    json::without_keeps_other_keys(bare, "size"@, "n"@);
    json::without_keeps_other_keys(bare, "size"@, "aspect_ratio"@);
}

/// A request that is let through is one that the model and the route can serve: it has a
/// prompt, and it asks for no more than the model can do.
pub proof fn a_request_is_within_the_model(
    req: ImageRequest,
    model: ImageModelProfile,
    route: ImageRouteConfig,
    asynchronous: bool,
)
    ensures
        validate::request_error(req, model, route, asynchronous) is None ==> {
            let caps = model.capabilities;
            let out = req.wanted();
            &&& !text::blank(req.prompt_text())
            &&& req.is_edit() ==> caps.editing && req.inputs().len() > 0
            &&& !req.is_edit() && req.inputs().len() == 0 ==> caps.text_to_image
            &&& !req.is_edit() && req.inputs().len() > 0 ==> caps.reference_generation
            &&& req.mask_of() is Some ==> caps.mask_editing && req.mask_of()->0.image_index
                < req.inputs().len()
            &&& asynchronous && req.is_edit() ==> caps.async_edit
            &&& asynchronous && !req.is_edit() ==> caps.async_generate
            &&& caps.max_inputs matches Some(max) ==> req.inputs().len() <= max
            &&& out.count matches Some(count) ==> count > 0 && (caps.max_outputs matches Some(max)
                ==> count <= max)
            &&& out.aspect_ratio matches Some(ratio) ==> ratio.0 > 0 && ratio.1 > 0 && !(
            out.size matches Some(ImageSize::Pixels { .. }))
            &&& out.size matches Some(ImageSize::Pixels { width, height }) ==> width > 0 && height
                > 0
        },
{
}

proof fn lemma_options(api: ImageApi, options: Entries, i: int)
    requires
        0 <= i <= options.len(),
    ensures
        validate::refused_option(api, options, i) is None <==> forall|k: int|
            i <= k < options.len() ==> validate::option_allowed(api, (#[trigger] options[k]).0),
    decreases options.len() - i,
{
    if i < options.len() {
        lemma_options(api, options, i + 1);
    }
}

proof fn lemma_inputs(inputs: Seq<ImageInput>, api: ImageApi, editing: bool, i: int)
    requires
        0 <= i <= inputs.len(),
    ensures
        validate::inputs_error(inputs, api, editing, i) is None <==> forall|k: int|
            i <= k < inputs.len() ==> validate::route_input_error(
                #[trigger] inputs[k],
                api,
                editing,
            ) is None,
    decreases inputs.len() - i,
{
    if i < inputs.len() {
        lemma_inputs(inputs, api, editing, i + 1);
    }
}

/// A request that is let through sets no field of its own but those that the route takes,
/// so it never overrides the model, the prompt or the number of images.
#[verifier::spinoff_prover]
#[verifier::rlimit(40)]
pub proof fn an_option_overrides_nothing(
    req: ImageRequest,
    model: ImageModelProfile,
    route: ImageRouteConfig,
    asynchronous: bool,
    k: int,
)
    requires
        0 <= k < req.options_view().len(),
    ensures
        validate::request_error(req, model, route, asynchronous) is None ==> {
            let key = req.options_view()[k].0;
            &&& key != "model"@
            &&& key != "prompt"@
            &&& key != "n"@
            &&& key != "size"@
            &&& key != "aspect_ratio"@
            &&& key != "quality"@
            &&& key != "output_format"@
        },
{
    lemma_names();
    lemma_options(route.api, req.options_view(), 0);
    if validate::request_error(req, model, route, asynchronous) is None {
        assert(validate::option_allowed(route.api, req.options_view()[k].0));
    }
}

/// Every image of a request that is let through is one that the route can take: a link
/// over HTTP, or image data of a size that it accepts.
pub proof fn an_image_is_one_that_the_route_takes(
    req: ImageRequest,
    model: ImageModelProfile,
    route: ImageRouteConfig,
    asynchronous: bool,
    k: int,
)
    requires
        0 <= k < req.inputs().len(),
    ensures
        validate::request_error(req, model, route, asynchronous) is None ==> {
            let input = req.inputs()[k];
            &&& route.api == ImageApi::Gemini ==> !(input is Url)
            &&& route.api == ImageApi::Minimax ==> input is Url
            &&& route.api == ImageApi::OpenAi && req.is_edit() ==> !(input is Url)
            &&& input matches ImageInput::Base64 { media_type, .. }
                ==> "image/"@.is_prefix_of(media_type@)
            &&& input matches ImageInput::Url { url } ==> (encoding::url_parts(
                url@,
            ) matches Some(parts) && (parts.scheme == "http"@ || parts.scheme == "https"@)
                && parts.host is Some)
        },
{
    lemma_inputs(req.inputs(), route.api, req.is_edit(), 0);
    if validate::request_error(req, model, route, asynchronous) is None {
        assert(validate::route_input_error(req.inputs()[k], route.api, req.is_edit()) is None);
    }
}

/// The form of an edit ends with the line that closes it, after the images, and holds the
/// bytes of each: here of the last one, the mask where there is one.
pub proof fn an_edit_holds_its_image(edit: ImageEditRequest, model: ImageModelProfile)
    ensures
        encode::edit_form(edit, model) matches Ok(form) ==> {
            let closing = vstd::utf8::encode_utf8(
                "--"@ + encode::boundary() + "--\r\n"@,
            );
            let end = form.len() - closing.len();
            &&& end >= 0
            &&& form.subrange(end, form.len() as int) == closing
            &&& edit.mask matches Some(mask) ==> (mask.source matches ImageInput::Base64 {
                data,
                ..
            } && (encoding::base64_decoded(data@) matches Ok(bytes) && {
                let tail = vstd::utf8::encode_utf8("\r\n"@).len();
                &&& end - tail - bytes.len() >= 0
                &&& form.subrange(end - tail - bytes.len(), end - tail) == bytes
            }))
        },
{
    if let Ok(form) = encode::edit_form(edit, model) {
        let closing = vstd::utf8::encode_utf8("--"@ + encode::boundary() + "--\r\n"@);
        let end = form.len() - closing.len();
        assert(form.subrange(end, form.len() as int) =~= closing);
        if let Some(mask) = edit.mask {
            if let ImageInput::Base64 { data, .. } = mask.source {
                if let Ok(bytes) = encoding::base64_decoded(data@) {
                    let tail = vstd::utf8::encode_utf8("\r\n"@).len();
                    assert(form.subrange(end - tail - bytes.len(), end - tail) =~= bytes);
                }
            }
        }
    }
}

/// Where a request is sent: to the route's own address, under the name that its provider
/// has for the operation.
pub proof fn a_request_is_sent_to_its_route(
    req: ImageRequest,
    model: ImageModelProfile,
    route: ImageRouteConfig,
)
    ensures
        ({
            let base = text::without_trailing(route.base_url@, '/');
            let url = encode::endpoint(req, model, route, false);
            &&& route.api == ImageApi::OpenAi || route.api == ImageApi::Qwen || (route.api
                == ImageApi::Xai && !req.is_edit()) ==> url == Ok::<Seq<char>, ImageErrorView>(
                base + "/images/generations"@,
            )
            &&& route.api == ImageApi::Xai && req.is_edit() ==> url == Ok::<
                Seq<char>,
                ImageErrorView,
            >(base + "/images/edits"@)
            &&& route.api == ImageApi::OpenRouter ==> url == Ok::<Seq<char>, ImageErrorView>(
                base + "/images"@,
            )
            &&& route.api == ImageApi::Minimax ==> url == Ok::<Seq<char>, ImageErrorView>(
                base + "/image_generation"@,
            )
            &&& route.api == ImageApi::Gemini ==> url == Ok::<Seq<char>, ImageErrorView>(
                base + "/models/"@ + model.request_model@ + ":generateContent"@,
            )
        }),
{
}

/// A task is asked after at its own address, under an id that cannot leave it.
pub proof fn a_task_is_asked_after_by_its_id(route: ImageRouteConfig, id: Seq<char>)
    ensures
        decode::task_request(route, id) matches Ok(request) ==> {
            &&& request.method == "GET"@
            &&& request.body.len() == 0
            &&& !id.contains('/') && !id.contains('?') && !id.contains('#')
            &&& route.api == ImageApi::Zai ==> request.url == text::without_trailing(
                route.base_url@,
                '/',
            ) + "/async-result/"@ + id
            &&& route.api != ImageApi::Zai ==> (route.task_base_url matches Some(root) && request.url
                == text::without_trailing(root@, '/') + "/tasks/"@ + id)
        },
{
    if decode::task_request(route, id) is Ok {
        if id.contains('/') {
            let k = choose|k: int| 0 <= k < id.len() && id[k] == '/';
            assert(text::alphanumeric(id[k]) || id[k] == '-' || id[k] == '_');
        }
        if id.contains('?') {
            let k = choose|k: int| 0 <= k < id.len() && id[k] == '?';
            assert(text::alphanumeric(id[k]) || id[k] == '-' || id[k] == '_');
        }
        if id.contains('#') {
            let k = choose|k: int| 0 <= k < id.len() && id[k] == '#';
            assert(text::alphanumeric(id[k]) || id[k] == '-' || id[k] == '_');
        }
    }
}

/// A pair of places is a model that this request names, on a connection that serves here.
pub open spec fn answers(
    profiles: Seq<ProviderProfile>,
    region: Region,
    requested: Seq<char>,
    pair: (int, int),
) -> bool {
    &&& 0 <= pair.0 < profiles.len()
    &&& 0 <= pair.1 < profiles[pair.0].images.models@.len()
    &&& profiles[pair.0].serves(region)
    &&& service::model_matches(
        profiles,
        region,
        profiles[pair.0],
        profiles[pair.0].images.models@[pair.1],
        requested,
    )
}

proof fn lemma_matches_in(
    profiles: Seq<ProviderProfile>,
    region: Region,
    requested: Seq<char>,
    p: int,
    m: int,
    before: Seq<(int, int)>,
)
    requires
        0 <= p < profiles.len(),
        0 <= m,
        profiles[p].serves(region),
        forall|k: int|
            0 <= k < before.len() ==> answers(profiles, region, requested, #[trigger] before[k]),
    ensures
        service::matches_in(profiles, region, requested, p, m, before) matches Ok(found) ==> {
            &&& found.len() >= before.len()
            &&& forall|k: int|
                0 <= k < found.len() ==> answers(profiles, region, requested, #[trigger] found[k])
            &&& (exists|k: int|
                m <= k < profiles[p].images.models@.len() && service::model_matches(
                    profiles,
                    region,
                    profiles[p],
                    #[trigger] profiles[p].images.models@[k],
                    requested,
                )) ==> found.len() > before.len()
        },
    decreases profiles[p].images.models@.len() - m,
{
    let models = profiles[p].images.models@;
    if m < models.len() {
        if !service::model_matches(profiles, region, profiles[p], models[m], requested) {
            lemma_matches_in(profiles, region, requested, p, m + 1, before);
        } else if service::route_named(profiles[p].images.routes@, models[m].route@, 0) is Some {
            lemma_matches_in(profiles, region, requested, p, m + 1, before.push((p, m)));
        }
    }
}

proof fn lemma_candidates(
    profiles: Seq<ProviderProfile>,
    region: Region,
    requested: Seq<char>,
    p: int,
    before: Seq<(int, int)>,
)
    requires
        0 <= p,
        forall|k: int|
            0 <= k < before.len() ==> answers(profiles, region, requested, #[trigger] before[k]),
    ensures
        service::candidates(profiles, region, requested, None, p, before) matches Ok(found) ==> {
            &&& found.len() >= before.len()
            &&& forall|k: int|
                0 <= k < found.len() ==> answers(profiles, region, requested, #[trigger] found[k])
        },
    decreases profiles.len() - p,
{
    if p < profiles.len() {
        if !profiles[p].serves(region) {
            lemma_candidates(profiles, region, requested, p + 1, before);
        } else {
            lemma_matches_in(profiles, region, requested, p, 0, before);
            if let Ok(found) = service::matches_in(profiles, region, requested, p, 0, before) {
                lemma_candidates(profiles, region, requested, p + 1, found);
            }
        }
    }
}

/// A name is resolved to a model that goes by it, on a connection that serves the region.
pub proof fn a_name_is_resolved_to_its_model(
    profiles: Seq<ProviderProfile>,
    region: Region,
    requested: Seq<char>,
)
    ensures
        service::resolved(profiles, region, requested, None) matches Ok(pair) ==> answers(
            profiles,
            region,
            requested,
            pair,
        ),
{
    lemma_candidates(profiles, region, requested, 0, seq![]);
}

/// A text of bytes holds these bytes somewhere.
pub open spec fn holds(form: Seq<u8>, bytes: Seq<u8>) -> bool {
    exists|at: int| #[trigger] holds_at(form, bytes, at)
}

pub open spec fn holds_at(form: Seq<u8>, bytes: Seq<u8>, at: int) -> bool {
    0 <= at && at + bytes.len() <= form.len() && form.subrange(at, at + bytes.len()) == bytes
}

proof fn lemma_files_grow(images: Seq<ImageInput>, i: int, before: Seq<u8>)
    requires
        0 <= i <= images.len(),
    ensures
        encode::image_files(images, i, before) matches Ok(files) ==> before.is_prefix_of(files),
    decreases images.len() - i,
{
    if i < images.len() {
        let name = if images.len() == 1 {
            "image"@
        } else {
            "image[]"@
        };
        if let Ok(bytes) = encode::form_file(
            name,
            "image-"@ + text::decimal_text(i as nat) + ".png"@,
            images[i],
        ) {
            lemma_files_grow(images, i + 1, before + bytes);
            if let Ok(files) = encode::image_files(images, i, before) {
                assert(before =~= files.subrange(0, before.len() as int)) by {
                    assert((before + bytes) =~= files.subrange(0, (before + bytes).len() as int));
                    assert(before =~= (before + bytes).subrange(0, before.len() as int));
                }
            }
        }
    }
}

proof fn lemma_files_hold(images: Seq<ImageInput>, i: int, before: Seq<u8>, k: int, bytes: Seq<u8>)
    requires
        0 <= i <= k < images.len(),
        images[k] matches ImageInput::Base64 { data, .. } && encoding::base64_decoded(data@) == Ok::<
            Seq<u8>,
            Seq<char>,
        >(bytes),
    ensures
        encode::image_files(images, i, before) matches Ok(files) ==> holds(files, bytes),
    decreases k - i,
{
    let name = if images.len() == 1 {
        "image"@
    } else {
        "image[]"@
    };
    let filename = "image-"@ + text::decimal_text(i as nat) + ".png"@;
    if let Ok(part) = encode::form_file(name, filename, images[i]) {
        if i < k {
            lemma_files_hold(images, i + 1, before + part, k, bytes);
        } else {
            lemma_files_grow(images, i + 1, before + part);
            if let Ok(files) = encode::image_files(images, i, before) {
                if let ImageInput::Base64 { media_type, .. } = images[i] {
                    let head = vstd::utf8::encode_utf8(
                        "--"@ + encode::boundary() + "\r\nContent-Disposition: form-data; name=\""@
                            + name + "\"; filename=\""@ + filename + "\"\r\nContent-Type: "@
                            + media_type@ + "\r\n\r\n"@,
                    );
                    let tail = vstd::utf8::encode_utf8("\r\n"@);
                    assert(part == head + bytes + tail);
                    let front = before + head;
                    let at = front.len() as int;
                    assert((before + part).subrange(at, at + bytes.len()) =~= bytes);
                    assert(files.subrange(at, at + bytes.len()) =~= (before + part).subrange(
                        at,
                        at + bytes.len(),
                    )) by {
                        assert((before + part) =~= files.subrange(0, (before + part).len() as int));
                        assert forall|j: int| at <= j < at + bytes.len() implies files[j] == (before
                            + part)[j] by {
                            assert(files.subrange(0, (before + part).len() as int)[j]
                                == files[j]);
                        }
                    }
                    assert(holds_at(files, bytes, at));
                }
            }
        }
    }
}

/// The form of an edit holds the bytes of every image that is to be edited, and it is sent
/// to the edits of the route as a form.
pub proof fn an_edit_holds_every_image(
    edit: ImageEditRequest,
    model: ImageModelProfile,
    route: ImageRouteConfig,
    k: int,
    bytes: Seq<u8>,
)
    requires
        0 <= k < edit.images@.len(),
        edit.images@[k] matches ImageInput::Base64 { data, .. } && encoding::base64_decoded(data@)
            == Ok::<Seq<u8>, Seq<char>>(bytes),
    ensures
        encode::edit_request(edit, model, route) matches Ok(request) ==> {
            &&& request.method == "POST"@
            &&& request.url == text::without_trailing(route.base_url@, '/') + "/images/edits"@
            &&& request.headers == seq![
                ("content-type"@, "multipart/form-data; boundary="@ + encode::boundary()),
            ]
            &&& holds(request.body, bytes)
        },
{
    let fields = encode::edit_fields(edit, model);
    lemma_files_hold(edit.images@, 0, fields, k, bytes);
    if let Ok(files) = encode::image_files(edit.images@, 0, fields) {
        let at = choose|at: int| #[trigger] holds_at(files, bytes, at);
        if let Ok(form) = encode::edit_form(edit, model) {
            assert(files =~= form.subrange(0, files.len() as int));
            assert(form.subrange(at, at + bytes.len()) =~= files.subrange(at, at + bytes.len()));
            assert(holds_at(form, bytes, at));
        }
    }
}

proof fn lemma_options_grow(options: Entries, i: int, before: Seq<u8>)
    requires
        0 <= i <= options.len(),
    ensures
        before.is_prefix_of(encode::option_fields(options, i, before)),
    decreases options.len() - i,
{
    if i < options.len() {
        let all = encode::option_fields(options, i, before);
        let next = before + encode::form_field(
            options[i].0,
            encode::option_text(options[i].1),
        );
        lemma_options_grow(options, i + 1, next);
        assert(before =~= next.subrange(0, before.len() as int));
        assert(next =~= all.subrange(0, next.len() as int));
        assert(before =~= all.subrange(0, before.len() as int));
    }
}

/// The form of an edit begins with the model and the prompt, as fields of their own.
pub proof fn an_edit_says_what_to_do(edit: ImageEditRequest, model: ImageModelProfile)
    ensures
        encode::edit_form(edit, model) matches Ok(form) ==> {
            let field = |name: Seq<char>, value: Seq<char>|
                vstd::utf8::encode_utf8(
                    "--"@ + encode::boundary() + "\r\nContent-Disposition: form-data; name=\""@
                        + name + "\"\r\n\r\n"@ + value + "\r\n"@,
                );
            (field("model"@, model.request_model@) + field("prompt"@, edit.prompt@)).is_prefix_of(
                form,
            )
        },
{
    let fields = encode::edit_fields(edit, model);
    let front = encode::form_field("model"@, model.request_model@) + encode::form_field(
        "prompt"@,
        edit.prompt@,
    );
    lemma_files_grow(edit.images@, 0, fields);
    let out = edit.output;
    let count = match out.count {
        Some(n) => Some(text::decimal_text(n as nat)),
        None => None,
    };
    let size = match out.size {
        Some(size) => Some(encode::size_text(size)),
        None => None,
    };
    let format = match out.format {
        Some(format) => Some(encode::format_text(format)),
        None => None,
    };
    let quality = match out.quality {
        Some(quality) => Some(encode::quality_text(quality)),
        None => None,
    };
    let fixed = front + encode::form_field_some("n"@, count) + encode::form_field_some(
        "size"@,
        size,
    ) + encode::form_field_some("output_format"@, format) + encode::form_field_some(
        "quality"@,
        quality,
    );
    lemma_options_grow(edit.provider_options.deep_view(), 0, fixed);
    assert(front =~= fixed.subrange(0, front.len() as int));
    if let Ok(form) = encode::edit_form(edit, model) {
        if let Ok(files) = encode::image_files(edit.images@, 0, fields) {
            assert(fixed =~= fields.subrange(0, fixed.len() as int));
            assert(fields =~= files.subrange(0, fields.len() as int));
            assert(files =~= form.subrange(0, files.len() as int));
            assert(front =~= fields.subrange(0, front.len() as int));
            assert(front =~= files.subrange(0, front.len() as int));
            assert(front =~= form.subrange(0, front.len() as int));
        }
    }
}

/// A request that is to be answered later is sent to the route's address for tasks, and
/// says so where the provider asks for it.
pub proof fn a_task_is_asked_for_where_tasks_are(
    req: ImageRequest,
    model: ImageModelProfile,
    route: ImageRouteConfig,
)
    ensures
        route.api == ImageApi::Qwen ==> (encode::endpoint(req, model, route, true) matches Ok(url)
            ==> (route.task_base_url matches Some(root) && url == text::without_trailing(
            root@,
            '/',
        ) + "/services/aigc/image-generation/generation"@)),
        route.api == ImageApi::Wan ==> (route.task_base_url matches Some(root) ==> encode::endpoint(
            req,
            model,
            route,
            true,
        ) == Ok::<Seq<char>, ImageErrorView>(
            text::without_trailing(root@, '/') + "/services/aigc/"@ + "image-generation"@
                + "/generation"@,
        )),
        route.api == ImageApi::Wan ==> encode::endpoint(req, model, route, false) == Ok::<
            Seq<char>,
            ImageErrorView,
        >(
            text::without_trailing(route.base_url@, '/') + "/services/aigc/"@
                + "multimodal-generation"@ + "/generation"@,
        ),
        route.api == ImageApi::Zai ==> encode::endpoint(req, model, route, true) == Ok::<
            Seq<char>,
            ImageErrorView,
        >(text::without_trailing(route.base_url@, '/') + "/"@ + "async/"@ + "images/generations"@),
        (route.api == ImageApi::Qwen || route.api == ImageApi::Wan) ==> (encode::encoded(
            req,
            model,
            route,
            true,
        ) matches Ok(request) ==> request.headers.contains(("X-DashScope-Async"@, "enable"@))),
        !(route.api == ImageApi::OpenAi && req.is_edit()) ==> (encode::encoded(
            req,
            model,
            route,
            false,
        ) matches Ok(request) ==> request.method == "POST"@ && request.headers == seq![
            ("content-type"@, "application/json"@),
        ]),
{
    let both = seq![("content-type"@, "application/json"@), ("X-DashScope-Async"@, "enable"@)];
    assert(both[1] == ("X-DashScope-Async"@, "enable"@));
}

/// A reply that says under a success of its own that it failed is an error, and one of
/// MiniMax that could not make every image is told to be partial.
#[verifier::spinoff_prover]
pub proof fn a_failure_within_a_reply_is_told(
    body: JsonView,
    status: u16,
    model: Seq<char>,
    profile: ProviderProfile,
)
    requires
        200 <= status < 300,
    ensures
        ({
            let code = json::member2(body, "base_resp"@, "status_code"@);
            let failed = json::str_in(json::member2(body, "metadata"@, "failed_count"@));
            &&& code is Some && json::i64_of(code->0) is Some && json::i64_of(code->0) != Some(0i64)
                ==> decode::response_json(status, Ok(body)) is Err
            &&& json::member(body, "code"@) is None && code is None ==> decode::response_json(
                status,
                Ok(body),
            ) == Ok::<JsonView, ImageErrorView>(body)
            &&& json::member(body, "code"@) is Some && json::member(body, "data"@) is None
                && json::member(body, "output"@) is None ==> decode::response_json(status, Ok(body)) is Err
            &&& decode::decoded(ImageApi::Minimax, body, model, profile) matches Ok(reply) ==> (
            reply.outcome == ImageOutcome::Partial <==> failed is Some && failed != Some("0"@))
        }),
{
    lemma_names();
}

/// The images of a task that is done are under `image_result`, in a list or in an object
/// that lists them.
#[verifier::spinoff_prover]
pub proof fn a_task_gives_its_results(entries: Entries, items: Seq<JsonView>)
    ensures
        json::entry(entries, "image_result"@) == Some(JsonView::Array(items)) ==> json::items_in(
            json::member(decode::task_result_body(JsonView::Object(entries)), "data"@),
        ) == items,
        json::entry(entries, "image_result"@) is None && json::entry(entries, "data"@) == Some(
            JsonView::Array(items),
        ) ==> json::items_in(
            json::member(decode::task_result_body(JsonView::Object(entries)), "data"@),
        ) == items,
        json::member2(JsonView::Object(entries), "image_result"@, "results"@) == Some(
            JsonView::Array(items),
        ) ==> json::items_in(
            json::member(decode::task_result_body(JsonView::Object(entries)), "data"@),
        ) == items,
{
    broadcast use json::entry_after_put;

    lemma_names();
}

proof fn lemma_all_in(
    profiles: Seq<ProviderProfile>,
    region: Region,
    requested: Seq<char>,
    p: int,
    m: int,
    before: Seq<(int, int)>,
)
    requires
        0 <= p < profiles.len(),
        0 <= m,
    ensures
        service::matches_in(profiles, region, requested, p, m, before) matches Ok(found) ==> {
            &&& found.len() >= before.len()
            &&& forall|k: int| 0 <= k < before.len() ==> #[trigger] found[k] == before[k]
            &&& forall|k: int|
                m <= k < profiles[p].images.models@.len() && service::model_matches(
                    profiles,
                    region,
                    profiles[p],
                    #[trigger] profiles[p].images.models@[k],
                    requested,
                ) ==> found.contains((p, k))
        },
    decreases profiles[p].images.models@.len() - m,
{
    let models = profiles[p].images.models@;
    if m < models.len() {
        if !service::model_matches(profiles, region, profiles[p], models[m], requested) {
            lemma_all_in(profiles, region, requested, p, m + 1, before);
        } else if service::route_named(profiles[p].images.routes@, models[m].route@, 0) is Some {
            let next = before.push((p, m));
            lemma_all_in(profiles, region, requested, p, m + 1, next);
            if let Ok(found) = service::matches_in(profiles, region, requested, p, m, before) {
                assert(found[before.len() as int] == next[before.len() as int]);
                assert forall|k: int| 0 <= k < before.len() implies #[trigger] found[k]
                    == before[k] by {
                    assert(next[k] == before[k]);
                }
            }
        }
    }
}

proof fn lemma_all(
    profiles: Seq<ProviderProfile>,
    region: Region,
    requested: Seq<char>,
    p: int,
    before: Seq<(int, int)>,
    pair: (int, int),
)
    requires
        0 <= p,
        answers(profiles, region, requested, pair),
    ensures
        service::candidates(profiles, region, requested, None, p, before) matches Ok(found) ==> {
            &&& found.len() >= before.len()
            &&& forall|k: int| 0 <= k < before.len() ==> #[trigger] found[k] == before[k]
            &&& p <= pair.0 ==> found.contains(pair)
        },
    decreases profiles.len() - p,
{
    if p < profiles.len() {
        if !profiles[p].serves(region) {
            lemma_all(profiles, region, requested, p + 1, before, pair);
        } else {
            lemma_all_in(profiles, region, requested, p, 0, before);
            if let Ok(next) = service::matches_in(profiles, region, requested, p, 0, before) {
                lemma_all(profiles, region, requested, p + 1, next, pair);
                if let Ok(found) = service::candidates(
                    profiles,
                    region,
                    requested,
                    None,
                    p,
                    before,
                ) {
                    assert forall|k: int| 0 <= k < before.len() implies #[trigger] found[k]
                        == before[k] by {
                        assert(next[k] == before[k]);
                    }
                    if pair.0 == p {
                        assert(service::model_matches(
                            profiles,
                            region,
                            profiles[p],
                            profiles[p].images.models@[pair.1],
                            requested,
                        ));
                        assert(next.contains((p, pair.1)));
                        let k = choose|k: int| 0 <= k < next.len() && next[k] == (p, pair.1);
                        assert(found[k] == pair);
                    }
                }
            }
        }
    }
}

/// A name is resolved only where one model goes by it: whatever else it names is the
/// same one.
pub proof fn a_name_is_resolved_to_one_model(
    profiles: Seq<ProviderProfile>,
    region: Region,
    requested: Seq<char>,
    other: (int, int),
)
    requires
        answers(profiles, region, requested, other),
    ensures
        service::resolved(profiles, region, requested, None) matches Ok(pair) ==> pair == other,
{
    lemma_all(profiles, region, requested, 0, seq![], other);
    if let Ok(found) = service::candidates(profiles, region, requested, None, 0, seq![]) {
        assert(found.contains(other));
        let k = choose|k: int| 0 <= k < found.len() && found[k] == other;
        assert(found[k] == other);
    }
}

/// A model goes by its own names, by the names that it is also known under, and by its
/// name on its connection.
pub proof fn a_model_goes_by_its_names(
    profiles: Seq<ProviderProfile>,
    region: Region,
    profile: ProviderProfile,
    model: ImageModelProfile,
)
    ensures
        service::model_matches(profiles, region, profile, model, model.display_model@),
        service::model_matches(profiles, region, profile, model, model.request_model@),
        service::model_matches(
            profiles,
            region,
            profile,
            model,
            profile.profile_name@ + "/"@ + model.display_model@,
        ),
{
}

/// A row of a listing is a model of a connection that is shown.
pub open spec fn lists(
    profiles: Seq<ProviderProfile>,
    region: Region,
    row: crate::protocol::ImageModelListingView,
) -> bool {
    exists|p: int, m: int| #[trigger] lists_at(profiles, region, row, p, m)
}

pub open spec fn lists_at(
    profiles: Seq<ProviderProfile>,
    region: Region,
    row: crate::protocol::ImageModelListingView,
    p: int,
    m: int,
) -> bool {
    &&& 0 <= p < profiles.len()
    &&& profiles[p].serves(region)
    &&& !profiles[p].connection.hidden
    &&& 0 <= m < profiles[p].images.models@.len()
    &&& !profiles[p].images.models@[m].hidden
    &&& row.profile_name == profiles[p].profile_name@
    &&& row.provider_id == profiles[p].provider_id@
    &&& row.display_model == profiles[p].images.models@[m].display_model@
    &&& row.request_model == profiles[p].images.models@[m].request_model@
    &&& row.capabilities == profiles[p].images.models@[m].capabilities
}

/// Every row of a listing is a model of a connection that is shown.
pub open spec fn all_listed(
    profiles: Seq<ProviderProfile>,
    region: Region,
    rows: Seq<crate::protocol::ImageModelListingView>,
) -> bool {
    forall|k: int| 0 <= k < rows.len() ==> lists(profiles, region, #[trigger] rows[k])
}

proof fn lemma_listed_in(
    profiles: Seq<ProviderProfile>,
    region: Region,
    p: int,
    m: int,
    before: Seq<crate::protocol::ImageModelListingView>,
)
    requires
        0 <= p < profiles.len(),
        0 <= m,
        profiles[p].serves(region),
        !profiles[p].connection.hidden,
        all_listed(profiles, region, before),
    ensures
        all_listed(profiles, region, service::listed_in(profiles[p], m, before)),
    decreases profiles[p].images.models@.len() - m,
{
    let models = profiles[p].images.models@;
    if m < models.len() {
        if models[m].hidden {
            lemma_listed_in(profiles, region, p, m + 1, before);
        } else {
            let row = crate::protocol::ImageModelListingView {
                profile_name: profiles[p].profile_name@,
                provider_id: profiles[p].provider_id@,
                display_model: models[m].display_model@,
                request_model: models[m].request_model@,
                capabilities: models[m].capabilities,
            };
            assert(lists_at(profiles, region, row, p, m));
            assert(lists(profiles, region, row));
            lemma_listed_in(profiles, region, p, m + 1, before.push(row));
        }
    }
}

/// What is listed is what is shown: no hidden model, and none of a hidden connection or of
/// one that does not serve the region.
pub proof fn a_hidden_model_is_not_listed(
    profiles: Seq<ProviderProfile>,
    region: Region,
    p: int,
    before: Seq<crate::protocol::ImageModelListingView>,
)
    requires
        0 <= p,
        all_listed(profiles, region, before),
    ensures
        all_listed(profiles, region, service::listed(profiles, region, p, before)),
    decreases profiles.len() - p,
{
    if p < profiles.len() {
        if profiles[p].serves(region) && !profiles[p].connection.hidden {
            lemma_listed_in(profiles, region, p, 0, before);
            a_hidden_model_is_not_listed(
                profiles,
                region,
                p + 1,
                service::listed_in(profiles[p], 0, before),
            );
        } else {
            a_hidden_model_is_not_listed(profiles, region, p + 1, before);
        }
    }
}

/// A task is followed on the connection, the route and the account that it was given on,
/// under the id that the provider gave it.
pub proof fn a_task_is_kept_with_its_place(
    id: Seq<char>,
    profile: ProviderProfile,
    model: ImageModelProfile,
    fingerprint: Seq<char>,
    account: Seq<char>,
)
    ensures
        ({
            let task = service::submitted(id, profile, model, fingerprint, account);
            &&& task.provider_task_id == id
            &&& task.profile_name == profile.profile_name@
            &&& task.provider_id == profile.provider_id@
            &&& task.route == model.route@
            &&& task.request_model == model.request_model@
            &&& task.endpoint_fingerprint == fingerprint
            &&& task.account_scope == account
        }),
{
}

/// A task needs an account to be followed on.
pub proof fn a_task_needs_an_account(
    req: ImageRequest,
    model: ImageModelProfile,
    route: ImageRouteConfig,
    account: Option<Seq<char>>,
)
    ensures
        service::call_error(req, model, route, account, true) is None ==> account is Some
            && account->0.len() > 0 && validate::request_error(req, model, route, true) is None,
        service::call_error(req, model, route, account, false) is None <==> validate::request_error(
            req,
            model,
            route,
            false,
        ) is None,
{
}

/// A tier of resolution that is let through is one of those that there are, and a size in
/// pixels is let through only where the route takes pixels.
#[verifier::spinoff_prover]
pub proof fn a_tier_is_one_of_those_there_are(name: Seq<char>)
    ensures
        validate::known_tier(name) <==> name == "1K"@ || name == "2K"@ || name == "4K"@,
{
}

/// A setting of the output that is let through is one that the route has a word for.
pub proof fn a_setting_is_one_that_the_route_takes(
    req: ImageRequest,
    model: ImageModelProfile,
    route: ImageRouteConfig,
    asynchronous: bool,
)
    ensures
        validate::request_error(req, model, route, asynchronous) is None ==> {
            let out = req.wanted();
            let api = route.api;
            &&& out.aspect_ratio is Some ==> api == ImageApi::Gemini || api == ImageApi::Xai || api
                == ImageApi::Minimax || api == ImageApi::OpenRouter
            &&& out.quality is Some ==> api == ImageApi::OpenAi || api == ImageApi::Xai || api
                == ImageApi::Zai || api == ImageApi::OpenRouter
            &&& out.format is Some ==> api == ImageApi::OpenAi || api == ImageApi::OpenRouter
        },
{
}

/// A MiniMax request shows each image as a character to keep, in order.
#[verifier::spinoff_prover]
pub proof fn a_character_is_shown_as_one(uris: Seq<Seq<char>>, i: int)
    requires
        0 <= i < uris.len(),
    ensures
        ({
            let items = encode::character_items(uris);
            &&& items.len() == uris.len()
            &&& json::str_at(items[i], "type"@) == Some("character"@)
            &&& json::str_at(items[i], "image_file"@) == Some(uris[i])
        }),
{
    broadcast use json::entry_after_put;

    lemma_names();
}

/// A Gemini request asks for an image, in the shape and of the size that were asked for.
#[verifier::spinoff_prover]
#[verifier::rlimit(40)]
pub proof fn a_gemini_request_asks_for_its_shape(parts: Seq<JsonView>, common: Entries)
    ensures
        ({
            let body = JsonView::Object(encode::gemini_body(parts, common));
            let config = json::at(json::at(body, "generationConfig"@), "imageConfig"@);
            &&& json::entry(common, "aspect_ratio"@) matches Some(ratio) ==> json::member(
                config,
                "aspectRatio"@,
            ) == Some(ratio)
            &&& json::entry(common, "size"@) matches Some(size) ==> json::member(
                config,
                "imageSize"@,
            ) == Some(size)
            &&& json::member2(body, "generationConfig"@, "responseModalities"@) == Some(
                JsonView::Array(seq![JsonView::Str("IMAGE"@)]),
            )
        }),
{
    broadcast use json::entry_after_put;

    lemma_names();
    json::without_keeps_other_keys(common, "aspect_ratio"@, "size"@);
    let ratio = json::put_some(seq![], "aspectRatio"@, json::entry(common, "aspect_ratio"@));
    let sized = json::put_some(
        ratio,
        "imageSize"@,
        json::entry(json::without(common, "aspect_ratio"@), "size"@),
    );
    if json::entry(common, "aspect_ratio"@) is Some || json::entry(common, "size"@) is Some {
        if sized.len() == 0 {
            assert(json::entry(sized, "aspectRatio"@) is None);
            assert(json::entry(sized, "imageSize"@) is None);
        }
    }
}

/// The names on the wire, told apart.
#[verifier::spinoff_prover]
proof fn lemma_names()
    ensures
        "/"@.len() == 1,
        "0"@.len() == 1,
        ":"@.len() == 1,
        "n"@.len() == 1,
        "x"@.len() == 1,
        "/"@[0] == '/',
        "0"@[0] == '0',
        ":"@[0] == ':',
        "n"@[0] == 'n',
        "x"@[0] == 'x',
        "--"@.len() == 2,
        "1K"@.len() == 2,
        "2K"@.len() == 2,
        "4K"@.len() == 2,
        "hd"@.len() == 2,
        "id"@.len() == 2,
        "--"@[0] == '-',
        "1K"@[0] == '1',
        "2K"@[0] == '2',
        "4K"@[0] == '4',
        "hd"@[0] == 'h',
        "id"@[0] == 'i',
        "GET"@.len() == 3,
        "low"@.len() == 3,
        "png"@.len() == 3,
        "url"@.len() == 3,
        "GET"@[0] == 'G',
        "low"@[0] == 'l',
        "png"@[0] == 'p',
        "url"@[0] == 'u',
        ".png"@.len() == 4,
        "FAIL"@.len() == 4,
        "POST"@.len() == 4,
        "auto"@.len() == 4,
        "code"@.len() == 4,
        "data"@.len() == 4,
        "high"@.len() == 4,
        "http"@.len() == 4,
        "jpeg"@.len() == 4,
        "mask"@.len() == 4,
        "role"@.len() == 4,
        "seed"@.len() == 4,
        "size"@.len() == 4,
        "text"@.len() == 4,
        "type"@.len() == 4,
        "user"@.len() == 4,
        "webp"@.len() == 4,
        ".png"@[0] == '.',
        "FAIL"@[0] == 'F',
        "POST"@[0] == 'P',
        "auto"@[0] == 'a',
        "code"@[0] == 'c',
        "data"@[0] == 'd',
        "high"@[0] == 'h',
        "http"@[0] == 'h',
        "jpeg"@[0] == 'j',
        "mask"@[0] == 'm',
        "role"@[0] == 'r',
        "seed"@[0] == 's',
        "size"@[0] == 's',
        "text"@[0] == 't',
        "type"@[0] == 't',
        "user"@[0] == 'u',
        "webp"@[0] == 'w',
        ".png"@[1] == 'p',
        "FAIL"@[1] == 'A',
        "POST"@[1] == 'O',
        "auto"@[1] == 'u',
        "code"@[1] == 'o',
        "data"@[1] == 'a',
        "high"@[1] == 'i',
        "http"@[1] == 't',
        "jpeg"@[1] == 'p',
        "mask"@[1] == 'a',
        "role"@[1] == 'o',
        "seed"@[1] == 'e',
        "size"@[1] == 'i',
        "text"@[1] == 'e',
        "type"@[1] == 'y',
        "user"@[1] == 's',
        "webp"@[1] == 'e',
        "IMAGE"@.len() == 5,
        "data:"@.len() == 5,
        "error"@.len() == 5,
        "https"@.len() == 5,
        "image"@.len() == 5,
        "input"@.len() == 5,
        "model"@.len() == 5,
        "parts"@.len() == 5,
        "usage"@.len() == 5,
        "width"@.len() == 5,
        "IMAGE"@[0] == 'I',
        "data:"@[0] == 'd',
        "error"@[0] == 'e',
        "https"@[0] == 'h',
        "image"@[0] == 'i',
        "input"@[0] == 'i',
        "model"@[0] == 'm',
        "parts"@[0] == 'p',
        "usage"@[0] == 'u',
        "width"@[0] == 'w',
        "IMAGE"@[1] == 'M',
        "data:"@[1] == 'a',
        "error"@[1] == 'r',
        "https"@[1] == 't',
        "image"@[1] == 'm',
        "input"@[1] == 'n',
        "model"@[1] == 'o',
        "parts"@[1] == 'a',
        "usage"@[1] == 's',
        "width"@[1] == 'i',
        "FAILED"@.len() == 6,
        "SAFETY"@.len() == 6,
        "async/"@.len() == 6,
        "base64"@.len() == 6,
        "enable"@.len() == 6,
        "height"@.len() == 6,
        "image-"@.len() == 6,
        "image/"@.len() == 6,
        "medium"@.len() == 6,
        "output"@.len() == 6,
        "prompt"@.len() == 6,
        "FAILED"@[0] == 'F',
        "SAFETY"@[0] == 'S',
        "async/"@[0] == 'a',
        "base64"@[0] == 'b',
        "enable"@[0] == 'e',
        "height"@[0] == 'h',
        "image-"@[0] == 'i',
        "image/"@[0] == 'i',
        "medium"@[0] == 'm',
        "output"@[0] == 'o',
        "prompt"@[0] == 'p',
        "FAILED"@[5] == 'D',
        "SAFETY"@[5] == 'Y',
        "async/"@[5] == '/',
        "base64"@[5] == '4',
        "enable"@[5] == 'e',
        "height"@[5] == 't',
        "image-"@[5] == '-',
        "image/"@[5] == '/',
        "medium"@[5] == 'm',
        "output"@[5] == 't',
        "prompt"@[5] == 't',
        "/images"@.len() == 7,
        "/tasks/"@.len() == 7,
        "EXPIRED"@.len() == 7,
        "PENDING"@.len() == 7,
        "RUNNING"@.len() == 7,
        "SUCCESS"@.len() == 7,
        "choices"@.len() == 7,
        "content"@.len() == 7,
        "fileUri"@.len() == 7,
        "http://"@.len() == 7,
        "image[]"@.len() == 7,
        "message"@.len() == 7,
        "quality"@.len() == 7,
        "results"@.len() == 7,
        "task_id"@.len() == 7,
        "thought"@.len() == 7,
        "user_id"@.len() == 7,
        "/images"@[3] == 'a',
        "/tasks/"@[3] == 's',
        "EXPIRED"@[3] == 'I',
        "PENDING"@[3] == 'D',
        "RUNNING"@[3] == 'N',
        "SUCCESS"@[3] == 'C',
        "choices"@[3] == 'i',
        "content"@[3] == 't',
        "fileUri"@[3] == 'e',
        "http://"@[3] == 'p',
        "image[]"@[3] == 'g',
        "message"@[3] == 's',
        "quality"@[3] == 'l',
        "results"@[3] == 'u',
        "task_id"@[3] == 'k',
        "thought"@[3] == 'u',
        "user_id"@[3] == 'r',
        "/images"@[0] == '/',
        "/tasks/"@[0] == '/',
        "EXPIRED"@[0] == 'E',
        "PENDING"@[0] == 'P',
        "RUNNING"@[0] == 'R',
        "SUCCESS"@[0] == 'S',
        "choices"@[0] == 'c',
        "content"@[0] == 'c',
        "fileUri"@[0] == 'f',
        "http://"@[0] == 'h',
        "image[]"@[0] == 'i',
        "message"@[0] == 'm',
        "quality"@[0] == 'q',
        "results"@[0] == 'r',
        "task_id"@[0] == 't',
        "thought"@[0] == 't',
        "user_id"@[0] == 'u',
        "/models/"@.len() == 8,
        ";base64,"@.len() == 8,
        "CANCELED"@.len() == 8,
        "b64_json"@.len() == 8,
        "contents"@.len() == 8,
        "fileData"@.len() == 8,
        "https://"@.len() == 8,
        "mask.png"@.len() == 8,
        "messages"@.len() == 8,
        "metadata"@.len() == 8,
        "mimeType"@.len() == 8,
        "provider"@.len() == 8,
        "/models/"@[5] == 'l',
        ";base64,"@[5] == '6',
        "CANCELED"@[5] == 'L',
        "b64_json"@[5] == 's',
        "contents"@[5] == 'n',
        "fileData"@[5] == 'a',
        "https://"@[5] == ':',
        "mask.png"@[5] == 'p',
        "messages"@[5] == 'g',
        "metadata"@[5] == 'a',
        "mimeType"@[5] == 'y',
        "provider"@[5] == 'd',
        "/models/"@[0] == '/',
        ";base64,"@[0] == ';',
        "CANCELED"@[0] == 'C',
        "b64_json"@[0] == 'b',
        "contents"@[0] == 'c',
        "fileData"@[0] == 'f',
        "https://"@[0] == 'h',
        "mask.png"@[0] == 'm',
        "messages"@[0] == 'm',
        "metadata"@[0] == 'm',
        "mimeType"@[0] == 'm',
        "provider"@[0] == 'p',
        "CANCELLED"@.len() == 9,
        "SUCCEEDED"@.len() == 9,
        "base_resp"@.len() == 9,
        "character"@.len() == 9,
        "image/png"@.len() == 9,
        "imageSize"@.len() == 9,
        "image_url"@.len() == 9,
        "mime_type"@.len() == 9,
        "watermark"@.len() == 9,
        "CANCELLED"@[5] == 'L',
        "SUCCEEDED"@[5] == 'E',
        "base_resp"@[5] == 'r',
        "character"@[5] == 'c',
        "image/png"@[5] == '/',
        "imageSize"@[5] == 'S',
        "image_url"@[5] == '_',
        "mime_type"@[5] == 't',
        "watermark"@[5] == 'm',
        "PROCESSING"@.len() == 10,
        "background"@.len() == 10,
        "candidates"@.len() == 10,
        "image/jpeg"@.len() == 10,
        "image_file"@.len() == 10,
        "image_urls"@.len() == 10,
        "inlineData"@.len() == 10,
        "media_type"@.len() == 10,
        "moderation"@.len() == 10,
        "parameters"@.len() == 10,
        "request_id"@.len() == 10,
        "resolution"@.len() == 10,
        "status_msg"@.len() == 10,
        "PROCESSING"@[7] == 'I',
        "background"@[7] == 'u',
        "candidates"@[7] == 't',
        "image/jpeg"@[7] == 'p',
        "image_file"@[7] == 'i',
        "image_urls"@[7] == 'r',
        "inlineData"@[7] == 'a',
        "media_type"@[7] == 'y',
        "moderation"@[7] == 'i',
        "parameters"@[7] == 'e',
        "request_id"@[7] == '_',
        "resolution"@[7] == 'i',
        "status_msg"@[7] == 'm',
        "PROCESSING"@[0] == 'P',
        "background"@[0] == 'b',
        "candidates"@[0] == 'c',
        "image/jpeg"@[0] == 'i',
        "image_file"@[0] == 'i',
        "image_urls"@[0] == 'i',
        "inlineData"@[0] == 'i',
        "media_type"@[0] == 'm',
        "moderation"@[0] == 'm',
        "parameters"@[0] == 'p',
        "request_id"@[0] == 'r',
        "resolution"@[0] == 'r',
        "status_msg"@[0] == 's',
        "/generation"@.len() == 11,
        "aspectRatio"@.len() == 11,
        "blockReason"@.len() == 11,
        "imageConfig"@.len() == 11,
        "status_code"@.len() == 11,
        "task_status"@.len() == 11,
        "/generation"@[0] == '/',
        "aspectRatio"@[0] == 'a',
        "blockReason"@[0] == 'b',
        "imageConfig"@[0] == 'i',
        "status_code"@[0] == 's',
        "task_status"@[0] == 't',
        "IMAGE_SAFETY"@.len() == 12,
        "aspect_ratio"@.len() == 12,
        "content-type"@.len() == 12,
        "failed_count"@.len() == 12,
        "finishReason"@.len() == 12,
        "image_base64"@.len() == 12,
        "image_result"@.len() == 12,
        "modelVersion"@.len() == 12,
        "IMAGE_SAFETY"@[6] == 'S',
        "aspect_ratio"@[6] == '_',
        "content-type"@[6] == 't',
        "failed_count"@[6] == '_',
        "finishReason"@[6] == 'R',
        "image_base64"@[6] == 'b',
        "image_result"@[6] == 'r',
        "modelVersion"@[6] == 'e',
        "IMAGE_SAFETY"@[0] == 'I',
        "aspect_ratio"@[0] == 'a',
        "content-type"@[0] == 'c',
        "failed_count"@[0] == 'f',
        "finishReason"@[0] == 'f',
        "image_base64"@[0] == 'i',
        "image_result"@[0] == 'i',
        "modelVersion"@[0] == 'm',
        "/images/edits"@.len() == 13,
        "output_format"@.len() == 13,
        "prompt_extend"@.len() == 13,
        "thinking_mode"@.len() == 13,
        "usageMetadata"@.len() == 13,
        "/images/edits"@[0] == '/',
        "output_format"@[0] == 'o',
        "prompt_extend"@[0] == 'p',
        "thinking_mode"@[0] == 't',
        "usageMetadata"@[0] == 'u',
        "/async-result/"@.len() == 14,
        "promptFeedback"@.len() == 14,
        "revised_prompt"@.len() == 14,
        "/async-result/"@[0] == '/',
        "promptFeedback"@[0] == 'p',
        "revised_prompt"@[0] == 'r',
        "/services/aigc/"@.len() == 15,
        "enable_thinking"@.len() == 15,
        "negative_prompt"@.len() == 15,
        "response_format"@.len() == 15,
        "/services/aigc/"@[0] == '/',
        "enable_thinking"@[0] == 'e',
        "negative_prompt"@[0] == 'n',
        "response_format"@[0] == 'r',
        ":generateContent"@.len() == 16,
        "application/json"@.len() == 16,
        "generationConfig"@.len() == 16,
        "image-generation"@.len() == 16,
        "input_references"@.len() == 16,
        "prompt_optimizer"@.len() == 16,
        ":generateContent"@[1] == 'g',
        "application/json"@[1] == 'p',
        "generationConfig"@[1] == 'e',
        "image-generation"@[1] == 'm',
        "input_references"@[1] == 'n',
        "prompt_optimizer"@[1] == 'r',
        "/image_generation"@.len() == 17,
        "X-DashScope-Async"@.len() == 17,
        "subject_reference"@.len() == 17,
        "/image_generation"@[0] == '/',
        "X-DashScope-Async"@[0] == 'X',
        "subject_reference"@[0] == 's',
        "PROHIBITED_CONTENT"@.len() == 18,
        "images/generations"@.len() == 18,
        "output_compression"@.len() == 18,
        "prompt_extend_mode"@.len() == 18,
        "responseModalities"@.len() == 18,
        "PROHIBITED_CONTENT"@[0] == 'P',
        "images/generations"@[0] == 'i',
        "output_compression"@[0] == 'o',
        "prompt_extend_mode"@[0] == 'p',
        "responseModalities"@[0] == 'r',
        "/images/generations"@.len() == 19,
        "multimodal-generation"@.len() == 21,
        "lingxi-image-edit-0f731eab"@.len() == 26,
        "multipart/form-data; boundary="@.len() == 30,
        "/services/aigc/image-generation/generation"@.len() == 42,
{
    reveal_strlit("--");
    reveal_strlit(".png");
    reveal_strlit("/");
    reveal_strlit("/async-result/");
    reveal_strlit("/generation");
    reveal_strlit("/image_generation");
    reveal_strlit("/images");
    reveal_strlit("/images/edits");
    reveal_strlit("/images/generations");
    reveal_strlit("/models/");
    reveal_strlit("/services/aigc/");
    reveal_strlit("/services/aigc/image-generation/generation");
    reveal_strlit("/tasks/");
    reveal_strlit("0");
    reveal_strlit("1K");
    reveal_strlit("2K");
    reveal_strlit("4K");
    reveal_strlit(":");
    reveal_strlit(":generateContent");
    reveal_strlit(";base64,");
    reveal_strlit("CANCELED");
    reveal_strlit("CANCELLED");
    reveal_strlit("EXPIRED");
    reveal_strlit("FAIL");
    reveal_strlit("FAILED");
    reveal_strlit("GET");
    reveal_strlit("IMAGE");
    reveal_strlit("IMAGE_SAFETY");
    reveal_strlit("PENDING");
    reveal_strlit("POST");
    reveal_strlit("PROCESSING");
    reveal_strlit("PROHIBITED_CONTENT");
    reveal_strlit("RUNNING");
    reveal_strlit("SAFETY");
    reveal_strlit("SUCCEEDED");
    reveal_strlit("SUCCESS");
    reveal_strlit("X-DashScope-Async");
    reveal_strlit("application/json");
    reveal_strlit("aspectRatio");
    reveal_strlit("aspect_ratio");
    reveal_strlit("async/");
    reveal_strlit("auto");
    reveal_strlit("b64_json");
    reveal_strlit("background");
    reveal_strlit("base64");
    reveal_strlit("base_resp");
    reveal_strlit("blockReason");
    reveal_strlit("candidates");
    reveal_strlit("character");
    reveal_strlit("choices");
    reveal_strlit("code");
    reveal_strlit("content");
    reveal_strlit("content-type");
    reveal_strlit("contents");
    reveal_strlit("data");
    reveal_strlit("data:");
    reveal_strlit("enable");
    reveal_strlit("enable_thinking");
    reveal_strlit("error");
    reveal_strlit("failed_count");
    reveal_strlit("fileData");
    reveal_strlit("fileUri");
    reveal_strlit("finishReason");
    reveal_strlit("generationConfig");
    reveal_strlit("hd");
    reveal_strlit("height");
    reveal_strlit("high");
    reveal_strlit("http");
    reveal_strlit("http://");
    reveal_strlit("https");
    reveal_strlit("https://");
    reveal_strlit("id");
    reveal_strlit("image");
    reveal_strlit("image-");
    reveal_strlit("image-generation");
    reveal_strlit("image/");
    reveal_strlit("image/jpeg");
    reveal_strlit("image/png");
    reveal_strlit("imageConfig");
    reveal_strlit("imageSize");
    reveal_strlit("image[]");
    reveal_strlit("image_base64");
    reveal_strlit("image_file");
    reveal_strlit("image_result");
    reveal_strlit("image_url");
    reveal_strlit("image_urls");
    reveal_strlit("images/generations");
    reveal_strlit("inlineData");
    reveal_strlit("input");
    reveal_strlit("input_references");
    reveal_strlit("jpeg");
    reveal_strlit("lingxi-image-edit-0f731eab");
    reveal_strlit("low");
    reveal_strlit("mask");
    reveal_strlit("mask.png");
    reveal_strlit("media_type");
    reveal_strlit("medium");
    reveal_strlit("message");
    reveal_strlit("messages");
    reveal_strlit("metadata");
    reveal_strlit("mimeType");
    reveal_strlit("mime_type");
    reveal_strlit("model");
    reveal_strlit("modelVersion");
    reveal_strlit("moderation");
    reveal_strlit("multimodal-generation");
    reveal_strlit("multipart/form-data; boundary=");
    reveal_strlit("n");
    reveal_strlit("negative_prompt");
    reveal_strlit("output");
    reveal_strlit("output_compression");
    reveal_strlit("output_format");
    reveal_strlit("parameters");
    reveal_strlit("parts");
    reveal_strlit("png");
    reveal_strlit("prompt");
    reveal_strlit("promptFeedback");
    reveal_strlit("prompt_extend");
    reveal_strlit("prompt_extend_mode");
    reveal_strlit("prompt_optimizer");
    reveal_strlit("provider");
    reveal_strlit("quality");
    reveal_strlit("request_id");
    reveal_strlit("resolution");
    reveal_strlit("responseModalities");
    reveal_strlit("response_format");
    reveal_strlit("results");
    reveal_strlit("revised_prompt");
    reveal_strlit("role");
    reveal_strlit("seed");
    reveal_strlit("size");
    reveal_strlit("status_code");
    reveal_strlit("status_msg");
    reveal_strlit("subject_reference");
    reveal_strlit("task_id");
    reveal_strlit("task_status");
    reveal_strlit("text");
    reveal_strlit("thinking_mode");
    reveal_strlit("thought");
    reveal_strlit("type");
    reveal_strlit("url");
    reveal_strlit("usage");
    reveal_strlit("usageMetadata");
    reveal_strlit("user");
    reveal_strlit("user_id");
    reveal_strlit("watermark");
    reveal_strlit("webp");
    reveal_strlit("width");
    reveal_strlit("x");
}

} // verus!
