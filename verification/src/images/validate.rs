//! What a request may ask of a model on its route, checked before anything is sent.

use crate::encoding;
use crate::images::error::{self, ImageError, ImageErrorView};
use crate::json::{Json, JsonView};
use crate::protocol::{
    ImageApi, ImageCapabilities, ImageInput, ImageMask, ImageModelProfile, ImageOutput,
    ImageQuality, ImageReference, ImageReferenceKind, ImageRequest, ImageRouteConfig, ImageSize,
    LlmError, LlmErrorView,
};
use crate::text;
use crate::views;
use vstd::prelude::*;
use vstd::utf8::encode_utf8;

verus! {

/// The Base64 characters that 64 MiB take, with room for padding.
pub const MAX_INLINE_IMAGE: usize = 89_478_489;

/// The options that a route passes through.
pub open spec fn option_allowed(api: ImageApi, key: Seq<char>) -> bool {
    match api {
        ImageApi::OpenAi => key == "background"@ || key == "moderation"@ || key
            == "output_compression"@,
        ImageApi::Gemini => false,
        ImageApi::Qwen => key == "negative_prompt"@ || key == "seed"@ || key == "prompt_extend"@
            || key == "prompt_extend_mode"@ || key == "enable_thinking"@ || key == "watermark"@,
        ImageApi::Wan => key == "watermark"@ || key == "thinking_mode"@,
        ImageApi::Xai => key == "resolution"@,
        ImageApi::Minimax => key == "seed"@ || key == "prompt_optimizer"@ || key
            == "response_format"@,
        ImageApi::Zai => key == "user_id"@,
        ImageApi::OpenRouter => key == "seed"@ || key == "background"@ || key
            == "output_compression"@ || key == "provider"@,
    }
}

fn is_option_allowed(api: ImageApi, key: &str) -> (result: bool)
    ensures
        result == option_allowed(api, key@),
{
    match api {
        ImageApi::OpenAi => text::same(key, "background") || text::same(key, "moderation")
            || text::same(key, "output_compression"),
        ImageApi::Gemini => false,
        ImageApi::Qwen => text::same(key, "negative_prompt") || text::same(key, "seed")
            || text::same(key, "prompt_extend") || text::same(key, "prompt_extend_mode")
            || text::same(key, "enable_thinking") || text::same(key, "watermark"),
        ImageApi::Wan => text::same(key, "watermark") || text::same(key, "thinking_mode"),
        ImageApi::Xai => text::same(key, "resolution"),
        ImageApi::Minimax => text::same(key, "seed") || text::same(key, "prompt_optimizer")
            || text::same(key, "response_format"),
        ImageApi::Zai => text::same(key, "user_id"),
        ImageApi::OpenRouter => text::same(key, "seed") || text::same(key, "background")
            || text::same(key, "output_compression") || text::same(key, "provider"),
    }
}

pub open spec fn ratio_supported(api: ImageApi) -> bool {
    api == ImageApi::Gemini || api == ImageApi::Xai || api == ImageApi::Minimax || api
        == ImageApi::OpenRouter
}

pub open spec fn quality_supported(api: ImageApi) -> bool {
    api == ImageApi::OpenAi || api == ImageApi::Xai || api == ImageApi::Zai || api
        == ImageApi::OpenRouter
}

pub open spec fn format_supported(api: ImageApi) -> bool {
    api == ImageApi::OpenAi || api == ImageApi::OpenRouter
}

/// The first option that the route does not pass through.
pub open spec fn refused_option(
    api: ImageApi,
    options: Seq<(Seq<char>, JsonView)>,
    i: int,
) -> Option<Seq<char>>
    decreases options.len() - i,
{
    if i < 0 || i >= options.len() {
        None
    } else if !option_allowed(api, options[i].0) {
        Some(options[i].0)
    } else {
        refused_option(api, options, i + 1)
    }
}

/// What the request asks of the model, against what the model can do.
pub open spec fn capability_error(
    req: ImageRequest,
    caps: ImageCapabilities,
    asynchronous: bool,
) -> Option<ImageErrorView> {
    let inputs = req.inputs().len();
    let output = req.wanted();
    if text::blank(req.prompt_text()) {
        Some(error::invalid_view("image prompt is empty"@))
    } else if req.is_edit() && (inputs == 0 || !caps.editing) {
        Some(error::unsupported_view("model does not support image editing"@))
    } else if !req.is_edit() && inputs == 0 && !caps.text_to_image {
        Some(error::unsupported_view("model does not support text-to-image"@))
    } else if !req.is_edit() && inputs > 0 && !caps.reference_generation {
        Some(error::unsupported_view("model does not support reference generation"@))
    } else if req.mask_of() is Some && !caps.mask_editing {
        Some(error::unsupported_view("model does not support mask editing"@))
    } else if asynchronous && !(if req.is_edit() {
        caps.async_edit
    } else {
        caps.async_generate
    }) {
        Some(error::unsupported_view("model has no native asynchronous image task endpoint"@))
    } else if caps.max_inputs matches Some(max) && inputs > max {
        Some(error::invalid_view("too many input images"@))
    } else if output.count matches Some(count) && (count == 0 || (caps.max_outputs matches Some(max)
        && count > max)) {
        Some(error::invalid_view("image count is outside the model limit"@))
    } else {
        None
    }
}

/// Whether the output that is asked for makes sense in itself.
pub open spec fn output_error(output: ImageOutput) -> Option<ImageErrorView> {
    if output.aspect_ratio matches Some(ratio) && (ratio.0 == 0 || ratio.1 == 0) {
        Some(error::invalid_view("image aspect ratio must be positive"@))
    } else if output.aspect_ratio is Some && output.size matches Some(ImageSize::Pixels { .. }) {
        Some(
            error::invalid_view(
                "explicit pixel dimensions cannot be combined with an aspect ratio"@,
            ),
        )
    } else if output.size matches Some(ImageSize::Pixels { width, height }) && (width == 0 || height
        == 0) {
        Some(error::invalid_view("image size must be positive"@))
    } else {
        None
    }
}

/// Whether the mask fits the inputs and the route.
pub open spec fn mask_index_error(req: ImageRequest, api: ImageApi) -> Option<ImageErrorView> {
    match req.mask_of() {
        None => None,
        Some(mask) => if mask.image_index >= req.inputs().len() {
            Some(error::invalid_view("image mask index is outside the input list"@))
        } else if api == ImageApi::OpenAi && mask.image_index != 0 {
            Some(error::unsupported_view("OpenAI masks apply only to the first input image"@))
        } else {
            None
        },
    }
}

/// Whether the route can express the output that is asked for.
pub open spec fn route_output_error(output: ImageOutput, api: ImageApi) -> Option<ImageErrorView> {
    if output.aspect_ratio is Some && !ratio_supported(api) {
        Some(error::unsupported_view("aspect ratio is unsupported on this image route"@))
    } else if output.size is Some && api == ImageApi::Xai {
        Some(error::unsupported_view("size is unsupported on this image route"@))
    } else if output.count is Some && (api == ImageApi::Gemini || api == ImageApi::Zai) {
        Some(error::unsupported_view("image count is unsupported on this image route"@))
    } else if output.format is Some && !format_supported(api) {
        Some(error::unsupported_view("output format is unsupported on this image route"@))
    } else if output.quality is Some && !quality_supported(api) {
        Some(error::unsupported_view("quality is unsupported on this image route"@))
    } else {
        None
    }
}

/// Whether the route takes this kind of request.
pub open spec fn route_request_error(req: ImageRequest, api: ImageApi) -> Option<ImageErrorView> {
    let quality = req.wanted().quality;
    if api == ImageApi::Minimax && req.is_edit() {
        Some(
            error::unsupported_view("MiniMax character references are generation, not editing"@),
        )
    } else if api == ImageApi::Minimax && (req matches ImageRequest::Generate(r)
        && !only_characters(r.references@)) {
        Some(error::unsupported_view("MiniMax supports character references only"@))
    } else if api == ImageApi::Zai && (req.is_edit() || req.inputs().len() > 0) {
        Some(error::unsupported_view("Z.AI image route accepts a text prompt only"@))
    } else if api == ImageApi::OpenAi && !req.is_edit() && req.inputs().len() > 0 {
        Some(error::unsupported_view("OpenAI reference images require edit()"@))
    } else if api == ImageApi::Zai && quality is Some && quality != Some(ImageQuality::High) {
        Some(error::unsupported_view("GLM-Image accepts only HD quality"@))
    } else if api == ImageApi::Xai && quality == Some(ImageQuality::High) {
        Some(error::unsupported_view("xAI image quality accepts low, medium, or auto"@))
    } else {
        None
    }
}

pub open spec fn only_characters(references: Seq<ImageReference>) -> bool {
    forall|i: int|
        0 <= i < references.len() ==> (#[trigger] references[i]).kind
            == ImageReferenceKind::Character
}

/// The resolution tiers that Gemini and Wan know.
pub open spec fn known_tier(name: Seq<char>) -> bool {
    name == "1K"@ || name == "2K"@ || name == "4K"@
}

/// Whether the route can express the size that is asked for.
pub open spec fn route_size_error(size: ImageSize, api: ImageApi) -> Option<ImageErrorView> {
    let tier = size is Tier;
    let auto = size is Auto;
    if (tier && (api == ImageApi::Minimax || api == ImageApi::Qwen || api == ImageApi::Zai || api
        == ImageApi::OpenAi)) || (auto && (api == ImageApi::Minimax || api == ImageApi::Zai || api
        == ImageApi::Wan)) {
        Some(error::unsupported_view("this image route cannot represent the selected size"@))
    } else if api == ImageApi::Gemini && size is Pixels {
        Some(error::unsupported_view("Gemini image size uses a resolution tier"@))
    } else if api == ImageApi::Gemini && (size matches ImageSize::Tier { name } && !known_tier(
        name@,
    )) {
        Some(error::unsupported_view("Gemini image size must be 1K, 2K, or 4K"@))
    } else if api == ImageApi::Wan && (size matches ImageSize::Tier { name } && !known_tier(name@)) {
        Some(error::unsupported_view("Wan image size must be 1K, 2K, or 4K"@))
    } else {
        None
    }
}

/// Letters, digits and the marks `/ + - .`, starting with `image/`.
pub open spec fn image_media_type(media_type: Seq<char>) -> bool {
    &&& "image/"@.is_prefix_of(media_type)
    &&& forall|i: int| 0 <= i < media_type.len() ==> media_char(#[trigger] media_type[i])
}

pub open spec fn media_char(c: char) -> bool {
    text::alphanumeric(c) || c == '/' || c == '+' || c == '-' || c == '.'
}

/// Whether an input is one that any route could use.
pub open spec fn input_error(input: ImageInput) -> Option<ImageErrorView> {
    match input {
        ImageInput::Url { url } => match encoding::url_parts(url@) {
            None => Some(error::invalid_view("invalid image URL"@)),
            Some(parts) => if (parts.scheme != "http"@ && parts.scheme != "https"@)
                || parts.host is None {
                Some(error::invalid_view("image URL must be HTTP or HTTPS"@))
            } else {
                None
            },
        },
        ImageInput::Base64 { media_type, data } => if !image_media_type(media_type@) {
            Some(error::invalid_view("invalid image media type"@))
        } else if encode_utf8(data@).len() > MAX_INLINE_IMAGE {
            Some(
                ImageErrorView::Llm(
                    LlmErrorView::RequestTooLarge { message: "inline image exceeds 64 MiB"@ },
                ),
            )
        } else {
            None
        },
        ImageInput::Attachment { attachment } => if !image_media_type(attachment.media_type@) {
            Some(error::invalid_view("invalid image attachment media type"@))
        } else {
            None
        },
    }
}

/// Whether the route takes the input, and any route could.
pub open spec fn route_input_error(
    input: ImageInput,
    api: ImageApi,
    editing: bool,
) -> Option<ImageErrorView> {
    if api == ImageApi::Gemini && input is Url {
        Some(error::unsupported_view("Gemini image inputs require Base64 or an attachment"@))
    } else if api == ImageApi::Minimax && input !is Url {
        Some(error::unsupported_view("MiniMax character reference requires a public URL"@))
    } else if api == ImageApi::OpenAi && editing && input is Url {
        Some(error::unsupported_view("OpenAI edit requires Base64 or an attachment"@))
    } else {
        input_error(input)
    }
}

/// The error of the first input that has one.
pub open spec fn inputs_error(
    inputs: Seq<ImageInput>,
    api: ImageApi,
    editing: bool,
    i: int,
) -> Option<ImageErrorView>
    decreases inputs.len() - i,
{
    if i < 0 || i >= inputs.len() {
        None
    } else if route_input_error(inputs[i], api, editing) is Some {
        route_input_error(inputs[i], api, editing)
    } else {
        inputs_error(inputs, api, editing, i + 1)
    }
}

pub open spec fn mask_source_error(mask: Option<ImageMask>) -> Option<ImageErrorView> {
    match mask {
        None => None,
        Some(mask) => if mask.source is Url {
            Some(error::unsupported_view("mask input requires Base64 or an attachment"@))
        } else {
            input_error(mask.source)
        },
    }
}

/// The first rule that the request breaks.
pub open spec fn request_error(
    req: ImageRequest,
    model: ImageModelProfile,
    route: ImageRouteConfig,
    asynchronous: bool,
) -> Option<ImageErrorView> {
    let api = route.api;
    let output = req.wanted();
    if capability_error(req, model.capabilities, asynchronous) is Some {
        capability_error(req, model.capabilities, asynchronous)
    } else if output_error(output) is Some {
        output_error(output)
    } else if mask_index_error(req, api) is Some {
        mask_index_error(req, api)
    } else if refused_option(api, req.options_view(), 0) is Some {
        Some(
            error::unsupported_view(
                "image option "@ + text::debug_text(refused_option(api, req.options_view(), 0)->0)
                    + " is not supported on this route"@,
            ),
        )
    } else if route_output_error(output, api) is Some {
        route_output_error(output, api)
    } else if route_request_error(req, api) is Some {
        route_request_error(req, api)
    } else if output.size matches Some(size) && route_size_error(size, api) is Some {
        route_size_error(output.size->0, api)
    } else if inputs_error(req.inputs(), api, req.is_edit(), 0) is Some {
        inputs_error(req.inputs(), api, req.is_edit(), 0)
    } else {
        mask_source_error(req.mask_of())
    }
}

/// The result of a check: its error, or nothing.
pub open spec fn outcome(error: Option<ImageErrorView>) -> Result<(), ImageErrorView> {
    match error {
        Some(error) => Err(error),
        None => Ok(()),
    }
}

fn check_capabilities(req: &ImageRequest, caps: &ImageCapabilities, asynchronous: bool) -> (result:
    Result<(), ImageError>)
    ensures
        views::res(result) == outcome(capability_error(*req, *caps, asynchronous)),
{
    let inputs = req.input_count();
    let output = req.output();
    let editing = matches!(req, ImageRequest::Edit(_));
    if text::is_blank(req.prompt()) {
        return Err(error::invalid("image prompt is empty"));
    }
    if editing {
        if inputs == 0 || !caps.editing {
            return Err(error::unsupported("model does not support image editing"));
        }
    } else if inputs == 0 {
        if !caps.text_to_image {
            return Err(error::unsupported("model does not support text-to-image"));
        }
    } else if !caps.reference_generation {
        return Err(error::unsupported("model does not support reference generation"));
    }
    if req.mask().is_some() && !caps.mask_editing {
        return Err(error::unsupported("model does not support mask editing"));
    }
    let has_tasks = if editing {
        caps.async_edit
    } else {
        caps.async_generate
    };
    if asynchronous && !has_tasks {
        return Err(
            error::unsupported("model has no native asynchronous image task endpoint"),
        );
    }
    if let Some(max) = caps.max_inputs {
        if inputs as u64 > max as u64 {
            return Err(error::invalid("too many input images"));
        }
    }
    if let Some(count) = output.count {
        let too_many = match caps.max_outputs {
            Some(max) => count > max,
            None => false,
        };
        if count == 0 || too_many {
            return Err(error::invalid("image count is outside the model limit"));
        }
    }
    Ok(())
}

fn check_output(output: &ImageOutput) -> (result: Result<(), ImageError>)
    ensures
        views::res(result) == outcome(output_error(*output)),
{
    if let Some((w, h)) = output.aspect_ratio {
        if w == 0 || h == 0 {
            return Err(error::invalid("image aspect ratio must be positive"));
        }
    }
    if let Some(ImageSize::Pixels { width, height }) = &output.size {
        if output.aspect_ratio.is_some() {
            return Err(
                error::invalid("explicit pixel dimensions cannot be combined with an aspect ratio"),
            );
        }
        if *width == 0 || *height == 0 {
            return Err(error::invalid("image size must be positive"));
        }
    }
    Ok(())
}

fn check_mask_index(req: &ImageRequest, api: ImageApi) -> (result: Result<(), ImageError>)
    ensures
        views::res(result) == outcome(mask_index_error(*req, api)),
{
    if let Some(mask) = req.mask() {
        if mask.image_index >= req.input_count() {
            return Err(error::invalid("image mask index is outside the input list"));
        }
        if api == ImageApi::OpenAi && mask.image_index != 0 {
            return Err(error::unsupported("OpenAI masks apply only to the first input image"));
        }
    }
    Ok(())
}

fn check_options(options: &Vec<(String, Json)>, api: ImageApi) -> (result: Result<(), ImageError>)
    ensures
        views::res(result) == outcome(
            match refused_option(api, options.deep_view(), 0) {
                Some(key) => Some(
                    error::unsupported_view(
                        "image option "@ + text::debug_text(key)
                            + " is not supported on this route"@,
                    ),
                ),
                None => None,
            },
        ),
{
    let mut i: usize = 0;
    while i < options.len()
        invariant
            i <= options.len(),
            refused_option(api, options.deep_view(), 0) == refused_option(
                api,
                options.deep_view(),
                i as int,
            ),
        decreases options.len() - i,
    {
        assert(options.deep_view()[i as int] == options@[i as int].deep_view());
        if !is_option_allowed(api, options[i].0.as_str()) {
            return Err(
                error::unsupported(
                    &text::cat3(
                        "image option ",
                        &text::debug(&options[i].0),
                        " is not supported on this route",
                    ),
                ),
            );
        }
        i = i + 1;
    }
    Ok(())
}

fn check_route_output(output: &ImageOutput, api: ImageApi) -> (result: Result<(), ImageError>)
    ensures
        views::res(result) == outcome(route_output_error(*output, api)),
{
    let supports_ratio = matches!(
        api,
        ImageApi::Gemini | ImageApi::Xai | ImageApi::Minimax | ImageApi::OpenRouter
    );
    let supports_count = !matches!(api, ImageApi::Gemini | ImageApi::Zai);
    let supports_format = matches!(api, ImageApi::OpenAi | ImageApi::OpenRouter);
    let supports_quality = matches!(
        api,
        ImageApi::OpenAi | ImageApi::Xai | ImageApi::Zai | ImageApi::OpenRouter
    );
    if output.aspect_ratio.is_some() && !supports_ratio {
        return Err(error::unsupported("aspect ratio is unsupported on this image route"));
    }
    if output.size.is_some() && api == ImageApi::Xai {
        return Err(error::unsupported("size is unsupported on this image route"));
    }
    if output.count.is_some() && !supports_count {
        return Err(error::unsupported("image count is unsupported on this image route"));
    }
    if output.format.is_some() && !supports_format {
        return Err(error::unsupported("output format is unsupported on this image route"));
    }
    if output.quality.is_some() && !supports_quality {
        return Err(error::unsupported("quality is unsupported on this image route"));
    }
    Ok(())
}

fn has_only_characters(references: &Vec<ImageReference>) -> (result: bool)
    ensures
        result == only_characters(references@),
{
    let mut i: usize = 0;
    while i < references.len()
        invariant
            i <= references.len(),
            forall|j: int|
                0 <= j < i ==> (#[trigger] references@[j]).kind == ImageReferenceKind::Character,
        decreases references.len() - i,
    {
        if references[i].kind != ImageReferenceKind::Character {
            return false;
        }
        i = i + 1;
    }
    true
}

fn check_route_request(req: &ImageRequest, api: ImageApi) -> (result: Result<(), ImageError>)
    ensures
        views::res(result) == outcome(route_request_error(*req, api)),
{
    let editing = matches!(req, ImageRequest::Edit(_));
    let inputs = req.input_count();
    let quality = req.output().quality;
    if api == ImageApi::Minimax {
        match req {
            ImageRequest::Edit(_) => return Err(
                error::unsupported("MiniMax character references are generation, not editing"),
            ),
            ImageRequest::Generate(r) => if !has_only_characters(&r.references) {
                return Err(error::unsupported("MiniMax supports character references only"));
            },
        }
    }
    if api == ImageApi::Zai && (editing || inputs > 0) {
        return Err(error::unsupported("Z.AI image route accepts a text prompt only"));
    }
    if api == ImageApi::OpenAi && !editing && inputs > 0 {
        return Err(error::unsupported("OpenAI reference images require edit()"));
    }
    if let Some(quality) = quality {
        if api == ImageApi::Zai && quality != ImageQuality::High {
            return Err(error::unsupported("GLM-Image accepts only HD quality"));
        }
        if api == ImageApi::Xai && quality == ImageQuality::High {
            return Err(error::unsupported("xAI image quality accepts low, medium, or auto"));
        }
    }
    Ok(())
}

fn is_known_tier(name: &str) -> (result: bool)
    ensures
        result == known_tier(name@),
{
    text::same(name, "1K") || text::same(name, "2K") || text::same(name, "4K")
}

fn check_route_size(size: &ImageSize, api: ImageApi) -> (result: Result<(), ImageError>)
    ensures
        views::res(result) == outcome(route_size_error(*size, api)),
{
    match size {
        ImageSize::Auto => if matches!(api, ImageApi::Minimax | ImageApi::Zai | ImageApi::Wan) {
            return Err(error::unsupported("this image route cannot represent the selected size"));
        },
        ImageSize::Pixels { .. } => if api == ImageApi::Gemini {
            return Err(error::unsupported("Gemini image size uses a resolution tier"));
        },
        ImageSize::Tier { name } => {
            if matches!(api, ImageApi::Minimax | ImageApi::Qwen | ImageApi::Zai | ImageApi::OpenAi) {
                return Err(
                    error::unsupported("this image route cannot represent the selected size"),
                );
            }
            if api == ImageApi::Gemini && !is_known_tier(name) {
                return Err(error::unsupported("Gemini image size must be 1K, 2K, or 4K"));
            }
            if api == ImageApi::Wan && !is_known_tier(name) {
                return Err(error::unsupported("Wan image size must be 1K, 2K, or 4K"));
            }
        },
    }
    Ok(())
}

fn is_image_media_type(media_type: &str) -> (result: bool)
    ensures
        result == image_media_type(media_type@),
{
    if !text::starts_with(media_type, "image/") {
        return false;
    }
    let cs = text::chars(media_type);
    let mut i: usize = 0;
    while i < cs.len()
        invariant
            i <= cs.len(),
            cs@ == media_type@,
            forall|j: int| 0 <= j < i ==> media_char(#[trigger] cs@[j]),
        decreases cs.len() - i,
    {
        let c = cs[i];
        if !(text::is_alphanumeric(c) || c == '/' || c == '+' || c == '-' || c == '.') {
            return false;
        }
        i = i + 1;
    }
    true
}

/// Whether an input is one that any route could use.
pub fn validate_input(input: &ImageInput) -> (result: Result<(), ImageError>)
    ensures
        views::res(result) == outcome(input_error(*input)),
{
    match input {
        ImageInput::Url { url } => {
            let parts = match encoding::parse_url(url) {
                Some(parts) => parts,
                None => return Err(error::invalid("invalid image URL")),
            };
            if !(text::same(&parts.scheme, "http") || text::same(&parts.scheme, "https"))
                || parts.host.is_none() {
                return Err(error::invalid("image URL must be HTTP or HTTPS"));
            }
        },
        ImageInput::Base64 { media_type, data } => {
            if !is_image_media_type(media_type) {
                return Err(error::invalid("invalid image media type"));
            }
            if data.as_str().as_bytes().len() > MAX_INLINE_IMAGE {
                return Err(
                    ImageError::Llm(
                        LlmError::RequestTooLarge {
                            message: "inline image exceeds 64 MiB".to_owned(),
                        },
                    ),
                );
            }
        },
        ImageInput::Attachment { attachment } => if !is_image_media_type(&attachment.media_type) {
            return Err(error::invalid("invalid image attachment media type"));
        },
    }
    Ok(())
}

fn check_route_input(input: &ImageInput, api: ImageApi, editing: bool) -> (result: Result<
    (),
    ImageError,
>)
    ensures
        views::res(result) == outcome(route_input_error(*input, api, editing)),
{
    let is_url = matches!(input, ImageInput::Url { .. });
    if api == ImageApi::Gemini && is_url {
        return Err(error::unsupported("Gemini image inputs require Base64 or an attachment"));
    }
    if api == ImageApi::Minimax && !is_url {
        return Err(error::unsupported("MiniMax character reference requires a public URL"));
    }
    if api == ImageApi::OpenAi && editing && is_url {
        return Err(error::unsupported("OpenAI edit requires Base64 or an attachment"));
    }
    validate_input(input)
}

fn check_inputs(req: &ImageRequest, api: ImageApi) -> (result: Result<(), ImageError>)
    ensures
        views::res(result) == outcome(inputs_error(req.inputs(), api, req.is_edit(), 0)),
{
    let editing = matches!(req, ImageRequest::Edit(_));
    let n = req.input_count();
    let mut i: usize = 0;
    while i < n
        invariant
            i <= n,
            n == req.inputs().len(),
            editing == req.is_edit(),
            inputs_error(req.inputs(), api, editing, 0) == inputs_error(
                req.inputs(),
                api,
                editing,
                i as int,
            ),
        decreases n - i,
    {
        check_route_input(req.input(i), api, editing)?;
        i = i + 1;
    }
    Ok(())
}

fn check_mask_source(req: &ImageRequest) -> (result: Result<(), ImageError>)
    ensures
        views::res(result) == outcome(mask_source_error(req.mask_of())),
{
    if let Some(mask) = req.mask() {
        if matches!(mask.source, ImageInput::Url { .. }) {
            return Err(error::unsupported("mask input requires Base64 or an attachment"));
        }
        return validate_input(&mask.source);
    }
    Ok(())
}

/// Checks a request against the model's capabilities and the route's wire: the
/// first broken rule is the error.
pub fn validate(
    req: &ImageRequest,
    model: &ImageModelProfile,
    route: &ImageRouteConfig,
    asynchronous: bool,
) -> (result: Result<(), ImageError>)
    ensures
        views::res(result) == outcome(request_error(*req, *model, *route, asynchronous)),
{
    check_capabilities(req, &model.capabilities, asynchronous)?;
    let output = req.output();
    let api = route.api;
    check_output(output)?;
    check_mask_index(req, api)?;
    check_options(req.options(), api)?;
    check_route_output(output, api)?;
    check_route_request(req, api)?;
    if let Some(size) = &output.size {
        check_route_size(size, api)?;
    }
    check_inputs(req, api)?;
    check_mask_source(req)
}

} // verus!
