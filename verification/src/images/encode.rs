//! Image requests as each route's wire writes them.

use crate::encoding;
use crate::images::error::{self, ImageError, ImageErrorView};
use crate::json::{self, Entries, Json, JsonView};
use crate::protocol::{
    ImageApi, ImageEditRequest, ImageFormat, ImageInput, ImageModelProfile, ImageOutput,
    ImageQuality, ImageRequest, ImageRouteConfig, ImageSize,
};
use crate::text;
use crate::transport::{HttpRequest, HttpRequestView};
use crate::views;
use vstd::prelude::*;
use vstd::utf8::encode_utf8;

verus! {

broadcast use {crate::views::group_views, crate::json::group_json};

pub open spec fn format_text(format: ImageFormat) -> Seq<char> {
    match format {
        ImageFormat::Png => "png"@,
        ImageFormat::Jpeg => "jpeg"@,
        ImageFormat::Webp => "webp"@,
    }
}

fn format_name(format: ImageFormat) -> (result: &'static str)
    ensures
        result@ == format_text(format),
{
    match format {
        ImageFormat::Png => "png",
        ImageFormat::Jpeg => "jpeg",
        ImageFormat::Webp => "webp",
    }
}

pub open spec fn quality_text(quality: ImageQuality) -> Seq<char> {
    match quality {
        ImageQuality::Auto => "auto"@,
        ImageQuality::Low => "low"@,
        ImageQuality::Medium => "medium"@,
        ImageQuality::High => "high"@,
    }
}

fn quality_name(quality: ImageQuality) -> (result: &'static str)
    ensures
        result@ == quality_text(quality),
{
    match quality {
        ImageQuality::Auto => "auto",
        ImageQuality::Low => "low",
        ImageQuality::Medium => "medium",
        ImageQuality::High => "high",
    }
}

pub open spec fn size_text(size: ImageSize) -> Seq<char> {
    match size {
        ImageSize::Auto => "auto"@,
        ImageSize::Pixels { width, height } => text::decimal_text(width as nat) + "x"@
            + text::decimal_text(height as nat),
        ImageSize::Tier { name } => name@,
    }
}

fn render_size(size: &ImageSize) -> (result: String)
    ensures
        result@ == size_text(*size),
{
    match size {
        ImageSize::Auto => "auto".to_owned(),
        ImageSize::Pixels { width, height } => text::cat3(
            &text::decimal(*width as u64),
            "x",
            &text::decimal(*height as u64),
        ),
        ImageSize::Tier { name } => name.clone(),
    }
}

/// The data URI or URL by which a JSON wire carries an image.
pub open spec fn data_uri(image: ImageInput) -> Result<Seq<char>, ImageErrorView> {
    match image {
        ImageInput::Url { url } => if "https://"@.is_prefix_of(url@) || "http://"@.is_prefix_of(
            url@,
        ) {
            Ok(url@)
        } else {
            Err(error::invalid_view("image URL must be HTTP or HTTPS"@))
        },
        ImageInput::Base64 { media_type, data } => if "image/"@.is_prefix_of(media_type@) {
            Ok("data:"@ + media_type@ + ";base64,"@ + data@)
        } else {
            Err(error::invalid_view("image data has a non-image media type"@))
        },
        ImageInput::Attachment { .. } => Err(error::invalid_view("unresolved image attachment"@)),
    }
}

fn image_data_uri(image: &ImageInput) -> (result: Result<String, ImageError>)
    ensures
        views::res(result) == data_uri(*image),
{
    match image {
        ImageInput::Url { url } => if text::starts_with(url, "https://") || text::starts_with(
            url,
            "http://",
        ) {
            Ok(url.clone())
        } else {
            Err(error::invalid("image URL must be HTTP or HTTPS"))
        },
        ImageInput::Base64 { media_type, data } => if text::starts_with(media_type, "image/") {
            Ok(text::cat4("data:", media_type, ";base64,", data))
        } else {
            Err(error::invalid("image data has a non-image media type"))
        },
        ImageInput::Attachment { .. } => Err(error::invalid("unresolved image attachment")),
    }
}

/// The data URIs of the images from the `i`th on, after those before; the first
/// image without one is the error.
pub open spec fn data_uris(images: Seq<ImageInput>, i: int, before: Seq<Seq<char>>) -> Result<
    Seq<Seq<char>>,
    ImageErrorView,
>
    decreases images.len() - i,
{
    if i < 0 || i >= images.len() {
        Ok(before)
    } else {
        match data_uri(images[i]) {
            Err(error) => Err(error),
            Ok(uri) => data_uris(images, i + 1, before.push(uri)),
        }
    }
}

fn image_data_uris(req: &ImageRequest) -> (result: Result<Vec<String>, ImageError>)
    ensures
        views::res(result) == data_uris(req.inputs(), 0, seq![]),
{
    let n = req.input_count();
    let mut out: Vec<String> = Vec::new();
    let mut i: usize = 0;
    assert(out.deep_view() =~= seq![]);
    while i < n
        invariant
            i <= n,
            n == req.inputs().len(),
            data_uris(req.inputs(), 0, seq![]) == data_uris(
                req.inputs(),
                i as int,
                out.deep_view(),
            ),
        decreases n - i,
    {
        let uri = image_data_uri(req.input(i))?;
        out.push(uri);
        i = i + 1;
    }
    Ok(out)
}

/// How the Gemini wire carries an image.
pub open spec fn gemini_part(image: ImageInput) -> Result<JsonView, ImageErrorView> {
    match image {
        ImageInput::Base64 { media_type, data } => Ok(
            json::obj1(
                "inlineData"@,
                json::obj2(
                    "mimeType"@,
                    JsonView::Str(media_type@),
                    "data"@,
                    JsonView::Str(data@),
                ),
            ),
        ),
        ImageInput::Url { url } => Ok(
            json::obj1("fileData"@, json::obj1("fileUri"@, JsonView::Str(url@))),
        ),
        ImageInput::Attachment { .. } => Err(error::invalid_view("unresolved image attachment"@)),
    }
}

fn gemini_image(image: &ImageInput) -> (result: Result<Json, ImageError>)
    ensures
        views::res(result) == gemini_part(*image),
{
    match image {
        ImageInput::Base64 { media_type, data } => Ok(
            json::object1(
                "inlineData",
                json::object2("mimeType", json::string(media_type), "data", json::string(data)),
            ),
        ),
        ImageInput::Url { url } => Ok(
            json::object1("fileData", json::object1("fileUri", json::string(url))),
        ),
        ImageInput::Attachment { .. } => Err(error::invalid("unresolved image attachment")),
    }
}

pub open spec fn gemini_parts(images: Seq<ImageInput>, i: int, before: Seq<JsonView>) -> Result<
    Seq<JsonView>,
    ImageErrorView,
>
    decreases images.len() - i,
{
    if i < 0 || i >= images.len() {
        Ok(before)
    } else {
        match gemini_part(images[i]) {
            Err(error) => Err(error),
            Ok(part) => gemini_parts(images, i + 1, before.push(part)),
        }
    }
}

/// The fields that every JSON wire starts from: the common output settings, then
/// the provider options.
pub open spec fn common_fields(
    req: ImageRequest,
    model: ImageModelProfile,
    api: ImageApi,
) -> Entries {
    let out = req.wanted();
    let base = json::put(
        json::put(seq![], "model"@, JsonView::Str(model.request_model@)),
        "prompt"@,
        JsonView::Str(req.prompt_text()),
    );
    let counted = json::put_some(
        base,
        "n"@,
        match out.count {
            Some(n) => Some(json::uint_view(n as u64)),
            None => None,
        },
    );
    let sized = match out.size {
        Some(size) => if api == ImageApi::Gemini && size is Auto {
            counted
        } else {
            json::put(counted, "size"@, JsonView::Str(size_text(size)))
        },
        None => counted,
    };
    let shaped = match out.aspect_ratio {
        Some(ratio) => json::put(
            sized,
            "aspect_ratio"@,
            JsonView::Str(
                text::decimal_text(ratio.0 as nat) + ":"@ + text::decimal_text(ratio.1 as nat),
            ),
        ),
        None => sized,
    };
    let formatted = match out.format {
        Some(format) => json::put(shaped, "output_format"@, JsonView::Str(format_text(format))),
        None => shaped,
    };
    let graded = match out.quality {
        Some(quality) => json::put(
            formatted,
            "quality"@,
            JsonView::Str(
                if api == ImageApi::Zai {
                    "hd"@
                } else {
                    quality_text(quality)
                },
            ),
        ),
        None => formatted,
    };
    json::put_all(graded, req.options_view(), 0)
}

fn common_body(req: &ImageRequest, model: &ImageModelProfile, api: ImageApi) -> (result: Vec<
    (String, Json),
>)
    ensures
        result.deep_view() == common_fields(*req, *model, api),
{
    let output = req.output();
    let mut body = json::fields();
    json::set(&mut body, "model", json::string(&model.request_model));
    json::set(&mut body, "prompt", json::string(req.prompt()));
    if let Some(n) = output.count {
        json::set(&mut body, "n", json::uint(n as u64));
    }
    if let Some(size) = &output.size {
        if !(api == ImageApi::Gemini && matches!(size, ImageSize::Auto)) {
            json::set(&mut body, "size", Json::Str(render_size(size)));
        }
    }
    if let Some((width, height)) = output.aspect_ratio {
        let ratio = text::cat3(&text::decimal(width as u64), ":", &text::decimal(height as u64));
        json::set(&mut body, "aspect_ratio", Json::Str(ratio));
    }
    if let Some(format) = output.format {
        json::set(&mut body, "output_format", json::string(format_name(format)));
    }
    if let Some(quality) = output.quality {
        let name = if api == ImageApi::Zai {
            "hd"
        } else {
            quality_name(quality)
        };
        json::set(&mut body, "quality", json::string(name));
    }
    json::set_all(&mut body, req.options());
    body
}

/// The generation parameters beside the messages: no model, no prompt, and pixel
/// sizes written with `*`.
pub open spec fn task_parameters(common: Entries) -> Entries {
    let bare = json::without(json::without(common, "model"@), "prompt"@);
    match json::entry(bare, "size"@) {
        Some(JsonView::Str(size)) => json::put(
            bare,
            "size"@,
            JsonView::Str(text::replaced(size, 'x', '*')),
        ),
        _ => bare,
    }
}

fn parameters_of(common: Vec<(String, Json)>) -> (result: Vec<(String, Json)>)
    ensures
        result.deep_view() == task_parameters(common.deep_view()),
{
    let mut bare = common;
    json::unset(&mut bare, "model");
    json::unset(&mut bare, "prompt");
    let size = match json::find(&bare, "size") {
        Some(Json::Str(size)) => Some(text::replace_char(size, 'x', '*')),
        _ => None,
    };
    if let Some(size) = size {
        json::set(&mut bare, "size", Json::Str(size));
    }
    bare
}

/// A message body as the native task API takes it.
pub open spec fn message_body(model: Seq<char>, content: Seq<JsonView>, common: Entries) -> Entries {
    json::put(
        json::put(
            json::put(seq![], "model"@, JsonView::Str(model)),
            "input"@,
            json::obj1(
                "messages"@,
                JsonView::Array(
                    seq![
                        json::obj2(
                            "role"@,
                            JsonView::Str("user"@),
                            "content"@,
                            JsonView::Array(content),
                        ),
                    ],
                ),
            ),
        ),
        "parameters"@,
        JsonView::Object(task_parameters(common)),
    )
}

fn message_fields(model: &str, content: Vec<Json>, common: Vec<(String, Json)>) -> (result: Vec<
    (String, Json),
>)
    ensures
        result.deep_view() == message_body(model@, content.deep_view(), common.deep_view()),
{
    let mut body = json::fields();
    json::set(&mut body, "model", json::string(model));
    let message = json::object2("role", json::string("user"), "content", Json::Array(content));
    json::set(&mut body, "input", json::object1("messages", json::array1(message)));
    json::set(&mut body, "parameters", Json::Object(parameters_of(common)));
    body
}

pub open spec fn image_items(uris: Seq<Seq<char>>) -> Seq<JsonView> {
    Seq::new(uris.len(), |i: int| json::obj1("image"@, JsonView::Str(uris[i])))
}

pub open spec fn character_items(uris: Seq<Seq<char>>) -> Seq<JsonView> {
    Seq::new(
        uris.len(),
        |i: int|
            json::obj2(
                "type"@,
                JsonView::Str("character"@),
                "image_file"@,
                JsonView::Str(uris[i]),
            ),
    )
}

pub open spec fn link_items(uris: Seq<Seq<char>>) -> Seq<JsonView> {
    Seq::new(
        uris.len(),
        |i: int|
            json::obj2(
                "type"@,
                JsonView::Str("image_url"@),
                "image_url"@,
                json::obj1("url"@, JsonView::Str(uris[i])),
            ),
    )
}

pub open spec fn text_items(uris: Seq<Seq<char>>) -> Seq<JsonView> {
    Seq::new(uris.len(), |i: int| JsonView::Str(uris[i]))
}

/// The shapes in which a wire lists image links.
#[derive(Clone, Copy, PartialEq, Eq, Structural)]
enum Listing {
    Image,
    Character,
    Link,
    Text,
}

spec fn listed(uris: Seq<Seq<char>>, listing: Listing) -> Seq<JsonView> {
    match listing {
        Listing::Image => image_items(uris),
        Listing::Character => character_items(uris),
        Listing::Link => link_items(uris),
        Listing::Text => text_items(uris),
    }
}

fn list_uris(uris: &Vec<String>, listing: Listing) -> (result: Vec<Json>)
    ensures
        result.deep_view() == listed(uris.deep_view(), listing),
{
    let mut out: Vec<Json> = Vec::new();
    let mut i: usize = 0;
    while i < uris.len()
        invariant
            i <= uris.len(),
            out.deep_view() == listed(uris.deep_view(), listing).take(i as int),
            listed(uris.deep_view(), listing).len() == uris.len(),
        decreases uris.len() - i,
    {
        let ghost want = listed(uris.deep_view(), listing);
        assert(uris.deep_view()[i as int] == uris@[i as int]@);
        let uri = json::string(&uris[i]);
        let item = match listing {
            Listing::Image => json::object1("image", uri),
            Listing::Character => json::object2(
                "type",
                json::string("character"),
                "image_file",
                uri,
            ),
            Listing::Link => json::object2(
                "type",
                json::string("image_url"),
                "image_url",
                json::object1("url", uri),
            ),
            Listing::Text => uri,
        };
        out.push(item);
        i = i + 1;
        assert(want.take(i as int) =~= want.take(i - 1).push(want[i - 1]));
    }
    assert(listed(uris.deep_view(), listing).take(i as int) =~= listed(uris.deep_view(), listing));
    out
}

/// Whether the call goes through the native task API of the DashScope family.
pub open spec fn task_style(api: ImageApi, asynchronous: bool) -> bool {
    asynchronous && (api == ImageApi::OpenAi || api == ImageApi::Xai || api == ImageApi::Qwen)
}

pub open spec fn trimmed(base: Seq<char>) -> Seq<char> {
    text::without_trailing(base, '/')
}

/// Where the request goes.
pub open spec fn endpoint(
    req: ImageRequest,
    model: ImageModelProfile,
    route: ImageRouteConfig,
    asynchronous: bool,
) -> Result<Seq<char>, ImageErrorView> {
    let base = trimmed(route.base_url@);
    match route.api {
        ImageApi::OpenAi | ImageApi::Xai | ImageApi::Qwen => if asynchronous {
            match route.task_base_url {
                None => Err(error::unsupported_view("native task endpoint not configured"@)),
                Some(root) => Ok(
                    trimmed(root@) + "/services/aigc/image-generation/generation"@,
                ),
            }
        } else if req.is_edit() && route.api == ImageApi::Xai {
            Ok(base + "/images/edits"@)
        } else {
            Ok(base + "/images/generations"@)
        },
        ImageApi::OpenRouter => Ok(base + "/images"@),
        ImageApi::Minimax => Ok(base + "/image_generation"@),
        ImageApi::Zai => Ok(
            base + "/"@ + (if asynchronous {
                "async/"@
            } else {
                ""@
            }) + "images/generations"@,
        ),
        ImageApi::Gemini => Ok(base + "/models/"@ + model.request_model@ + ":generateContent"@),
        ImageApi::Wan => {
            let root = match route.task_base_url {
                Some(root) => if asynchronous {
                    trimmed(root@)
                } else {
                    base
                },
                None => base,
            };
            Ok(
                root + "/services/aigc/"@ + (if asynchronous {
                    "image-generation"@
                } else {
                    "multimodal-generation"@
                }) + "/generation"@,
            )
        },
    }
}

fn endpoint_of(
    req: &ImageRequest,
    model: &ImageModelProfile,
    route: &ImageRouteConfig,
    asynchronous: bool,
) -> (result: Result<String, ImageError>)
    ensures
        views::res(result) == endpoint(*req, *model, *route, asynchronous),
{
    let base = text::trim_end_char(&route.base_url, '/');
    let editing = matches!(req, ImageRequest::Edit(_));
    match route.api {
        ImageApi::OpenAi | ImageApi::Xai | ImageApi::Qwen => if asynchronous {
            match &route.task_base_url {
                None => Err(error::unsupported("native task endpoint not configured")),
                Some(root) => Ok(
                    text::cat2(
                        &text::trim_end_char(root, '/'),
                        "/services/aigc/image-generation/generation",
                    ),
                ),
            }
        } else if editing && route.api == ImageApi::Xai {
            Ok(text::cat2(&base, "/images/edits"))
        } else {
            Ok(text::cat2(&base, "/images/generations"))
        },
        ImageApi::OpenRouter => Ok(text::cat2(&base, "/images")),
        ImageApi::Minimax => Ok(text::cat2(&base, "/image_generation")),
        ImageApi::Zai => {
            let prefix = if asynchronous {
                "async/"
            } else {
                ""
            };
            Ok(text::cat4(&base, "/", prefix, "images/generations"))
        },
        ImageApi::Gemini => Ok(
            text::cat4(&base, "/models/", &model.request_model, ":generateContent"),
        ),
        ImageApi::Wan => {
            let root = match &route.task_base_url {
                Some(root) => if asynchronous {
                    text::trim_end_char(root, '/')
                } else {
                    base
                },
                None => base,
            };
            let service = if asynchronous {
                "image-generation"
            } else {
                "multimodal-generation"
            };
            Ok(text::cat4(&root, "/services/aigc/", service, "/generation"))
        },
    }
}

/// The body on the Gemini wire.
pub open spec fn gemini_body(parts: Seq<JsonView>, common: Entries) -> Entries {
    let modalities = json::put(
        seq![],
        "responseModalities"@,
        JsonView::Array(seq![JsonView::Str("IMAGE"@)]),
    );
    let ratio = json::put_some(seq![], "aspectRatio"@, json::entry(common, "aspect_ratio"@));
    let sized = json::put_some(
        ratio,
        "imageSize"@,
        json::entry(json::without(common, "aspect_ratio"@), "size"@),
    );
    let config = if sized.len() > 0 {
        json::put(modalities, "imageConfig"@, JsonView::Object(sized))
    } else {
        modalities
    };
    json::put(
        json::put(
            seq![],
            "contents"@,
            JsonView::Array(
                seq![
                    json::obj2(
                        "role"@,
                        JsonView::Str("user"@),
                        "parts"@,
                        JsonView::Array(parts),
                    ),
                ],
            ),
        ),
        "generationConfig"@,
        JsonView::Object(config),
    )
}

fn gemini_fields(parts: Vec<Json>, common: Vec<(String, Json)>) -> (result: Vec<
    (String, Json),
>)
    ensures
        result.deep_view() == gemini_body(parts.deep_view(), common.deep_view()),
{
    let mut common = common;
    let mut config = json::fields();
    json::set(&mut config, "responseModalities", json::array1(json::string("IMAGE")));
    let mut image_config = json::fields();
    if let Some(ratio) = json::unset(&mut common, "aspect_ratio") {
        json::set(&mut image_config, "aspectRatio", ratio);
    }
    if let Some(size) = json::unset(&mut common, "size") {
        json::set(&mut image_config, "imageSize", size);
    }
    if image_config.len() > 0 {
        json::set(&mut config, "imageConfig", Json::Object(image_config));
    }
    let mut body = json::fields();
    let message = json::object2("role", json::string("user"), "parts", Json::Array(parts));
    json::set(&mut body, "contents", json::array1(message));
    json::set(&mut body, "generationConfig", Json::Object(config));
    body
}

/// The body on the MiniMax wire: pixel sizes as two numbers, character
/// references by link.
pub open spec fn minimax_body(output: ImageOutput, uris: Seq<Seq<char>>, common: Entries) -> Entries {
    let bare = json::without(common, "output_format"@);
    let sized = match output.size {
        Some(ImageSize::Pixels { width, height }) => json::put(
            json::put(
                json::without(bare, "size"@),
                "width"@,
                json::uint_view(width as u64),
            ),
            "height"@,
            json::uint_view(height as u64),
        ),
        _ => bare,
    };
    if uris.len() > 0 {
        json::put(sized, "subject_reference"@, JsonView::Array(character_items(uris)))
    } else {
        sized
    }
}

fn minimax_fields(output: &ImageOutput, uris: &Vec<String>, common: Vec<(String, Json)>) -> (result:
    Vec<(String, Json)>)
    ensures
        result.deep_view() == minimax_body(*output, uris.deep_view(), common.deep_view()),
{
    let mut body = common;
    json::unset(&mut body, "output_format");
    if let Some(ImageSize::Pixels { width, height }) = &output.size {
        json::unset(&mut body, "size");
        json::set(&mut body, "width", json::uint(*width as u64));
        json::set(&mut body, "height", json::uint(*height as u64));
    }
    if uris.len() > 0 {
        let references = list_uris(uris, Listing::Character);
        json::set(&mut body, "subject_reference", Json::Array(references));
    }
    body
}

/// The JSON body of the request.
pub open spec fn json_body(
    req: ImageRequest,
    model: ImageModelProfile,
    api: ImageApi,
    asynchronous: bool,
) -> Result<Entries, ImageErrorView> {
    let common = common_fields(req, model, api);
    let uris = data_uris(req.inputs(), 0, seq![]);
    let prompt = json::obj1("text"@, JsonView::Str(req.prompt_text()));
    let staged = if task_style(api, asynchronous) {
        match uris {
            Err(error) => Err(error),
            Ok(uris) => Ok(
                message_body(model.request_model@, seq![prompt] + image_items(uris), common),
            ),
        }
    } else {
        Ok(common)
    };
    match api {
        ImageApi::Wan => match uris {
            Err(error) => Err(error),
            Ok(uris) => Ok(
                message_body(model.request_model@, image_items(uris).push(prompt), common),
            ),
        },
        ImageApi::Gemini => match gemini_parts(req.inputs(), 0, seq![prompt]) {
            Err(error) => Err(error),
            Ok(parts) => Ok(gemini_body(parts, common)),
        },
        ImageApi::Minimax => match uris {
            Err(error) => Err(error),
            Ok(uris) => Ok(minimax_body(req.wanted(), uris, common)),
        },
        ImageApi::Xai => match staged {
            Err(error) => Err(error),
            Ok(staged) => if req.is_edit() {
                if req.inputs().len() == 0 {
                    Err(error::invalid_view("edit requires an image"@))
                } else {
                    match data_uri(req.inputs()[0]) {
                        Err(error) => Err(error),
                        Ok(uri) => Ok(
                            json::put(
                                staged,
                                "image"@,
                                json::obj2(
                                    "type"@,
                                    JsonView::Str("image_url"@),
                                    "url"@,
                                    JsonView::Str(uri),
                                ),
                            ),
                        ),
                    }
                }
            } else {
                Ok(staged)
            },
        },
        ImageApi::Qwen => if asynchronous {
            staged
        } else {
            match uris {
                Err(error) => Err(error),
                Ok(uris) => if uris.len() == 0 {
                    Ok(common)
                } else if uris.len() == 1 {
                    Ok(json::put(common, "image"@, JsonView::Str(uris[0])))
                } else {
                    Ok(json::put(common, "image"@, JsonView::Array(text_items(uris))))
                },
            }
        },
        ImageApi::OpenRouter => match uris {
            Err(error) => Err(error),
            Ok(uris) => if uris.len() == 0 {
                Ok(common)
            } else {
                Ok(json::put(common, "input_references"@, JsonView::Array(link_items(uris))))
            },
        },
        _ => staged,
    }
}

fn body_of(req: &ImageRequest, model: &ImageModelProfile, api: ImageApi, asynchronous: bool) -> (result:
    Result<Vec<(String, Json)>, ImageError>)
    ensures
        views::res(result) == json_body(*req, *model, api, asynchronous),
{
    let common = common_body(req, model, api);
    let prompt = json::object1("text", json::string(req.prompt()));
    let dashscope = asynchronous && matches!(api, ImageApi::OpenAi | ImageApi::Xai | ImageApi::Qwen);
    match api {
        ImageApi::Wan => {
            let uris = image_data_uris(req)?;
            let mut content = list_uris(&uris, Listing::Image);
            content.push(prompt);
            Ok(message_fields(&model.request_model, content, common))
        },
        ImageApi::Gemini => {
            let parts = gemini_content(req, prompt)?;
            Ok(gemini_fields(parts, common))
        },
        ImageApi::Minimax => {
            let uris = image_data_uris(req)?;
            Ok(minimax_fields(req.output(), &uris, common))
        },
        ImageApi::OpenRouter => {
            let uris = image_data_uris(req)?;
            let mut body = common;
            if uris.len() > 0 {
                let references = list_uris(&uris, Listing::Link);
                json::set(&mut body, "input_references", Json::Array(references));
            }
            Ok(body)
        },
        ImageApi::Qwen if !asynchronous => {
            let uris = image_data_uris(req)?;
            let mut body = common;
            if uris.len() == 1 {
                assert(uris.deep_view()[0] == uris@[0]@);
                json::set(&mut body, "image", json::string(&uris[0]));
            } else if uris.len() > 1 {
                json::set(&mut body, "image", Json::Array(list_uris(&uris, Listing::Text)));
            }
            Ok(body)
        },
        _ => {
            let mut body = if dashscope {
                let uris = image_data_uris(req)?;
                let mut content: Vec<Json> = Vec::new();
                let ghost first = prompt@;
                content.push(prompt);
                let mut images = list_uris(&uris, Listing::Image);
                let ghost items = images.deep_view();
                content.append(&mut images);
                assert(content.deep_view() =~= seq![first] + items);
                message_fields(&model.request_model, content, common)
            } else {
                common
            };
            if api == ImageApi::Xai && matches!(req, ImageRequest::Edit(_)) {
                if req.input_count() == 0 {
                    return Err(error::invalid("edit requires an image"));
                }
                let uri = image_data_uri(req.input(0))?;
                let image = json::object2("type", json::string("image_url"), "url", Json::Str(uri));
                json::set(&mut body, "image", image);
            }
            Ok(body)
        },
    }
}

fn gemini_content(req: &ImageRequest, prompt: Json) -> (result: Result<Vec<Json>, ImageError>)
    ensures
        views::res(result) == gemini_parts(req.inputs(), 0, seq![prompt@]),
{
    let n = req.input_count();
    let mut parts: Vec<Json> = Vec::new();
    let ghost first = prompt@;
    parts.push(prompt);
    assert(parts.deep_view() =~= seq![first]);
    let mut i: usize = 0;
    while i < n
        invariant
            i <= n,
            n == req.inputs().len(),
            first == prompt@,
            gemini_parts(req.inputs(), 0, seq![first]) == gemini_parts(
                req.inputs(),
                i as int,
                parts.deep_view(),
            ),
        decreases n - i,
    {
        let part = gemini_image(req.input(i))?;
        parts.push(part);
        i = i + 1;
    }
    Ok(parts)
}

/// The multipart boundary of an OpenAI edit.
pub open spec fn boundary() -> Seq<char> {
    "lingxi-image-edit-0f731eab"@
}

pub open spec fn form_field(name: Seq<char>, value: Seq<char>) -> Seq<u8> {
    encode_utf8(
        "--"@ + boundary() + "\r\nContent-Disposition: form-data; name=\""@ + name + "\"\r\n\r\n"@
            + value + "\r\n"@,
    )
}

pub open spec fn form_field_some(name: Seq<char>, value: Option<Seq<char>>) -> Seq<u8> {
    match value {
        Some(value) => form_field(name, value),
        None => seq![],
    }
}

fn add_field(body: &mut Vec<u8>, name: &str, value: &str)
    ensures
        final(body)@ == old(body)@ + form_field(name@, value@),
{
    let start = text::cat4(
        "--",
        "lingxi-image-edit-0f731eab",
        "\r\nContent-Disposition: form-data; name=\"",
        name,
    );
    text::append_text(body, &text::cat4(&start, "\"\r\n\r\n", value, "\r\n"));
}

/// A provider option as a form value: a text as it is, anything else as JSON.
pub open spec fn option_text(value: JsonView) -> Seq<char> {
    match value {
        JsonView::Str(s) => s,
        other => json::text_of(other),
    }
}

pub open spec fn option_fields(options: Entries, i: int, before: Seq<u8>) -> Seq<u8>
    decreases options.len() - i,
{
    if i < 0 || i >= options.len() {
        before
    } else {
        option_fields(
            options,
            i + 1,
            before + form_field(options[i].0, option_text(options[i].1)),
        )
    }
}

/// One file of the form: the decoded image.
pub open spec fn form_file(name: Seq<char>, filename: Seq<char>, image: ImageInput) -> Result<
    Seq<u8>,
    ImageErrorView,
> {
    match image {
        ImageInput::Base64 { media_type, data } => match encoding::base64_decoded(data@) {
            Ok(decoded) => Ok(
                encode_utf8(
                    "--"@ + boundary() + "\r\nContent-Disposition: form-data; name=\""@ + name
                        + "\"; filename=\""@ + filename + "\"\r\nContent-Type: "@ + media_type@
                        + "\r\n\r\n"@,
                ) + decoded + encode_utf8("\r\n"@),
            ),
            Err(_) => Err(error::invalid_view("invalid Base64 image input"@)),
        },
        _ => Err(
            error::unsupported_view("OpenAI image edit requires Base64 or an attachment"@),
        ),
    }
}

fn append_file(body: &mut Vec<u8>, name: &str, filename: &str, image: &ImageInput) -> (result: Result<
    (),
    ImageError,
>)
    ensures
        match form_file(name@, filename@, *image) {
            Ok(bytes) => result is Ok && final(body)@ == old(body)@ + bytes,
            Err(error) => result matches Err(e) && e@ == error && final(body)@ == old(body)@,
        },
{
    let (media_type, data) = match image {
        ImageInput::Base64 { media_type, data } => (media_type, data),
        _ => return Err(
            error::unsupported("OpenAI image edit requires Base64 or an attachment"),
        ),
    };
    let decoded = match encoding::base64_decode(data) {
        Ok(decoded) => decoded,
        Err(_) => return Err(error::invalid("invalid Base64 image input")),
    };
    let ghost before = body@;
    let start = text::cat4(
        "--",
        "lingxi-image-edit-0f731eab",
        "\r\nContent-Disposition: form-data; name=\"",
        name,
    );
    let middle = text::cat4(&start, "\"; filename=\"", filename, "\"\r\nContent-Type: ");
    text::append_text(body, &text::cat3(&middle, media_type, "\r\n\r\n"));
    text::append_bytes(body, decoded.as_slice());
    text::append_text(body, "\r\n");
    assert(body@ =~= before + form_file(name@, filename@, *image)->Ok_0);
    Ok(())
}

/// The input images as files, each under its own name.
pub open spec fn image_files(images: Seq<ImageInput>, i: int, before: Seq<u8>) -> Result<
    Seq<u8>,
    ImageErrorView,
>
    decreases images.len() - i,
{
    if i < 0 || i >= images.len() {
        Ok(before)
    } else {
        match form_file(
            if images.len() == 1 {
                "image"@
            } else {
                "image[]"@
            },
            "image-"@ + text::decimal_text(i as nat) + ".png"@,
            images[i],
        ) {
            Err(error) => Err(error),
            Ok(bytes) => image_files(images, i + 1, before + bytes),
        }
    }
}

/// The settings of an edit as form fields.
pub open spec fn edit_fields(edit: ImageEditRequest, model: ImageModelProfile) -> Seq<u8> {
    let out = edit.output;
    let fixed = form_field("model"@, model.request_model@) + form_field("prompt"@, edit.prompt@)
        + form_field_some(
        "n"@,
        match out.count {
            Some(n) => Some(text::decimal_text(n as nat)),
            None => None,
        },
    ) + form_field_some(
        "size"@,
        match out.size {
            Some(size) => Some(size_text(size)),
            None => None,
        },
    ) + form_field_some(
        "output_format"@,
        match out.format {
            Some(format) => Some(format_text(format)),
            None => None,
        },
    ) + form_field_some(
        "quality"@,
        match out.quality {
            Some(quality) => Some(quality_text(quality)),
            None => None,
        },
    );
    option_fields(edit.provider_options.deep_view(), 0, fixed)
}

/// The multipart body of an OpenAI edit.
pub open spec fn edit_form(edit: ImageEditRequest, model: ImageModelProfile) -> Result<
    Seq<u8>,
    ImageErrorView,
> {
    match image_files(edit.images@, 0, edit_fields(edit, model)) {
        Err(error) => Err(error),
        Ok(files) => {
            let closing = encode_utf8("--"@ + boundary() + "--\r\n"@);
            match edit.mask {
                None => Ok(files + closing),
                Some(mask) => match form_file("mask"@, "mask.png"@, mask.source) {
                    Err(error) => Err(error),
                    Ok(bytes) => Ok(files + bytes + closing),
                },
            }
        },
    }
}

fn add_edit_fields(body: &mut Vec<u8>, edit: &ImageEditRequest, model: &ImageModelProfile)
    requires
        old(body)@.len() == 0,
    ensures
        final(body)@ == edit_fields(*edit, *model),
{
    add_field(body, "model", &model.request_model);
    add_field(body, "prompt", &edit.prompt);
    assert(body@ =~= form_field("model"@, model.request_model@) + form_field(
        "prompt"@,
        edit.prompt@,
    ));
    let ghost b0 = body@;
    assert(b0 + Seq::<u8>::empty() =~= b0);
    if let Some(n) = edit.output.count {
        add_field(body, "n", &text::decimal(n as u64));
    }
    let ghost b1 = body@;
    assert(b1 + Seq::<u8>::empty() =~= b1);
    if let Some(size) = &edit.output.size {
        add_field(body, "size", &render_size(size));
    }
    let ghost b2 = body@;
    assert(b2 + Seq::<u8>::empty() =~= b2);
    if let Some(format) = edit.output.format {
        add_field(body, "output_format", format_name(format));
    }
    let ghost b3 = body@;
    assert(b3 + Seq::<u8>::empty() =~= b3);
    if let Some(quality) = edit.output.quality {
        add_field(body, "quality", quality_name(quality));
    }
    let options = &edit.provider_options;
    let ghost fixed = body@;
    let mut i: usize = 0;
    while i < options.len()
        invariant
            i <= options.len(),
            option_fields(options.deep_view(), 0, fixed) == option_fields(
                options.deep_view(),
                i as int,
                body@,
            ),
        decreases options.len() - i,
    {
        assert(options.deep_view()[i as int] == options@[i as int].deep_view());
        let value = match &options[i].1 {
            Json::Str(s) => s.clone(),
            other => json::to_text(other),
        };
        add_field(body, &options[i].0, &value);
        i = i + 1;
    }
}

/// The request of an OpenAI edit.
pub open spec fn edit_request(
    edit: ImageEditRequest,
    model: ImageModelProfile,
    route: ImageRouteConfig,
) -> Result<HttpRequestView, ImageErrorView> {
    match edit_form(edit, model) {
        Err(error) => Err(error),
        Ok(body) => Ok(
            HttpRequestView {
                method: "POST"@,
                url: trimmed(route.base_url@) + "/images/edits"@,
                headers: seq![
                    ("content-type"@, "multipart/form-data; boundary="@ + boundary()),
                ],
                body,
                timeout: None,
            },
        ),
    }
}

/// One header.
fn header(name: &str, value: &str) -> (result: Vec<(String, String)>)
    ensures
        result.deep_view() == seq![(name@, value@)],
{
    let mut headers: Vec<(String, String)> = Vec::new();
    headers.push((name.to_owned(), value.to_owned()));
    assert(headers.deep_view() =~= seq![(name@, value@)]);
    headers
}

fn openai_edit(edit: &ImageEditRequest, model: &ImageModelProfile, route: &ImageRouteConfig) -> (result:
    Result<HttpRequest, ImageError>)
    ensures
        views::res(result) == edit_request(*edit, *model, *route),
{
    let mut body: Vec<u8> = Vec::new();
    add_edit_fields(&mut body, edit, model);
    let ghost fields = body@;
    let images = &edit.images;
    let mut i: usize = 0;
    while i < images.len()
        invariant
            i <= images.len(),
            image_files(images@, 0, fields) == image_files(images@, i as int, body@),
            images@ == edit.images@,
            fields == edit_fields(*edit, *model),
        decreases images.len() - i,
    {
        let name = if images.len() == 1 {
            "image"
        } else {
            "image[]"
        };
        let filename = text::cat3("image-", &text::decimal(i as u64), ".png");
        append_file(&mut body, name, &filename, &images[i])?;
        i = i + 1;
    }
    if let Some(mask) = &edit.mask {
        append_file(&mut body, "mask", "mask.png", &mask.source)?;
    }
    text::append_text(&mut body, &text::cat3("--", "lingxi-image-edit-0f731eab", "--\r\n"));
    let content_type = text::cat2("multipart/form-data; boundary=", "lingxi-image-edit-0f731eab");
    Ok(
        HttpRequest {
            method: "POST".to_owned(),
            url: text::cat2(&text::trim_end_char(&route.base_url, '/'), "/images/edits"),
            headers: header("content-type", &content_type),
            body,
            timeout: None,
        },
    )
}

/// The request as the route's wire writes it.
pub open spec fn encoded(
    req: ImageRequest,
    model: ImageModelProfile,
    route: ImageRouteConfig,
    asynchronous: bool,
) -> Result<HttpRequestView, ImageErrorView> {
    if route.api == ImageApi::OpenAi && req.is_edit() {
        edit_request(req->Edit_0, model, route)
    } else {
        match endpoint(req, model, route, asynchronous) {
            Err(error) => Err(error),
            Ok(url) => match json_body(req, model, route.api, asynchronous) {
                Err(error) => Err(error),
                Ok(body) => Ok(
                    HttpRequestView {
                        method: "POST"@,
                        url,
                        headers: if task_style(route.api, asynchronous) || (asynchronous && route.api
                            == ImageApi::Wan) {
                            seq![
                                ("content-type"@, "application/json"@),
                                ("X-DashScope-Async"@, "enable"@),
                            ]
                        } else {
                            seq![("content-type"@, "application/json"@)]
                        },
                        body: json::bytes_of(JsonView::Object(body)),
                        timeout: None,
                    },
                ),
            },
        }
    }
}

pub fn encode(
    req: &ImageRequest,
    model: &ImageModelProfile,
    route: &ImageRouteConfig,
    asynchronous: bool,
) -> (result: Result<HttpRequest, ImageError>)
    ensures
        views::res(result) == encoded(*req, *model, *route, asynchronous),
{
    if route.api == ImageApi::OpenAi {
        if let ImageRequest::Edit(edit) = req {
            return openai_edit(edit, model, route);
        }
    }
    let url = endpoint_of(req, model, route, asynchronous)?;
    let body = body_of(req, model, route.api, asynchronous)?;
    let mut headers = header("content-type", "application/json");
    if asynchronous && matches!(
        route.api,
        ImageApi::OpenAi | ImageApi::Xai | ImageApi::Qwen | ImageApi::Wan
    ) {
        headers.push(("X-DashScope-Async".to_owned(), "enable".to_owned()));
    }
    assert(headers.deep_view() =~= if task_style(route.api, asynchronous) || (asynchronous
        && route.api == ImageApi::Wan) {
        seq![("content-type"@, "application/json"@), ("X-DashScope-Async"@, "enable"@)]
    } else {
        seq![("content-type"@, "application/json"@)]
    });
    Ok(
        HttpRequest {
            method: "POST".to_owned(),
            url,
            headers,
            body: json::to_bytes(&Json::Object(body)),
            timeout: None,
        },
    )
}

} // verus!
