//! Image requests, responses and the image side of a connection.

use crate::json::{Json, JsonView};
use crate::protocol::profile::AttachmentRef;
use vstd::prelude::*;

verus! {

#[derive(Debug, Clone, Copy, PartialEq, Eq, PartialOrd, Ord, Structural)]
pub enum ImageApi {
    OpenAi,
    Gemini,
    Qwen,
    Wan,
    Xai,
    Minimax,
    Zai,
    OpenRouter,
}

#[derive(Debug, Clone, Copy, PartialEq, Eq, Structural)]
pub enum ImageFormat {
    Png,
    Jpeg,
    Webp,
}

#[derive(Debug, Clone, Copy, PartialEq, Eq, Structural)]
pub enum ImageQuality {
    Auto,
    Low,
    Medium,
    High,
}

#[derive(Debug, Clone, Copy, PartialEq, Eq, Structural)]
pub enum ImageReferenceKind {
    General,
    Character,
}

#[derive(Debug, Clone, Copy, PartialEq, Eq)]
pub struct ImageCapabilities {
    pub text_to_image: bool,
    pub reference_generation: bool,
    pub editing: bool,
    pub mask_editing: bool,
    pub async_generate: bool,
    pub async_edit: bool,
    pub max_inputs: Option<u32>,
    pub max_outputs: Option<u32>,
}

impl ImageCapabilities {
    /// A model that can do nothing.
    pub open spec fn nothing() -> ImageCapabilities {
        ImageCapabilities {
            text_to_image: false,
            reference_generation: false,
            editing: false,
            mask_editing: false,
            async_generate: false,
            async_edit: false,
            max_inputs: None,
            max_outputs: None,
        }
    }
}

impl Default for ImageCapabilities {
    fn default() -> (result: Self)
        ensures
            result == ImageCapabilities::nothing(),
    {
        ImageCapabilities {
            text_to_image: false,
            reference_generation: false,
            editing: false,
            mask_editing: false,
            async_generate: false,
            async_edit: false,
            max_inputs: None,
            max_outputs: None,
        }
    }
}

#[derive(Debug, Clone, PartialEq, Eq)]
pub struct ImageModelProfile {
    pub display_model: String,
    pub request_model: String,
    /// The name of the route that serves the model.
    pub route: String,
    pub aliases: Vec<String>,
    pub hidden: bool,
    pub capabilities: ImageCapabilities,
}

#[derive(Debug, Clone, PartialEq, Eq)]
pub struct ImageRouteConfig {
    pub api: ImageApi,
    pub base_url: String,
    /// The root of the native task API, where there is one.
    pub task_base_url: Option<String>,
    /// A registered authenticator that signs the route's requests.
    pub authenticator: Option<String>,
    pub api_key_header: Option<String>,
}

/// The image side of a connection: its routes by name, and its models.
#[derive(Debug, Clone, PartialEq, Eq)]
pub struct ImageConfig {
    pub routes: Vec<(String, ImageRouteConfig)>,
    pub models: Vec<ImageModelProfile>,
}

#[derive(Debug, Clone, PartialEq, Eq)]
pub enum ImageSize {
    Auto,
    Pixels { width: u32, height: u32 },
    Tier { name: String },
}

#[derive(Debug, Clone, PartialEq, Eq)]
pub struct ImageOutput {
    pub count: Option<u32>,
    pub size: Option<ImageSize>,
    pub aspect_ratio: Option<(u32, u32)>,
    pub format: Option<ImageFormat>,
    pub quality: Option<ImageQuality>,
}

#[derive(Debug, Clone, PartialEq, Eq)]
pub enum ImageInput {
    Url { url: String },
    Base64 { media_type: String, data: String },
    Attachment { attachment: AttachmentRef },
}

#[derive(Debug, Clone, PartialEq, Eq)]
pub struct ImageReference {
    pub kind: ImageReferenceKind,
    pub image: ImageInput,
}

#[derive(Debug, Clone, PartialEq, Eq)]
pub struct ImageMask {
    /// The input image that the mask applies to.
    pub image_index: usize,
    pub source: ImageInput,
}

#[derive(Debug, Clone, PartialEq, Eq)]
pub struct ImageGenerationRequest {
    pub model: String,
    pub prompt: String,
    pub references: Vec<ImageReference>,
    pub output: ImageOutput,
    pub provider_options: Vec<(String, Json)>,
}

#[derive(Debug, Clone, PartialEq, Eq)]
pub struct ImageEditRequest {
    pub model: String,
    pub prompt: String,
    pub images: Vec<ImageInput>,
    pub mask: Option<ImageMask>,
    pub output: ImageOutput,
    pub provider_options: Vec<(String, Json)>,
}

#[derive(Debug, Clone, PartialEq, Eq)]
pub enum ImageRequest {
    Generate(ImageGenerationRequest),
    Edit(ImageEditRequest),
}

impl ImageRequest {
    pub open spec fn model_name(&self) -> Seq<char> {
        match self {
            ImageRequest::Generate(r) => r.model@,
            ImageRequest::Edit(r) => r.model@,
        }
    }

    pub open spec fn prompt_text(&self) -> Seq<char> {
        match self {
            ImageRequest::Generate(r) => r.prompt@,
            ImageRequest::Edit(r) => r.prompt@,
        }
    }

    pub open spec fn wanted(&self) -> ImageOutput {
        match self {
            ImageRequest::Generate(r) => r.output,
            ImageRequest::Edit(r) => r.output,
        }
    }

    pub open spec fn options_view(&self) -> Seq<(Seq<char>, JsonView)> {
        match self {
            ImageRequest::Generate(r) => r.provider_options.deep_view(),
            ImageRequest::Edit(r) => r.provider_options.deep_view(),
        }
    }

    pub open spec fn is_edit(&self) -> bool {
        self is Edit
    }

    pub open spec fn mask_of(&self) -> Option<ImageMask> {
        match self {
            ImageRequest::Generate(_) => None,
            ImageRequest::Edit(r) => r.mask,
        }
    }

    /// The input images in order.
    pub open spec fn inputs(&self) -> Seq<ImageInput> {
        match self {
            ImageRequest::Generate(r) => Seq::new(r.references@.len(), |i: int| r.references@[i].image),
            ImageRequest::Edit(r) => r.images@,
        }
    }

    pub fn model(&self) -> (result: &str)
        ensures
            result@ == self.model_name(),
    {
        match self {
            ImageRequest::Generate(r) => r.model.as_str(),
            ImageRequest::Edit(r) => r.model.as_str(),
        }
    }

    pub fn prompt(&self) -> (result: &str)
        ensures
            result@ == self.prompt_text(),
    {
        match self {
            ImageRequest::Generate(r) => r.prompt.as_str(),
            ImageRequest::Edit(r) => r.prompt.as_str(),
        }
    }

    pub fn output(&self) -> (result: &ImageOutput)
        ensures
            *result == self.wanted(),
    {
        match self {
            ImageRequest::Generate(r) => &r.output,
            ImageRequest::Edit(r) => &r.output,
        }
    }

    pub fn options(&self) -> (result: &Vec<(String, Json)>)
        ensures
            result.deep_view() == self.options_view(),
    {
        match self {
            ImageRequest::Generate(r) => &r.provider_options,
            ImageRequest::Edit(r) => &r.provider_options,
        }
    }

    pub fn input_count(&self) -> (result: usize)
        ensures
            result == self.inputs().len(),
    {
        match self {
            ImageRequest::Generate(r) => r.references.len(),
            ImageRequest::Edit(r) => r.images.len(),
        }
    }

    pub fn input(&self, i: usize) -> (result: &ImageInput)
        requires
            i < self.inputs().len(),
        ensures
            *result == self.inputs()[i as int],
    {
        match self {
            ImageRequest::Generate(r) => &r.references[i].image,
            ImageRequest::Edit(r) => &r.images[i],
        }
    }

    pub fn mask(&self) -> (result: Option<&ImageMask>)
        ensures
            match result {
                Some(mask) => self.mask_of() == Some(*mask),
                None => self.mask_of() is None,
            },
    {
        match self {
            ImageRequest::Generate(_) => None,
            ImageRequest::Edit(r) => r.mask.as_ref(),
        }
    }
}

#[derive(Debug, Clone, PartialEq, Eq)]
pub enum ImageData {
    Url { url: String },
    Base64 { data: String },
}

pub enum ImageDataView {
    Url { url: Seq<char> },
    Base64 { data: Seq<char> },
}

impl View for ImageData {
    type V = ImageDataView;

    open spec fn view(&self) -> ImageDataView {
        match self {
            ImageData::Url { url } => ImageDataView::Url { url: url@ },
            ImageData::Base64 { data } => ImageDataView::Base64 { data: data@ },
        }
    }
}

#[derive(Debug, Clone, PartialEq, Eq)]
pub struct ImageArtifact {
    pub data: ImageData,
    pub media_type: Option<String>,
    pub revised_prompt: Option<String>,
    pub expires_at: Option<u64>,
}

pub struct ImageArtifactView {
    pub data: ImageDataView,
    pub media_type: Option<Seq<char>>,
    pub revised_prompt: Option<Seq<char>>,
    pub expires_at: Option<u64>,
}

impl DeepView for ImageArtifact {
    type V = ImageArtifactView;

    open spec fn deep_view(&self) -> ImageArtifactView {
        ImageArtifactView {
            data: self.data@,
            media_type: self.media_type.deep_view(),
            revised_prompt: self.revised_prompt.deep_view(),
            expires_at: self.expires_at,
        }
    }
}

#[derive(Debug, Clone, Copy, PartialEq, Eq, Structural)]
pub enum ImageOutcome {
    Complete,
    Partial,
    NoImage,
    Blocked,
}

#[derive(Debug, Clone, PartialEq, Eq)]
pub struct ImageResponse {
    pub outcome: ImageOutcome,
    pub images: Vec<ImageArtifact>,
    pub text: Option<String>,
    pub requested_model: String,
    pub reported_model: Option<String>,
    pub executed_profile: String,
    pub provider_id: String,
    pub request_id: Option<String>,
    pub usage: Option<Json>,
}

pub struct ImageResponseView {
    pub outcome: ImageOutcome,
    pub images: Seq<ImageArtifactView>,
    pub text: Option<Seq<char>>,
    pub requested_model: Seq<char>,
    pub reported_model: Option<Seq<char>>,
    pub executed_profile: Seq<char>,
    pub provider_id: Seq<char>,
    pub request_id: Option<Seq<char>>,
    pub usage: Option<JsonView>,
}

impl DeepView for ImageResponse {
    type V = ImageResponseView;

    open spec fn deep_view(&self) -> ImageResponseView {
        ImageResponseView {
            outcome: self.outcome,
            images: self.images.deep_view(),
            text: self.text.deep_view(),
            requested_model: self.requested_model@,
            reported_model: self.reported_model.deep_view(),
            executed_profile: self.executed_profile@,
            provider_id: self.provider_id@,
            request_id: self.request_id.deep_view(),
            usage: self.usage.deep_view(),
        }
    }
}

/// A task that a provider accepted, and the connection it belongs to.
#[derive(Debug, Clone, PartialEq, Eq)]
pub struct ImageTaskRef {
    pub version: u32,
    pub provider_id: String,
    pub profile_name: String,
    pub route: String,
    pub endpoint_fingerprint: String,
    pub account_scope: String,
    pub request_model: String,
    pub provider_task_id: String,
}

pub struct ImageTaskRefView {
    pub version: u32,
    pub provider_id: Seq<char>,
    pub profile_name: Seq<char>,
    pub route: Seq<char>,
    pub endpoint_fingerprint: Seq<char>,
    pub account_scope: Seq<char>,
    pub request_model: Seq<char>,
    pub provider_task_id: Seq<char>,
}

impl DeepView for ImageTaskRef {
    type V = ImageTaskRefView;

    open spec fn deep_view(&self) -> ImageTaskRefView {
        ImageTaskRefView {
            version: self.version,
            provider_id: self.provider_id@,
            profile_name: self.profile_name@,
            route: self.route@,
            endpoint_fingerprint: self.endpoint_fingerprint@,
            account_scope: self.account_scope@,
            request_model: self.request_model@,
            provider_task_id: self.provider_task_id@,
        }
    }
}

#[derive(Debug, Clone, PartialEq, Eq)]
pub enum ImageTaskSnapshot {
    Pending,
    Running,
    Succeeded { response: ImageResponse },
    Failed { message: String },
    Cancelled,
    Expired,
    Unknown { raw_status: String },
}

pub enum ImageTaskSnapshotView {
    Pending,
    Running,
    Succeeded { response: ImageResponseView },
    Failed { message: Seq<char> },
    Cancelled,
    Expired,
    Unknown { raw_status: Seq<char> },
}

impl DeepView for ImageTaskSnapshot {
    type V = ImageTaskSnapshotView;

    open spec fn deep_view(&self) -> ImageTaskSnapshotView {
        match self {
            ImageTaskSnapshot::Pending => ImageTaskSnapshotView::Pending,
            ImageTaskSnapshot::Running => ImageTaskSnapshotView::Running,
            ImageTaskSnapshot::Succeeded { response } => ImageTaskSnapshotView::Succeeded {
                response: response.deep_view(),
            },
            ImageTaskSnapshot::Failed { message } => ImageTaskSnapshotView::Failed { message: message@ },
            ImageTaskSnapshot::Cancelled => ImageTaskSnapshotView::Cancelled,
            ImageTaskSnapshot::Expired => ImageTaskSnapshotView::Expired,
            ImageTaskSnapshot::Unknown { raw_status } => ImageTaskSnapshotView::Unknown {
                raw_status: raw_status@,
            },
        }
    }
}

/// One row of the image catalog.
#[derive(Debug, Clone, PartialEq, Eq)]
pub struct ImageModelListing {
    pub profile_name: String,
    pub provider_id: String,
    pub display_model: String,
    pub request_model: String,
    pub capabilities: ImageCapabilities,
}

pub struct ImageModelListingView {
    pub profile_name: Seq<char>,
    pub provider_id: Seq<char>,
    pub display_model: Seq<char>,
    pub request_model: Seq<char>,
    pub capabilities: ImageCapabilities,
}

impl DeepView for ImageModelListing {
    type V = ImageModelListingView;

    open spec fn deep_view(&self) -> ImageModelListingView {
        ImageModelListingView {
            profile_name: self.profile_name@,
            provider_id: self.provider_id@,
            display_model: self.display_model@,
            request_model: self.request_model@,
            capabilities: self.capabilities,
        }
    }
}

} // verus!
