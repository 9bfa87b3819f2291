//! Request, response and provider types shared by every wire.

pub mod contents;
pub mod error;
pub mod facts;
pub mod features;
pub mod image;
pub mod inference;
pub mod message;
pub mod profile;

pub use contents::{
    AzureView, ConnectionSpecView, ImageModelView, ImageRouteView, ImagesView,
    InferenceConfigView, MetadataView, ModelView, ProviderView,
};
pub use error::{LlmError, LlmErrorView};
pub use features::{
    EffortRule, EffortRuleView, EffortSupport, FeaturesView, InferenceFeatures, ModeSupport,
};
pub use image::{
    ImageApi, ImageArtifact, ImageArtifactView, ImageCapabilities, ImageConfig, ImageData,
    ImageDataView, ImageEditRequest, ImageFormat, ImageGenerationRequest, ImageInput, ImageMask,
    ImageModelListing, ImageModelListingView, ImageModelProfile, ImageOutcome, ImageOutput,
    ImageQuality, ImageReference, ImageReferenceKind, ImageRequest, ImageResponse,
    ImageResponseView, ImageRouteConfig, ImageSize, ImageTaskRef, ImageTaskRefView,
    ImageTaskSnapshot, ImageTaskSnapshotView,
};
pub use inference::{
    CapabilitySupport, FastWire, InferenceConfig, InferenceReport, InferenceReportView,
    ReasoningEffort, ReasoningWire, ServiceTier, ThinkingBudget, ThinkingConfig, ThinkingMode,
};
pub use message::{
    CompletionRequest, CompletionResponse, CompletionResponseView, ContentBlock,
    ContentBlockView, ConversationMessage, DocumentSource, FileSearchHit, FileSearchHitView,
    FileSearchOptions, FileSearchResult, FileSearchResultView, ImageSource, MessageRole,
    ProviderFileSource, ProviderFileSourceView, RequestControls, ResponseFormat,
    ServerToolUsage, StopReason, StopReasonView, StreamEvent, StreamEventView, SystemBlock,
    ToolChoice, ToolSpec, TopP, Usage, UsageReport, UsageReportView, UsageView, VideoSource, WebCitation, WebCitationView,
    WebSearchOptions, WebSearchResult, WebSearchResultView,
};
pub use profile::{
    AttachmentRef, AzureConfig, ConnectionSpec, ModelCapabilities, ModelCapability,
    ModelMetadata, ModelProfile, ProtocolFamily, ProviderProfile, Region,
};
