//! Conversations, requests and responses.

use crate::json::{Json, JsonView, Number, NumberView};
use crate::protocol::inference::{
    InferenceReport, InferenceReportView, ServiceTier, ThinkingConfig,
};
use crate::protocol::profile::{AttachmentRef, ProtocolFamily};
use vstd::prelude::*;

verus! {

#[derive(Debug, Clone, Copy, PartialEq, Eq, Structural)]
pub enum MessageRole {
    User,
    Assistant,
    System,
}

/// A file that a provider holds, and the connection it belongs to.
#[derive(Debug, Clone, PartialEq, Eq)]
pub struct ProviderFileSource {
    pub protocol: ProtocolFamily,
    pub provider_id: String,
    pub profile_name: String,
    pub endpoint_fingerprint: String,
    pub account_scope: Option<String>,
    pub file_id: String,
    pub uri: Option<String>,
    pub media_type: Option<String>,
    pub purpose: Option<String>,
}

pub struct ProviderFileSourceView {
    pub protocol: ProtocolFamily,
    pub provider_id: Seq<char>,
    pub profile_name: Seq<char>,
    pub endpoint_fingerprint: Seq<char>,
    pub account_scope: Option<Seq<char>>,
    pub file_id: Seq<char>,
    pub uri: Option<Seq<char>>,
    pub media_type: Option<Seq<char>>,
    pub purpose: Option<Seq<char>>,
}

impl View for ProviderFileSource {
    type V = ProviderFileSourceView;

    open spec fn view(&self) -> ProviderFileSourceView {
        ProviderFileSourceView {
            protocol: self.protocol,
            provider_id: self.provider_id@,
            profile_name: self.profile_name@,
            endpoint_fingerprint: self.endpoint_fingerprint@,
            account_scope: self.account_scope.deep_view(),
            file_id: self.file_id@,
            uri: self.uri.deep_view(),
            media_type: self.media_type.deep_view(),
            purpose: self.purpose.deep_view(),
        }
    }
}

impl DeepView for ProviderFileSource {
    type V = ProviderFileSourceView;

    open spec fn deep_view(&self) -> ProviderFileSourceView {
        self@
    }
}

#[derive(Debug, Clone, PartialEq, Eq)]
pub enum ImageSource {
    Base64 { media_type: String, data: String },
    Url { url: String },
    Attachment { attachment: AttachmentRef },
    ProviderFile { file: ProviderFileSource },
}

#[derive(Debug, Clone, PartialEq, Eq)]
pub enum DocumentSource {
    Base64 { media_type: String, data: String },
    Text { media_type: String, data: String },
    Url { url: String },
    Attachment { attachment: AttachmentRef },
    ProviderFile { file: ProviderFileSource },
}

#[derive(Debug, Clone, PartialEq, Eq)]
pub enum VideoSource {
    Base64 { media_type: String, data: String },
    Url { url: String },
    Attachment { attachment: AttachmentRef },
    ProviderFile { file: ProviderFileSource },
}

#[derive(Debug, Clone, PartialEq, Eq)]
pub enum ContentBlock {
    Text { text: String, thought_signature: Option<String> },
    Thinking { text: String, signature: Option<String> },
    RedactedThinking { data: String },
    ToolUse {
        id: String,
        name: String,
        input: Json,
        provider_id: Option<String>,
        thought_signature: Option<String>,
    },
    ToolResult {
        tool_use_id: String,
        content: String,
        is_error: bool,
        /// Native blocks that stand in for `content` where the wire takes them.
        blocks: Option<Vec<Json>>,
    },
    Image { source: ImageSource },
    Document { source: DocumentSource, title: Option<String> },
    Video { source: VideoSource },
    /// Content in a provider's own form, for replay on the same wire.
    ProviderContent { protocol: ProtocolFamily, value: Json },
}

/// What a wire decodes a block to.
pub enum ContentBlockView {
    Text { text: Seq<char>, thought_signature: Option<Seq<char>> },
    Thinking { text: Seq<char>, signature: Option<Seq<char>> },
    RedactedThinking { data: Seq<char> },
    ToolUse {
        id: Seq<char>,
        name: Seq<char>,
        input: JsonView,
        provider_id: Option<Seq<char>>,
        thought_signature: Option<Seq<char>>,
    },
    ProviderContent { protocol: ProtocolFamily, value: JsonView },
    /// Content that only a request carries.
    Input,
}

impl DeepView for ContentBlock {
    type V = ContentBlockView;

    open spec fn deep_view(&self) -> ContentBlockView {
        match self {
            ContentBlock::Text { text, thought_signature } => ContentBlockView::Text {
                text: text@,
                thought_signature: thought_signature.deep_view(),
            },
            ContentBlock::Thinking { text, signature } => ContentBlockView::Thinking {
                text: text@,
                signature: signature.deep_view(),
            },
            ContentBlock::RedactedThinking { data } => ContentBlockView::RedactedThinking {
                data: data@,
            },
            ContentBlock::ToolUse { id, name, input, provider_id, thought_signature } => ContentBlockView::ToolUse {
                id: id@,
                name: name@,
                input: input@,
                provider_id: provider_id.deep_view(),
                thought_signature: thought_signature.deep_view(),
            },
            ContentBlock::ProviderContent { protocol, value } => ContentBlockView::ProviderContent {
                protocol: *protocol,
                value: value@,
            },
            _ => ContentBlockView::Input,
        }
    }
}

#[derive(Debug, Clone, PartialEq, Eq)]
pub struct ConversationMessage {
    pub role: MessageRole,
    pub content: Vec<ContentBlock>,
}

/// One part of the system prompt.
#[derive(Debug, Clone, PartialEq, Eq)]
pub struct SystemBlock {
    pub text: String,
    pub cacheable: bool,
}

#[derive(Debug, Clone, PartialEq, Eq)]
pub struct ToolSpec {
    pub name: String,
    pub description: String,
    pub input_schema: Json,
    pub strict: Option<bool>,
    pub tool_type: Option<String>,
    pub defer_loading: Option<bool>,
    /// Further native fields; null where there are none.
    pub extra: Json,
}

#[derive(Debug, Clone, PartialEq, Eq)]
pub enum ToolChoice {
    Auto,
    Any,
    Forbidden,
    Tool { name: String },
}

#[derive(Debug, Clone, PartialEq, Eq)]
pub struct WebSearchOptions {
    pub allowed_domains: Vec<String>,
    pub blocked_domains: Vec<String>,
    pub max_uses: Option<u32>,
}

#[derive(Debug, Clone, PartialEq, Eq)]
pub struct FileSearchOptions {
    pub knowledge_base_id: String,
    pub workspace_id: String,
}

#[derive(Debug, Clone, PartialEq, Eq)]
pub enum ResponseFormat {
    JsonObject,
    JsonSchema { name: String, schema: Json, strict: Option<bool> },
}

/// A nucleus-sampling share, and whether it lies between zero and one.
#[derive(Debug, Clone, PartialEq, Eq)]
pub struct TopP {
    pub value: Number,
    pub in_range: bool,
}

/// Controls beyond the common ones.
#[derive(Debug, Clone, PartialEq, Eq)]
pub struct RequestControls {
    pub top_p: Option<TopP>,
    pub context_hint: Option<Json>,
    /// Responses-only fields, as they go on the wire.
    pub responses: Vec<(String, Json)>,
    pub response_format: Option<ResponseFormat>,
}

#[derive(Debug, Clone, PartialEq, Eq)]
pub struct CompletionRequest {
    pub system: Vec<SystemBlock>,
    pub messages: Vec<ConversationMessage>,
    pub tools: Vec<ToolSpec>,
    pub tool_choice: ToolChoice,
    pub max_tokens: Option<u32>,
    pub temperature: Option<Number>,
    pub stop_sequences: Vec<String>,
    pub thinking: Option<ThinkingConfig>,
    pub service_tier: Option<ServiceTier>,
    pub web_search: Option<WebSearchOptions>,
    pub file_search: Option<FileSearchOptions>,
    pub previous_response_id: Option<String>,
    pub controls: RequestControls,
    /// Caller metadata; null where there is none.
    pub metadata: Json,
}

#[derive(Debug, Clone, PartialEq, Eq)]
pub enum StopReason {
    EndTurn,
    ToolUse,
    MaxTokens,
    StopSequence,
    Refusal,
    Other(String),
}

pub enum StopReasonView {
    EndTurn,
    ToolUse,
    MaxTokens,
    StopSequence,
    Refusal,
    Other(Seq<char>),
}

impl View for StopReason {
    type V = StopReasonView;

    open spec fn view(&self) -> StopReasonView {
        match self {
            StopReason::EndTurn => StopReasonView::EndTurn,
            StopReason::ToolUse => StopReasonView::ToolUse,
            StopReason::MaxTokens => StopReasonView::MaxTokens,
            StopReason::StopSequence => StopReasonView::StopSequence,
            StopReason::Refusal => StopReasonView::Refusal,
            StopReason::Other(reason) => StopReasonView::Other(reason@),
        }
    }
}

impl DeepView for StopReason {
    type V = StopReasonView;

    open spec fn deep_view(&self) -> StopReasonView {
        self@
    }
}

impl StopReason {
    pub fn dup(&self) -> (result: StopReason)
        ensures
            result@ == self@,
    {
        match self {
            StopReason::EndTurn => StopReason::EndTurn,
            StopReason::ToolUse => StopReason::ToolUse,
            StopReason::MaxTokens => StopReason::MaxTokens,
            StopReason::StopSequence => StopReason::StopSequence,
            StopReason::Refusal => StopReason::Refusal,
            StopReason::Other(reason) => StopReason::Other(reason.clone()),
        }
    }
}

#[derive(Debug, Clone, Copy, PartialEq, Eq)]
pub struct ServerToolUsage {
    pub web_search_requests: Option<u64>,
    pub file_search_requests: Option<u64>,
}

/// Token counts that partition the bill: input that was neither read from nor
/// written to a cache, cache reads, cache writes and output. The one-hour cache
/// writes and the reasoning tokens are parts of these, not further buckets.
#[derive(Debug, Clone, PartialEq, Eq)]
pub struct Usage {
    pub input_tokens: u64,
    pub output_tokens: u64,
    pub cache_read_tokens: u64,
    pub cache_write_tokens: u64,
    pub cache_write_1h_tokens: u64,
    pub reasoning_tokens: u64,
    /// What the provider says the call cost, in dollars.
    pub cost: Option<Number>,
    pub server_tool_usage: Option<ServerToolUsage>,
}

pub struct UsageView {
    pub input_tokens: u64,
    pub output_tokens: u64,
    pub cache_read_tokens: u64,
    pub cache_write_tokens: u64,
    pub cache_write_1h_tokens: u64,
    pub reasoning_tokens: u64,
    pub cost: Option<NumberView>,
    pub server_tool_usage: Option<ServerToolUsage>,
}

impl View for Usage {
    type V = UsageView;

    open spec fn view(&self) -> UsageView {
        UsageView {
            input_tokens: self.input_tokens,
            output_tokens: self.output_tokens,
            cache_read_tokens: self.cache_read_tokens,
            cache_write_tokens: self.cache_write_tokens,
            cache_write_1h_tokens: self.cache_write_1h_tokens,
            reasoning_tokens: self.reasoning_tokens,
            cost: self.cost.deep_view(),
            server_tool_usage: self.server_tool_usage,
        }
    }
}

impl DeepView for Usage {
    type V = UsageView;

    open spec fn deep_view(&self) -> UsageView {
        self@
    }
}

/// Nothing counted.
pub open spec fn no_usage() -> UsageView {
    UsageView {
        input_tokens: 0,
        output_tokens: 0,
        cache_read_tokens: 0,
        cache_write_tokens: 0,
        cache_write_1h_tokens: 0,
        reasoning_tokens: 0,
        cost: None,
        server_tool_usage: None,
    }
}

impl Default for Usage {
    fn default() -> (result: Self)
        ensures
            result@ == no_usage(),
    {
        Usage {
            input_tokens: 0,
            output_tokens: 0,
            cache_read_tokens: 0,
            cache_write_tokens: 0,
            cache_write_1h_tokens: 0,
            reasoning_tokens: 0,
            cost: None,
            server_tool_usage: None,
        }
    }
}

/// What a provider reported of usage. A report is complete once the turn is over
/// and the counts agree with each other.
#[derive(Debug, Clone, PartialEq, Eq)]
pub struct UsageReport {
    pub reported: Option<Usage>,
    pub complete: bool,
}

pub struct UsageReportView {
    pub reported: Option<UsageView>,
    pub complete: bool,
}

impl View for UsageReport {
    type V = UsageReportView;

    open spec fn view(&self) -> UsageReportView {
        UsageReportView { reported: self.reported.deep_view(), complete: self.complete }
    }
}

impl DeepView for UsageReport {
    type V = UsageReportView;

    open spec fn deep_view(&self) -> UsageReportView {
        self@
    }
}

#[derive(Debug, Clone, PartialEq, Eq)]
pub struct WebCitation {
    pub url: String,
    pub title: Option<String>,
}

pub struct WebCitationView {
    pub url: Seq<char>,
    pub title: Option<Seq<char>>,
}

impl DeepView for WebCitation {
    type V = WebCitationView;

    open spec fn deep_view(&self) -> WebCitationView {
        WebCitationView { url: self.url@, title: self.title.deep_view() }
    }
}

/// Native attribution metadata with a convenience source list.
#[derive(Debug, Clone, PartialEq, Eq)]
pub struct WebSearchResult {
    pub citations: Vec<WebCitation>,
    pub metadata: Json,
}

pub struct WebSearchResultView {
    pub citations: Seq<WebCitationView>,
    pub metadata: JsonView,
}

impl DeepView for WebSearchResult {
    type V = WebSearchResultView;

    open spec fn deep_view(&self) -> WebSearchResultView {
        WebSearchResultView { citations: self.citations.deep_view(), metadata: self.metadata@ }
    }
}

#[derive(Debug, Clone, PartialEq, Eq)]
pub struct FileSearchHit {
    pub file_id: String,
    pub filename: Option<String>,
    pub score: Option<Number>,
    pub text: Option<String>,
}

pub struct FileSearchHitView {
    pub file_id: Seq<char>,
    pub filename: Option<Seq<char>>,
    pub score: Option<NumberView>,
    pub text: Option<Seq<char>>,
}

impl DeepView for FileSearchHit {
    type V = FileSearchHitView;

    open spec fn deep_view(&self) -> FileSearchHitView {
        FileSearchHitView {
            file_id: self.file_id@,
            filename: self.filename.deep_view(),
            score: self.score.deep_view(),
            text: self.text.deep_view(),
        }
    }
}

#[derive(Debug, Clone, PartialEq, Eq)]
pub struct FileSearchResult {
    pub queries: Vec<String>,
    pub hits: Vec<FileSearchHit>,
    pub metadata: Json,
}

pub struct FileSearchResultView {
    pub queries: Seq<Seq<char>>,
    pub hits: Seq<FileSearchHitView>,
    pub metadata: JsonView,
}

impl DeepView for FileSearchResult {
    type V = FileSearchResultView;

    open spec fn deep_view(&self) -> FileSearchResultView {
        FileSearchResultView {
            queries: self.queries.deep_view(),
            hits: self.hits.deep_view(),
            metadata: self.metadata@,
        }
    }
}

/// A finished assistant turn.
#[derive(Debug, Clone, PartialEq, Eq)]
pub struct CompletionResponse {
    pub content: Vec<ContentBlock>,
    pub stop_reason: StopReason,
    pub usage: UsageReport,
    pub model: String,
    pub response_id: Option<String>,
    pub web_search: Option<WebSearchResult>,
    pub file_search: Option<FileSearchResult>,
    pub inference: InferenceReport,
}

pub struct CompletionResponseView {
    pub content: Seq<ContentBlockView>,
    pub stop_reason: StopReasonView,
    pub usage: UsageReportView,
    pub model: Seq<char>,
    pub response_id: Option<Seq<char>>,
    pub web_search: Option<WebSearchResultView>,
    pub file_search: Option<FileSearchResultView>,
    pub inference: InferenceReportView,
}

impl DeepView for CompletionResponse {
    type V = CompletionResponseView;

    open spec fn deep_view(&self) -> CompletionResponseView {
        CompletionResponseView {
            content: self.content.deep_view(),
            stop_reason: self.stop_reason@,
            usage: self.usage@,
            model: self.model@,
            response_id: self.response_id.deep_view(),
            web_search: self.web_search.deep_view(),
            file_search: self.file_search.deep_view(),
            inference: self.inference@,
        }
    }
}

/// One step of a streamed turn.
#[derive(Debug, Clone, PartialEq, Eq)]
pub enum StreamEvent {
    Start { model: String, response_id: Option<String> },
    TextDelta { block: u64, text: String },
    ReasoningDelta { block: u64, text: String },
    ThoughtSignature { block: u64, signature: String },
    RedactedThinking { block: u64, data: String },
    ToolCallDelta {
        block: u64,
        id: String,
        provider_id: Option<String>,
        name: String,
        arguments_fragment: String,
    },
    ProviderContent { block: u64, protocol: ProtocolFamily, value: Json },
    NativeDelta { block: u64, protocol: ProtocolFamily, delta: Json },
    BlockEnd { block: u64 },
    WebSearch { result: WebSearchResult },
    FileSearch { result: FileSearchResult },
    Inference { report: InferenceReport },
    End { stop_reason: StopReason, usage: UsageReport, inference: InferenceReport },
}

pub enum StreamEventView {
    Start { model: Seq<char>, response_id: Option<Seq<char>> },
    TextDelta { block: u64, text: Seq<char> },
    ReasoningDelta { block: u64, text: Seq<char> },
    ThoughtSignature { block: u64, signature: Seq<char> },
    RedactedThinking { block: u64, data: Seq<char> },
    ToolCallDelta {
        block: u64,
        id: Seq<char>,
        provider_id: Option<Seq<char>>,
        name: Seq<char>,
        arguments_fragment: Seq<char>,
    },
    ProviderContent { block: u64, protocol: ProtocolFamily, value: JsonView },
    NativeDelta { block: u64, protocol: ProtocolFamily, delta: JsonView },
    BlockEnd { block: u64 },
    WebSearch { result: WebSearchResultView },
    FileSearch { result: FileSearchResultView },
    Inference { report: InferenceReportView },
    End { stop_reason: StopReasonView, usage: UsageReportView, inference: InferenceReportView },
}

impl DeepView for StreamEvent {
    type V = StreamEventView;

    open spec fn deep_view(&self) -> StreamEventView {
        match self {
            StreamEvent::Start { model, response_id } => StreamEventView::Start {
                model: model@,
                response_id: response_id.deep_view(),
            },
            StreamEvent::TextDelta { block, text } => StreamEventView::TextDelta {
                block: *block,
                text: text@,
            },
            StreamEvent::ReasoningDelta { block, text } => StreamEventView::ReasoningDelta {
                block: *block,
                text: text@,
            },
            StreamEvent::ThoughtSignature { block, signature } => StreamEventView::ThoughtSignature {
                block: *block,
                signature: signature@,
            },
            StreamEvent::RedactedThinking { block, data } => StreamEventView::RedactedThinking {
                block: *block,
                data: data@,
            },
            StreamEvent::ToolCallDelta { block, id, provider_id, name, arguments_fragment } => StreamEventView::ToolCallDelta {
                block: *block,
                id: id@,
                provider_id: provider_id.deep_view(),
                name: name@,
                arguments_fragment: arguments_fragment@,
            },
            StreamEvent::ProviderContent { block, protocol, value } => StreamEventView::ProviderContent {
                block: *block,
                protocol: *protocol,
                value: value@,
            },
            StreamEvent::NativeDelta { block, protocol, delta } => StreamEventView::NativeDelta {
                block: *block,
                protocol: *protocol,
                delta: delta@,
            },
            StreamEvent::BlockEnd { block } => StreamEventView::BlockEnd { block: *block },
            StreamEvent::WebSearch { result } => StreamEventView::WebSearch {
                result: result.deep_view(),
            },
            StreamEvent::FileSearch { result } => StreamEventView::FileSearch {
                result: result.deep_view(),
            },
            StreamEvent::Inference { report } => StreamEventView::Inference { report: report@ },
            StreamEvent::End { stop_reason, usage, inference } => StreamEventView::End {
                stop_reason: stop_reason@,
                usage: usage@,
                inference: inference@,
            },
        }
    }
}

} // verus!
