//! Provider-specific file capabilities and validation.

use crate::encoding;
use crate::files::http;
use crate::files::types::{
    self, DownloadSupport, FileCapabilities, FilePurpose, ModelFileReference,
};
use crate::protocol::error;
use crate::protocol::inference;
use crate::protocol::profile;
use crate::protocol::{
    CapabilitySupport, CompletionRequest, ContentBlock, DocumentSource, ImageSource, LlmError,
    LlmErrorView, ModelCapability, ModelProfile, ProtocolFamily, ProviderFileSource,
    ProviderFileSourceView, ProviderProfile, VideoSource,
};
use crate::text;
use crate::views;
use vstd::prelude::*;

verus! {

broadcast use crate::views::group_views;

/// In bytes.
pub const QWEN_IMAGE_MAX_UPLOAD_BYTES: u64 = 20_000_000;

pub const GEMINI_PDF_MAX_UPLOAD_BYTES: u64 = 50_000_000;

pub const OPENAI_INPUT_FILE_MAX_UPLOAD_BYTES: u64 = 50_000_000;

/// In seconds. Automatic uploads do not expose provider IDs to callers.
/// Providers that support an upload lifetime receive one, and cached references
/// expire earlier.
pub const AUTOMATIC_FILE_TTL: u64 = 86_400;

pub const AUTOMATIC_FILE_CACHE_TTL: u64 = 82_800;

/// The file API of a provider's endpoint.
#[derive(Debug, Clone, Copy, PartialEq, Eq, Structural)]
pub enum Adapter {
    OpenAi,
    Anthropic,
    Gemini,
    Xai,
    OpenRouter,
    Moonshot,
    Zai,
    Zhipu,
    Qwen,
    MiniMax,
}

/// Letters, digits and hyphens, at least one.
pub open spec fn workspace_id(workspace: Seq<char>) -> bool {
    workspace.len() > 0 && forall|i: int|
        0 <= i < workspace.len() ==> text::alphanumeric(#[trigger] workspace[i]) || workspace[i]
            == '-'
}

pub fn valid_workspace_id(workspace: &str) -> (result: bool)
    ensures
        result == workspace_id(workspace@),
{
    let cs = text::chars(workspace);
    let mut i: usize = 0;
    while i < cs.len()
        invariant
            i <= cs.len(),
            cs@ == workspace@,
            forall|j: int|
                0 <= j < i ==> text::alphanumeric(#[trigger] cs@[j]) || cs@[j] == '-',
        decreases cs.len() - i,
    {
        if !text::is_alphanumeric(cs[i]) && cs[i] != '-' {
            return false;
        }
        i = i + 1;
    }
    cs.len() > 0
}

/// A workspace under the domain.
pub open spec fn workspace_host(host: Seq<char>, domain: Seq<char>) -> bool {
    match text::before_suffix(host, domain) {
        Some(workspace) => workspace_id(workspace),
        None => false,
    }
}

fn is_workspace_host(host: &str, domain: &str) -> (result: bool)
    ensures
        result == workspace_host(host@, domain@),
{
    match text::strip_suffix(host, domain) {
        Some(workspace) => valid_workspace_id(&workspace),
        None => false,
    }
}

/// The hosts of Qwen's files.
pub open spec fn qwen_files_host(host: Seq<char>) -> bool {
    if host == "dashscope.aliyuncs.com"@ || host == "dashscope-intl.aliyuncs.com"@ {
        true
    } else if ".cn-beijing.maas.aliyuncs.com"@.is_suffix_of(host) {
        workspace_host(host, ".cn-beijing.maas.aliyuncs.com"@)
    } else {
        workspace_host(host, ".ap-southeast-1.maas.aliyuncs.com"@)
    }
}

pub fn is_qwen_files_host(host: &str) -> (result: bool)
    ensures
        result == qwen_files_host(host@),
{
    if text::same(host, "dashscope.aliyuncs.com") || text::same(
        host,
        "dashscope-intl.aliyuncs.com",
    ) {
        true
    } else if text::ends_with(host, ".cn-beijing.maas.aliyuncs.com") {
        is_workspace_host(host, ".cn-beijing.maas.aliyuncs.com")
    } else {
        is_workspace_host(host, ".ap-southeast-1.maas.aliyuncs.com")
    }
}

/// The file API of a provider at a host.
pub open spec fn adapter_at(
    provider: Seq<char>,
    host: Option<Seq<char>>,
    protocol: ProtocolFamily,
) -> Option<Adapter> {
    match host {
        None => None,
        Some(host) => if provider == "openai"@ && host == "api.openai.com"@ {
            Some(Adapter::OpenAi)
        } else if provider == "anthropic"@ && host == "api.anthropic.com"@ {
            Some(Adapter::Anthropic)
        } else if provider == "google"@ && host == "generativelanguage.googleapis.com"@ && protocol
            == ProtocolFamily::GeminiGenerateContent {
            Some(Adapter::Gemini)
        } else if provider == "xai"@ && host == "api.x.ai"@ {
            Some(Adapter::Xai)
        } else if provider == "openrouter"@ && host == "openrouter.ai"@ {
            Some(Adapter::OpenRouter)
        } else if (provider == "kimi"@ || provider == "moonshot"@) && (host == "api.moonshot.cn"@
            || host == "api.moonshot.ai"@) {
            Some(Adapter::Moonshot)
        } else if provider == "zhipu"@ && host == "api.z.ai"@ {
            Some(Adapter::Zai)
        } else if provider == "zhipu"@ && host == "open.bigmodel.cn"@ {
            Some(Adapter::Zhipu)
        } else if provider == "qwen"@ && qwen_files_host(host) {
            Some(Adapter::Qwen)
        } else if provider == "minimax"@ && (host == "api.minimaxi.com"@ || host
            == "api.minimax.io"@) {
            Some(Adapter::MiniMax)
        } else {
            None
        },
    }
}

/// The file API of a connection. A protocol that other providers share does not
/// by itself mean that their file APIs are there.
pub open spec fn adapter_of(profile: ProviderProfile) -> Option<Adapter> {
    adapter_at(
        profile.provider_id@,
        encoding::url_host(profile.base_url@),
        profile.protocol,
    )
}

/// The choice behind [`adapter`], given the host.
pub fn adapter_for(provider: &str, host: &Option<String>, protocol: ProtocolFamily) -> (result:
    Option<Adapter>)
    ensures
        result == adapter_at(provider@, host.deep_view(), protocol),
{
    let host = match host {
        Some(host) => host.as_str(),
        None => return None,
    };
    if text::same(provider, "openai") && text::same(host, "api.openai.com") {
        Some(Adapter::OpenAi)
    } else if text::same(provider, "anthropic") && text::same(host, "api.anthropic.com") {
        Some(Adapter::Anthropic)
    } else if text::same(provider, "google") && text::same(
        host,
        "generativelanguage.googleapis.com",
    ) && protocol == ProtocolFamily::GeminiGenerateContent {
        Some(Adapter::Gemini)
    } else if text::same(provider, "xai") && text::same(host, "api.x.ai") {
        Some(Adapter::Xai)
    } else if text::same(provider, "openrouter") && text::same(host, "openrouter.ai") {
        Some(Adapter::OpenRouter)
    } else if (text::same(provider, "kimi") || text::same(provider, "moonshot")) && (text::same(
        host,
        "api.moonshot.cn",
    ) || text::same(host, "api.moonshot.ai")) {
        Some(Adapter::Moonshot)
    } else if text::same(provider, "zhipu") && text::same(host, "api.z.ai") {
        Some(Adapter::Zai)
    } else if text::same(provider, "zhipu") && text::same(host, "open.bigmodel.cn") {
        Some(Adapter::Zhipu)
    } else if text::same(provider, "qwen") && is_qwen_files_host(host) {
        Some(Adapter::Qwen)
    } else if text::same(provider, "minimax") && (text::same(host, "api.minimaxi.com")
        || text::same(host, "api.minimax.io")) {
        Some(Adapter::MiniMax)
    } else {
        None
    }
}

pub fn adapter(profile: &ProviderProfile) -> (result: Option<Adapter>)
    ensures
        result == adapter_of(*profile),
{
    adapter_for(
        &profile.provider_id,
        &encoding::host_of(&profile.base_url),
        profile.protocol,
    )
}

/// How long a cached automatic upload may be reused, in seconds.
pub fn automatic_file_cache_ttl(profile: &ProviderProfile) -> (result: Option<u64>)
    ensures
        result == (match adapter_of(*profile) {
            Some(Adapter::Anthropic | Adapter::OpenAi | Adapter::Xai) => Some(
                AUTOMATIC_FILE_CACHE_TTL,
            ),
            _ => None,
        }),
{
    match adapter(profile) {
        Some(Adapter::Anthropic) | Some(Adapter::OpenAi) | Some(Adapter::Xai) => Some(
            AUTOMATIC_FILE_CACHE_TTL,
        ),
        _ => None,
    }
}

/// Qwen's file-extract uploads have no provider-side expiration. Their automatic
/// lifetime stays within one model attempt, even with a stable account scope.
pub fn needs_automatic_cleanup(profile: &ProviderProfile) -> (result: bool)
    ensures
        result == (adapter_of(*profile) == Some(Adapter::Qwen)),
{
    match adapter(profile) {
        Some(Adapter::Qwen) => true,
        _ => false,
    }
}

/// Letters, digits, hyphens and underscores, at least one.
pub open spec fn qwen_file_id(file_id: Seq<char>) -> bool {
    file_id.len() > 0 && forall|i: int|
        0 <= i < file_id.len() ==> text::alphanumeric(#[trigger] file_id[i]) || file_id[i] == '-'
            || file_id[i] == '_'
}

pub fn valid_qwen_file_id(file_id: &str) -> (result: bool)
    ensures
        result == qwen_file_id(file_id@),
{
    let cs = text::chars(file_id);
    let mut i: usize = 0;
    while i < cs.len()
        invariant
            i <= cs.len(),
            cs@ == file_id@,
            forall|j: int|
                0 <= j < i ==> text::alphanumeric(#[trigger] cs@[j]) || cs@[j] == '-' || cs@[j]
                    == '_',
        decreases cs.len() - i,
    {
        if !text::is_alphanumeric(cs[i]) && cs[i] != '-' && cs[i] != '_' {
            return false;
        }
        i = i + 1;
    }
    cs.len() > 0
}

/// The long-context models of Qwen, by name in any case.
pub open spec fn qwen_long_model(model: Seq<char>) -> bool {
    text::lower(model) == text::lower("qwen-long"@) || "qwen-long-"@.is_prefix_of(
        text::lower(model),
    )
}

pub fn is_qwen_long_model(model: &str) -> (result: bool)
    ensures
        result == qwen_long_model(model@),
{
    text::same_ignoring_case(model, "qwen-long") || text::starts_with(
        &text::to_lower(model),
        "qwen-long-",
    )
}

/// An image or document that stands in the request itself.
pub open spec fn carried_inline(block: ContentBlock) -> bool {
    match block {
        ContentBlock::Image { source: ImageSource::Base64 { .. } | ImageSource::Url { .. } } => true,
        ContentBlock::Document {
            source: DocumentSource::Base64 { .. }
                | DocumentSource::Text { .. }
                | DocumentSource::Url { .. },
            ..
        } => true,
        _ => false,
    }
}

fn is_carried_inline(block: &ContentBlock) -> (result: bool)
    ensures
        result == carried_inline(*block),
{
    match block {
        ContentBlock::Image { source } => match source {
            ImageSource::Base64 { .. } => true,
            ImageSource::Url { .. } => true,
            _ => false,
        },
        ContentBlock::Document { source, .. } => match source {
            DocumentSource::Base64 { .. } => true,
            DocumentSource::Text { .. } => true,
            DocumentSource::Url { .. } => true,
            _ => false,
        },
        _ => false,
    }
}

pub open spec fn inline_error() -> LlmErrorView {
    error::unsupported_view(
        "Qwen-Long image and document inputs require an app attachment or a Qwen provider file reference; inline data and URLs are unsupported"@,
    )
}

fn inline_refusal() -> (error: LlmError)
    ensures
        error@ == inline_error(),
{
    error::unsupported(
        "Qwen-Long image and document inputs require an app attachment or a Qwen provider file reference; inline data and URLs are unsupported",
    )
}

/// Whether a block is carried inline.
pub open spec fn any_inline(blocks: Seq<ContentBlock>) -> bool {
    exists|i: int| 0 <= i < blocks.len() && carried_inline(#[trigger] blocks[i])
}

/// Qwen-Long takes images and documents as uploaded files only.
pub fn validate_qwen_long_blocks(blocks: &Vec<&ContentBlock>) -> (result: Result<(), LlmError>)
    ensures
        views::res(result) == http::checked(
            if any_inline(views::plain(blocks@)) {
                Some(inline_error())
            } else {
                None
            },
        ),
{
    let mut i: usize = 0;
    while i < blocks.len()
        invariant
            i <= blocks.len(),
            forall|j: int| 0 <= j < i ==> !carried_inline(*#[trigger] blocks@[j]),
        decreases blocks.len() - i,
    {
        if is_carried_inline(blocks[i]) {
            assert(carried_inline(views::plain(blocks@)[i as int]));
            return Err(inline_refusal());
        }
        i = i + 1;
    }
    Ok(())
}

/// Whether a block of the request, but for the resolved ones, is carried inline.
pub open spec fn unresolved_inline(
    request: CompletionRequest,
    resolved: Seq<(usize, usize)>,
) -> bool {
    exists|m: int, b: int|
        {
            &&& 0 <= m < request.messages@.len()
            &&& 0 <= b < request.messages@[m].content@.len()
            &&& carried_inline(#[trigger] request.messages@[m].content@[b])
            &&& !resolved.contains((m as usize, b as usize))
        }
}

fn has_position(resolved: &Vec<(usize, usize)>, m: usize, b: usize) -> (result: bool)
    ensures
        result == resolved@.contains((m, b)),
{
    let mut i: usize = 0;
    while i < resolved.len()
        invariant
            i <= resolved.len(),
            forall|j: int| 0 <= j < i ==> resolved@[j] != (m, b),
        decreases resolved.len() - i,
    {
        if resolved[i].0 == m && resolved[i].1 == b {
            assert(resolved@[i as int] == (m, b));
            return true;
        }
        i = i + 1;
    }
    false
}

/// The blocks at the resolved positions are about to become uploaded files.
pub fn validate_qwen_long_inputs(request: &CompletionRequest, resolved: &Vec<(usize, usize)>) -> (result:
    Result<(), LlmError>)
    ensures
        views::res(result) == http::checked(
            if unresolved_inline(*request, resolved@) {
                Some(inline_error())
            } else {
                None
            },
        ),
{
    let mut m: usize = 0;
    while m < request.messages.len()
        invariant
            m <= request.messages.len(),
            forall|i: int, b: int|
                0 <= i < m && 0 <= b < request.messages@[i].content@.len() && carried_inline(
                    #[trigger] request.messages@[i].content@[b],
                ) ==> resolved@.contains((i as usize, b as usize)),
        decreases request.messages.len() - m,
    {
        let content = &request.messages[m].content;
        let mut b: usize = 0;
        while b < content.len()
            invariant
                m < request.messages.len(),
                content@ == request.messages@[m as int].content@,
                b <= content.len(),
                forall|k: int|
                    0 <= k < b && carried_inline(#[trigger] content@[k]) ==> resolved@.contains(
                        (m, k as usize),
                    ),
            decreases content.len() - b,
        {
            if is_carried_inline(&content[b]) && !has_position(resolved, m, b) {
                assert(carried_inline(request.messages@[m as int].content@[b as int]));
                return Err(inline_refusal());
            }
            b = b + 1;
        }
        m = m + 1;
    }
    Ok(())
}

/// The hosts at which Qwen-Long reads files.
pub open spec fn qwen_long_host(host: Option<Seq<char>>) -> bool {
    match host {
        Some(host) => host == "dashscope.aliyuncs.com"@ || workspace_host(
            host,
            ".cn-beijing.maas.aliyuncs.com"@,
        ),
        None => false,
    }
}

pub fn qwen_long_region_supported(profile: &ProviderProfile) -> (result: bool)
    ensures
        result == qwen_long_host(encoding::url_host(profile.base_url@)),
{
    match encoding::host_of(&profile.base_url) {
        Some(host) => text::same(&host, "dashscope.aliyuncs.com") || is_workspace_host(
            &host,
            ".cn-beijing.maas.aliyuncs.com",
        ),
        None => false,
    }
}

/// Types that Qwen's files take, in lower case.
pub open spec fn qwen_file_type(media_type: Seq<char>) -> bool {
    ||| "text/"@.is_prefix_of(media_type)
    ||| media_type == "application/pdf"@
    ||| media_type == "application/json"@
    ||| media_type == "application/epub+zip"@
    ||| media_type == "application/vnd.openxmlformats-officedocument.wordprocessingml.document"@
    ||| media_type == "application/vnd.openxmlformats-officedocument.spreadsheetml.sheet"@
    ||| media_type == "application/vnd.oasis.opendocument.text"@
    ||| media_type == "application/msword"@
    ||| media_type == "application/vnd.ms-excel"@
    ||| media_type == "image/bmp"@
    ||| media_type == "image/png"@
    ||| media_type == "image/jpeg"@
    ||| media_type == "image/gif"@
}

pub fn is_qwen_file_type(media_type: &str) -> (result: bool)
    ensures
        result == qwen_file_type(media_type@),
{
    text::starts_with(media_type, "text/")
        || text::same(media_type, "application/pdf")
        || text::same(media_type, "application/json")
        || text::same(media_type, "application/epub+zip")
        || text::same(media_type, "application/vnd.openxmlformats-officedocument.wordprocessingml.document")
        || text::same(media_type, "application/vnd.openxmlformats-officedocument.spreadsheetml.sheet")
        || text::same(media_type, "application/vnd.oasis.opendocument.text")
        || text::same(media_type, "application/msword")
        || text::same(media_type, "application/vnd.ms-excel")
        || text::same(media_type, "image/bmp")
        || text::same(media_type, "image/png")
        || text::same(media_type, "image/jpeg")
        || text::same(media_type, "image/gif")
}

/// Types that xAI reads as documents, in lower case.
pub open spec fn xai_document_type(media_type: Seq<char>) -> bool {
    ||| "text/"@.is_prefix_of(media_type)
    ||| media_type == "application/pdf"@
    ||| media_type == "application/json"@
    ||| media_type == "application/x-ndjson"@
}

pub fn is_xai_document_type(media_type: &str) -> (result: bool)
    ensures
        result == xai_document_type(media_type@),
{
    text::starts_with(media_type, "text/")
        || text::same(media_type, "application/pdf")
        || text::same(media_type, "application/json")
        || text::same(media_type, "application/x-ndjson")
}

/// Video types that Gemini reads, in lower case.
pub open spec fn gemini_video_type(media_type: Seq<char>) -> bool {
    ||| media_type == "video/mp4"@
    ||| media_type == "video/mpeg"@
    ||| media_type == "video/mov"@
    ||| media_type == "video/quicktime"@
    ||| media_type == "video/avi"@
    ||| media_type == "video/x-flv"@
    ||| media_type == "video/mpg"@
    ||| media_type == "video/webm"@
    ||| media_type == "video/wmv"@
    ||| media_type == "video/3gpp"@
}

pub fn is_gemini_video_type(media_type: &str) -> (result: bool)
    ensures
        result == gemini_video_type(media_type@),
{
    text::same(media_type, "video/mp4")
        || text::same(media_type, "video/mpeg")
        || text::same(media_type, "video/mov")
        || text::same(media_type, "video/quicktime")
        || text::same(media_type, "video/avi")
        || text::same(media_type, "video/x-flv")
        || text::same(media_type, "video/mpg")
        || text::same(media_type, "video/webm")
        || text::same(media_type, "video/wmv")
        || text::same(media_type, "video/3gpp")
}

/// Audio types that Gemini reads, in lower case.
pub open spec fn gemini_audio_type(media_type: Seq<char>) -> bool {
    ||| media_type == "audio/wav"@
    ||| media_type == "audio/mp3"@
    ||| media_type == "audio/aiff"@
    ||| media_type == "audio/aac"@
    ||| media_type == "audio/ogg"@
    ||| media_type == "audio/flac"@
    ||| media_type == "audio/mpeg"@
    ||| media_type == "audio/m4a"@
    ||| media_type == "audio/l16"@
    ||| media_type == "audio/opus"@
    ||| media_type == "audio/alaw"@
    ||| media_type == "audio/mulaw"@
    ||| media_type == "audio/webm"@
}

pub fn is_gemini_audio_type(media_type: &str) -> (result: bool)
    ensures
        result == gemini_audio_type(media_type@),
{
    text::same(media_type, "audio/wav")
        || text::same(media_type, "audio/mp3")
        || text::same(media_type, "audio/aiff")
        || text::same(media_type, "audio/aac")
        || text::same(media_type, "audio/ogg")
        || text::same(media_type, "audio/flac")
        || text::same(media_type, "audio/mpeg")
        || text::same(media_type, "audio/m4a")
        || text::same(media_type, "audio/l16")
        || text::same(media_type, "audio/opus")
        || text::same(media_type, "audio/alaw")
        || text::same(media_type, "audio/mulaw")
        || text::same(media_type, "audio/webm")
}

/// Document types that Gemini reads, in lower case.
pub open spec fn gemini_document_type(media_type: Seq<char>) -> bool {
    ||| "text/"@.is_prefix_of(media_type)
    ||| media_type == "application/pdf"@
    ||| media_type == "application/json"@
    ||| media_type == "application/rtf"@
}

pub fn is_gemini_document_type(media_type: &str) -> (result: bool)
    ensures
        result == gemini_document_type(media_type@),
{
    text::starts_with(media_type, "text/")
        || text::same(media_type, "application/pdf")
        || text::same(media_type, "application/json")
        || text::same(media_type, "application/rtf")
}

/// Image types that OpenAI reads, in lower case.
pub open spec fn openai_image_type(media_type: Seq<char>) -> bool {
    ||| media_type == "image/jpeg"@
    ||| media_type == "image/png"@
    ||| media_type == "image/webp"@
    ||| media_type == "image/gif"@
}

pub fn is_openai_image_type(media_type: &str) -> (result: bool)
    ensures
        result == openai_image_type(media_type@),
{
    text::same(media_type, "image/jpeg")
        || text::same(media_type, "image/png")
        || text::same(media_type, "image/webp")
        || text::same(media_type, "image/gif")
}

/// Image types that Anthropic reads, in lower case.
pub open spec fn anthropic_image_type(media_type: Seq<char>) -> bool {
    ||| media_type == "image/jpeg"@
    ||| media_type == "image/png"@
    ||| media_type == "image/gif"@
    ||| media_type == "image/webp"@
}

pub fn is_anthropic_image_type(media_type: &str) -> (result: bool)
    ensures
        result == anthropic_image_type(media_type@),
{
    text::same(media_type, "image/jpeg")
        || text::same(media_type, "image/png")
        || text::same(media_type, "image/gif")
        || text::same(media_type, "image/webp")
}

/// Image types that Gemini reads, in lower case.
pub open spec fn gemini_image_type(media_type: Seq<char>) -> bool {
    ||| media_type == "image/jpeg"@
    ||| media_type == "image/png"@
    ||| media_type == "image/webp"@
    ||| media_type == "image/heic"@
    ||| media_type == "image/heif"@
}

pub fn is_gemini_image_type(media_type: &str) -> (result: bool)
    ensures
        result == gemini_image_type(media_type@),
{
    text::same(media_type, "image/jpeg")
        || text::same(media_type, "image/png")
        || text::same(media_type, "image/webp")
        || text::same(media_type, "image/heic")
        || text::same(media_type, "image/heif")
}

/// Types that OpenAI's Responses read as files, in lower case.
pub open spec fn openai_responses_file_type(media_type: Seq<char>) -> bool {
    ||| "text/"@.is_prefix_of(media_type)
    ||| media_type == "application/pdf"@
    ||| media_type == "application/json"@
    ||| media_type == "application/graphql"@
    ||| media_type == "application/javascript"@
    ||| media_type == "application/typescript"@
    ||| media_type == "application/csv"@
    ||| media_type == "application/x-iif"@
    ||| media_type == "application/x-sql"@
    ||| media_type == "application/x-scala"@
    ||| media_type == "application/x-rust"@
    ||| media_type == "application/x-powershell"@
    ||| media_type == "application/x-patch"@
    ||| media_type == "application/x-php"@
    ||| media_type == "application/x-httpd-php"@
    ||| media_type == "application/x-httpd-php-source"@
    ||| media_type == "application/x-bash"@
    ||| media_type == "application/x-awk"@
    ||| media_type == "application/x-protobuf"@
    ||| media_type == "application/x-terraform"@
    ||| media_type == "application/x-graphql"@
    ||| media_type == "application/x-ndjson"@
    ||| media_type == "application/json5"@
    ||| media_type == "application/x-json5"@
    ||| media_type == "application/x-toml"@
    ||| media_type == "application/toml"@
    ||| media_type == "application/x-yaml"@
    ||| media_type == "application/yaml"@
    ||| media_type == "application/x-subrip"@
    ||| media_type == "application/msword"@
    ||| media_type == "application/rtf"@
    ||| media_type == "application/vnd.ms-excel"@
    ||| media_type == "application/vnd.openxmlformats-officedocument.spreadsheetml.sheet"@
    ||| media_type == "application/vnd.google-apps.spreadsheet"@
    ||| media_type == "application/vnd.apple.pages"@
    ||| media_type == "application/vnd.apple.iwork"@
    ||| media_type == "application/vnd.oasis.opendocument.text"@
    ||| media_type == "application/vnd.openxmlformats-officedocument.wordprocessingml.document"@
    ||| media_type == "application/vnd.google-apps.document"@
    ||| media_type == "application/vnd.openxmlformats-officedocument.presentationml.presentation"@
    ||| media_type == "application/vnd.ms-powerpoint"@
    ||| media_type == "application/vnd.apple.keynote"@
    ||| media_type == "application/vnd.google-apps.presentation"@
    ||| media_type == "message/rfc822"@
}

pub fn is_openai_responses_file_type(media_type: &str) -> (result: bool)
    ensures
        result == openai_responses_file_type(media_type@),
{
    text::starts_with(media_type, "text/")
        || text::same(media_type, "application/pdf")
        || text::same(media_type, "application/json")
        || text::same(media_type, "application/graphql")
        || text::same(media_type, "application/javascript")
        || text::same(media_type, "application/typescript")
        || text::same(media_type, "application/csv")
        || text::same(media_type, "application/x-iif")
        || text::same(media_type, "application/x-sql")
        || text::same(media_type, "application/x-scala")
        || text::same(media_type, "application/x-rust")
        || text::same(media_type, "application/x-powershell")
        || text::same(media_type, "application/x-patch")
        || text::same(media_type, "application/x-php")
        || text::same(media_type, "application/x-httpd-php")
        || text::same(media_type, "application/x-httpd-php-source")
        || text::same(media_type, "application/x-bash")
        || text::same(media_type, "application/x-awk")
        || text::same(media_type, "application/x-protobuf")
        || text::same(media_type, "application/x-terraform")
        || text::same(media_type, "application/x-graphql")
        || text::same(media_type, "application/x-ndjson")
        || text::same(media_type, "application/json5")
        || text::same(media_type, "application/x-json5")
        || text::same(media_type, "application/x-toml")
        || text::same(media_type, "application/toml")
        || text::same(media_type, "application/x-yaml")
        || text::same(media_type, "application/yaml")
        || text::same(media_type, "application/x-subrip")
        || text::same(media_type, "application/msword")
        || text::same(media_type, "application/rtf")
        || text::same(media_type, "application/vnd.ms-excel")
        || text::same(media_type, "application/vnd.openxmlformats-officedocument.spreadsheetml.sheet")
        || text::same(media_type, "application/vnd.google-apps.spreadsheet")
        || text::same(media_type, "application/vnd.apple.pages")
        || text::same(media_type, "application/vnd.apple.iwork")
        || text::same(media_type, "application/vnd.oasis.opendocument.text")
        || text::same(media_type, "application/vnd.openxmlformats-officedocument.wordprocessingml.document")
        || text::same(media_type, "application/vnd.google-apps.document")
        || text::same(media_type, "application/vnd.openxmlformats-officedocument.presentationml.presentation")
        || text::same(media_type, "application/vnd.ms-powerpoint")
        || text::same(media_type, "application/vnd.apple.keynote")
        || text::same(media_type, "application/vnd.google-apps.presentation")
        || text::same(media_type, "message/rfc822")
}

/// Whether a modality is in the list, in any case.
pub open spec fn has_modality(modalities: Seq<String>, name: Seq<char>) -> bool {
    exists|i: int|
        0 <= i < modalities.len() && text::lower((#[trigger] modalities[i])@) == text::lower(name)
}

pub fn lists_modality(modalities: &Vec<String>, name: &str) -> (result: bool)
    ensures
        result == has_modality(modalities@, name@),
{
    let mut i: usize = 0;
    while i < modalities.len()
        invariant
            i <= modalities.len(),
            forall|j: int|
                0 <= j < i ==> text::lower((#[trigger] modalities@[j])@) != text::lower(name@),
        decreases modalities.len() - i,
    {
        if text::same_ignoring_case(&modalities[i], name) {
            return true;
        }
        i = i + 1;
    }
    false
}

/// Whether the modalities name files.
pub open spec fn has_file_modality(modalities: Seq<String>) -> bool {
    has_modality(modalities, "file"@) || has_modality(modalities, "files"@) || has_modality(
        modalities,
        "document"@,
    ) || has_modality(modalities, "pdf"@)
}

fn lists_file_modality(modalities: &Vec<String>) -> (result: bool)
    ensures
        result == has_file_modality(modalities@),
{
    lists_modality(modalities, "file") || lists_modality(modalities, "files") || lists_modality(
        modalities,
        "document",
    ) || lists_modality(modalities, "pdf")
}

/// Whether a model declares that it reads files.
pub open spec fn declares_file_input(model: ModelProfile) -> bool {
    has_file_modality(model.metadata.input_modalities@) || profile::capability_of(
        model,
        ModelCapability::Documents,
    ) == CapabilitySupport::Supported || model.metadata.attachments == Some(true)
}

pub fn model_declares_file_input(model: &ModelProfile) -> (result: bool)
    ensures
        result == declares_file_input(*model),
{
    let attachments = match model.metadata.attachments {
        Some(attachments) => attachments,
        None => false,
    };
    lists_file_modality(&model.metadata.input_modalities) || model.capability_support_for(
        ModelCapability::Documents,
    ) == CapabilitySupport::Supported || attachments
}

/// Whether a model declares that it reads documents on Gemini's wire.
pub open spec fn declares_gemini_document_input(model: ModelProfile) -> bool {
    if model.metadata.input_modalities@.len() == 0 {
        declares_file_input(model)
    } else {
        has_file_modality(model.metadata.input_modalities@)
    }
}

pub fn model_declares_gemini_document_input(model: &ModelProfile) -> (result: bool)
    ensures
        result == declares_gemini_document_input(*model),
{
    if model.metadata.input_modalities.len() == 0 {
        model_declares_file_input(model)
    } else {
        lists_file_modality(&model.metadata.input_modalities)
    }
}

/// Whether a model declares that it reads images.
pub open spec fn declares_image_input(model: ModelProfile) -> bool {
    has_modality(model.metadata.input_modalities@, "image"@) || profile::capability_of(
        model,
        ModelCapability::Vision,
    ) == CapabilitySupport::Supported
}

pub fn model_declares_image_input(model: &ModelProfile) -> (result: bool)
    ensures
        result == declares_image_input(*model),
{
    lists_modality(&model.metadata.input_modalities, "image") || model.capability_support_for(
        ModelCapability::Vision,
    ) == CapabilitySupport::Supported
}

/// How a model of the connection takes a file of the lower-case media type.
pub open spec fn reference_for(
    profile: ProviderProfile,
    model: Seq<char>,
    row: ModelProfile,
    media: Seq<char>,
    adapter: Adapter,
) -> ModelFileReference {
    match adapter {
        Adapter::Qwen => if qwen_long_host(encoding::url_host(profile.base_url@))
            && profile.protocol == ProtocolFamily::OpenAiChat && qwen_long_model(model)
            && qwen_file_type(media) {
            ModelFileReference::FileUri
        } else {
            ModelFileReference::Unsupported
        },
        Adapter::MiniMax => if profile.protocol == ProtocolFamily::AnthropicMessages && text::lower(
            model,
        ) == text::lower("minimax-m3"@) && "video/"@.is_prefix_of(media) {
            ModelFileReference::FileUri
        } else {
            ModelFileReference::Unsupported
        },
        Adapter::OpenAi => if profile.protocol == ProtocolFamily::OpenAiResponses && ((
        openai_image_type(media) && declares_image_input(row)) || (openai_responses_file_type(media)
            && declares_file_input(row))) {
            ModelFileReference::FileId
        } else if profile.protocol == ProtocolFamily::OpenAiChat && media == "application/pdf"@
            && declares_file_input(row) {
            ModelFileReference::FileId
        } else {
            ModelFileReference::Unsupported
        },
        Adapter::Anthropic => if profile.protocol == ProtocolFamily::AnthropicMessages && ((
        anthropic_image_type(media) && declares_image_input(row)) || ((media == "application/pdf"@
            || media == "text/plain"@) && declares_file_input(row))) {
            ModelFileReference::FileId
        } else {
            ModelFileReference::Unsupported
        },
        Adapter::Gemini => if profile.protocol == ProtocolFamily::GeminiGenerateContent && ((
        gemini_image_type(media) && declares_image_input(row)) || (gemini_video_type(media)
            && has_modality(row.metadata.input_modalities@, "video"@)) || (gemini_audio_type(media)
            && has_modality(row.metadata.input_modalities@, "audio"@)) || (gemini_document_type(
            media,
        ) && declares_gemini_document_input(row))) {
            ModelFileReference::FileUri
        } else {
            ModelFileReference::Unsupported
        },
        Adapter::Xai => if profile.protocol == ProtocolFamily::OpenAiResponses
            && xai_document_type(media) && declares_file_input(row) {
            ModelFileReference::FileId
        } else {
            ModelFileReference::Unsupported
        },
        // OpenRouter's files are workspace storage, Moonshot's file ids are no
        // chat context, and Z.AI's uploads are auxiliary agent files.
        _ => ModelFileReference::Unsupported,
    }
}

/// How a model of the connection takes a file of the media type.
pub open spec fn model_reference(
    profile: ProviderProfile,
    model: Seq<char>,
    media_type: Seq<char>,
    adapter: Adapter,
) -> ModelFileReference {
    match profile::row_for(profile.models@, model, 0) {
        None => ModelFileReference::Unsupported,
        Some(row) => reference_for(profile, model, row, text::lower(media_type), adapter),
    }
}

pub fn model_reference_for(
    profile: &ProviderProfile,
    model: &str,
    media_type: &str,
    adapter: Adapter,
) -> (result: ModelFileReference)
    ensures
        result == model_reference(*profile, model@, media_type@, adapter),
{
    let row = match profile::find_row(&profile.models, model) {
        Some(row) => row,
        None => return ModelFileReference::Unsupported,
    };
    let media = text::to_lower(media_type);
    let id = match adapter {
        Adapter::OpenAi => (profile.protocol == ProtocolFamily::OpenAiResponses && ((
        is_openai_image_type(&media) && model_declares_image_input(row)) || (
        is_openai_responses_file_type(&media) && model_declares_file_input(row)))) || (
        profile.protocol == ProtocolFamily::OpenAiChat && text::same(&media, "application/pdf")
            && model_declares_file_input(row)),
        Adapter::Anthropic => profile.protocol == ProtocolFamily::AnthropicMessages && ((
        is_anthropic_image_type(&media) && model_declares_image_input(row)) || ((text::same(
            &media,
            "application/pdf",
        ) || text::same(&media, "text/plain")) && model_declares_file_input(row))),
        Adapter::Xai => profile.protocol == ProtocolFamily::OpenAiResponses && is_xai_document_type(
            &media,
        ) && model_declares_file_input(row),
        _ => false,
    };
    if id {
        return ModelFileReference::FileId;
    }
    let uri = match adapter {
        Adapter::Qwen => qwen_long_region_supported(profile) && profile.protocol
            == ProtocolFamily::OpenAiChat && is_qwen_long_model(model) && is_qwen_file_type(&media),
        Adapter::MiniMax => profile.protocol == ProtocolFamily::AnthropicMessages
            && text::same_ignoring_case(model, "minimax-m3") && text::starts_with(&media, "video/"),
        Adapter::Gemini => profile.protocol == ProtocolFamily::GeminiGenerateContent && ((
        is_gemini_image_type(&media) && model_declares_image_input(row)) || (is_gemini_video_type(
            &media,
        ) && lists_modality(&row.metadata.input_modalities, "video")) || (is_gemini_audio_type(
            &media,
        ) && lists_modality(&row.metadata.input_modalities, "audio")) || (is_gemini_document_type(
            &media,
        ) && model_declares_gemini_document_input(row))),
        _ => false,
    };
    if uri {
        ModelFileReference::FileUri
    } else {
        ModelFileReference::Unsupported
    }
}

/// What a provider calls the purpose.
pub open spec fn purpose_of(adapter: Adapter, purpose: FilePurpose) -> Option<Seq<char>> {
    match (adapter, purpose) {
        (Adapter::OpenAi, FilePurpose::ModelInput) => Some("user_data"@),
        (Adapter::Xai, FilePurpose::ModelInput) => Some("assistants"@),
        (Adapter::Moonshot | Adapter::Qwen, FilePurpose::Extraction | FilePurpose::ModelInput) => Some(
            "file-extract"@,
        ),
        (Adapter::Zai | Adapter::Zhipu, FilePurpose::Auxiliary) => Some("agent"@),
        (Adapter::MiniMax, FilePurpose::VoiceClone) => Some("voice_clone"@),
        (Adapter::MiniMax, FilePurpose::PromptAudio) => Some("prompt_audio"@),
        (Adapter::MiniMax, FilePurpose::AsyncTtsInput) => Some("t2a_async_input"@),
        (Adapter::MiniMax, FilePurpose::VideoUnderstanding) => Some("video_understanding"@),
        (Adapter::MiniMax, FilePurpose::VideoGenerationInput) => Some("video_generation_input"@),
        _ => None,
    }
}

pub fn purpose_name(adapter: Adapter, purpose: FilePurpose) -> (result: Option<&'static str>)
    ensures
        result.deep_view() == purpose_of(adapter, purpose),
{
    match (adapter, purpose) {
        (Adapter::OpenAi, FilePurpose::ModelInput) => Some("user_data"),
        (Adapter::Xai, FilePurpose::ModelInput) => Some("assistants"),
        (Adapter::Moonshot, FilePurpose::Extraction) => Some("file-extract"),
        (Adapter::Moonshot, FilePurpose::ModelInput) => Some("file-extract"),
        (Adapter::Qwen, FilePurpose::Extraction) => Some("file-extract"),
        (Adapter::Qwen, FilePurpose::ModelInput) => Some("file-extract"),
        (Adapter::Zai, FilePurpose::Auxiliary) => Some("agent"),
        (Adapter::Zhipu, FilePurpose::Auxiliary) => Some("agent"),
        (Adapter::MiniMax, FilePurpose::VoiceClone) => Some("voice_clone"),
        (Adapter::MiniMax, FilePurpose::PromptAudio) => Some("prompt_audio"),
        (Adapter::MiniMax, FilePurpose::AsyncTtsInput) => Some("t2a_async_input"),
        (Adapter::MiniMax, FilePurpose::VideoUnderstanding) => Some("video_understanding"),
        (Adapter::MiniMax, FilePurpose::VideoGenerationInput) => Some("video_generation_input"),
        _ => None,
    }
}

/// What an adapter's file API does, before the purpose and the media type.
pub open spec fn adapter_capabilities(adapter: Adapter) -> FileCapabilities {
    match adapter {
        Adapter::OpenAi => FileCapabilities {
            upload: true,
            retrieve_metadata: true,
            list: true,
            delete: true,
            download: DownloadSupport::UploadedFiles,
            extract_text: false,
            model_input: ModelFileReference::Unsupported,
            max_upload_bytes: Some(536_870_912),
            retention: None,
        },
        Adapter::Anthropic => FileCapabilities {
            upload: true,
            retrieve_metadata: true,
            list: true,
            delete: true,
            download: DownloadSupport::GeneratedFilesOnly,
            extract_text: false,
            model_input: ModelFileReference::Unsupported,
            max_upload_bytes: Some(524_288_000),
            retention: None,
        },
        Adapter::Gemini => FileCapabilities {
            upload: true,
            retrieve_metadata: true,
            list: true,
            delete: true,
            download: DownloadSupport::GeneratedFilesOnly,
            extract_text: false,
            model_input: ModelFileReference::Unsupported,
            max_upload_bytes: Some(2_147_483_648),
            retention: Some(172_800),
        },
        Adapter::Xai => FileCapabilities {
            upload: true,
            retrieve_metadata: true,
            list: true,
            delete: true,
            download: DownloadSupport::UploadedFiles,
            extract_text: false,
            model_input: ModelFileReference::Unsupported,
            max_upload_bytes: Some(536_870_912),
            retention: None,
        },
        Adapter::OpenRouter => FileCapabilities {
            upload: true,
            retrieve_metadata: true,
            list: true,
            delete: true,
            download: DownloadSupport::GeneratedFilesOnly,
            extract_text: false,
            model_input: ModelFileReference::Unsupported,
            max_upload_bytes: Some(104_857_600),
            retention: None,
        },
        Adapter::Moonshot => FileCapabilities {
            upload: false,
            retrieve_metadata: false,
            list: false,
            delete: true,
            download: DownloadSupport::Unsupported,
            extract_text: true,
            model_input: ModelFileReference::Unsupported,
            max_upload_bytes: Some(104_857_600),
            retention: None,
        },
        // Z.AI's documented files API is limited to auxiliary agent files; it is
        // not a reference format for ordinary chat completions.
        Adapter::Zai => FileCapabilities {
            upload: false,
            retrieve_metadata: false,
            list: false,
            delete: false,
            download: DownloadSupport::Unsupported,
            extract_text: false,
            model_input: ModelFileReference::Unsupported,
            max_upload_bytes: Some(104_857_600),
            retention: Some(15_552_000),
        },
        Adapter::Zhipu => FileCapabilities {
            upload: false,
            retrieve_metadata: true,
            list: true,
            delete: true,
            download: DownloadSupport::Unsupported,
            extract_text: false,
            model_input: ModelFileReference::Unsupported,
            max_upload_bytes: Some(20_971_520),
            retention: None,
        },
        Adapter::Qwen => FileCapabilities {
            upload: true,
            retrieve_metadata: true,
            list: true,
            delete: true,
            download: DownloadSupport::Unsupported,
            extract_text: false,
            model_input: ModelFileReference::Unsupported,
            max_upload_bytes: Some(150_000_000),
            retention: None,
        },
        Adapter::MiniMax => FileCapabilities {
            upload: true,
            retrieve_metadata: true,
            list: true,
            delete: true,
            download: DownloadSupport::GeneratedFilesOnly,
            extract_text: false,
            model_input: ModelFileReference::Unsupported,
            max_upload_bytes: None,
            retention: None,
        },
    }
}

pub fn capabilities_for_adapter(adapter: Adapter) -> (result: FileCapabilities)
    ensures
        result == adapter_capabilities(adapter),
{
    match adapter {
        Adapter::OpenAi => FileCapabilities {
            upload: true,
            retrieve_metadata: true,
            list: true,
            delete: true,
            download: DownloadSupport::UploadedFiles,
            extract_text: false,
            model_input: ModelFileReference::Unsupported,
            max_upload_bytes: Some(536_870_912),
            retention: None,
        },
        Adapter::Anthropic => FileCapabilities {
            upload: true,
            retrieve_metadata: true,
            list: true,
            delete: true,
            download: DownloadSupport::GeneratedFilesOnly,
            extract_text: false,
            model_input: ModelFileReference::Unsupported,
            max_upload_bytes: Some(524_288_000),
            retention: None,
        },
        Adapter::Gemini => FileCapabilities {
            upload: true,
            retrieve_metadata: true,
            list: true,
            delete: true,
            download: DownloadSupport::GeneratedFilesOnly,
            extract_text: false,
            model_input: ModelFileReference::Unsupported,
            max_upload_bytes: Some(2_147_483_648),
            retention: Some(172_800),
        },
        Adapter::Xai => FileCapabilities {
            upload: true,
            retrieve_metadata: true,
            list: true,
            delete: true,
            download: DownloadSupport::UploadedFiles,
            extract_text: false,
            model_input: ModelFileReference::Unsupported,
            max_upload_bytes: Some(536_870_912),
            retention: None,
        },
        Adapter::OpenRouter => FileCapabilities {
            upload: true,
            retrieve_metadata: true,
            list: true,
            delete: true,
            download: DownloadSupport::GeneratedFilesOnly,
            extract_text: false,
            model_input: ModelFileReference::Unsupported,
            max_upload_bytes: Some(104_857_600),
            retention: None,
        },
        Adapter::Moonshot => FileCapabilities {
            upload: false,
            retrieve_metadata: false,
            list: false,
            delete: true,
            download: DownloadSupport::Unsupported,
            extract_text: true,
            model_input: ModelFileReference::Unsupported,
            max_upload_bytes: Some(104_857_600),
            retention: None,
        },
        // Z.AI's documented files API is limited to auxiliary agent files; it is
        // not a reference format for ordinary chat completions.
        Adapter::Zai => FileCapabilities {
            upload: false,
            retrieve_metadata: false,
            list: false,
            delete: false,
            download: DownloadSupport::Unsupported,
            extract_text: false,
            model_input: ModelFileReference::Unsupported,
            max_upload_bytes: Some(104_857_600),
            retention: Some(15_552_000),
        },
        Adapter::Zhipu => FileCapabilities {
            upload: false,
            retrieve_metadata: true,
            list: true,
            delete: true,
            download: DownloadSupport::Unsupported,
            extract_text: false,
            model_input: ModelFileReference::Unsupported,
            max_upload_bytes: Some(20_971_520),
            retention: None,
        },
        Adapter::Qwen => FileCapabilities {
            upload: true,
            retrieve_metadata: true,
            list: true,
            delete: true,
            download: DownloadSupport::Unsupported,
            extract_text: false,
            model_input: ModelFileReference::Unsupported,
            max_upload_bytes: Some(150_000_000),
            retention: None,
        },
        Adapter::MiniMax => FileCapabilities {
            upload: true,
            retrieve_metadata: true,
            list: true,
            delete: true,
            download: DownloadSupport::GeneratedFilesOnly,
            extract_text: false,
            model_input: ModelFileReference::Unsupported,
            max_upload_bytes: None,
            retention: None,
        },
    }
}

/// What an adapter's file API does for a purpose.
pub open spec fn capabilities_by_purpose(
    adapter: Adapter,
    purpose: FilePurpose,
    media_type: Seq<char>,
) -> FileCapabilities {
    let base = adapter_capabilities(adapter);
    match (adapter, purpose) {
        (Adapter::Moonshot, FilePurpose::Extraction)
        | (Adapter::Zai, FilePurpose::Auxiliary)
        | (Adapter::Zhipu, FilePurpose::Auxiliary)
        | (Adapter::Qwen, FilePurpose::ModelInput)
        | (Adapter::Qwen, FilePurpose::Extraction) => FileCapabilities { upload: true, ..base },
        (Adapter::MiniMax, FilePurpose::VoiceClone)
        | (Adapter::MiniMax, FilePurpose::PromptAudio)
        | (Adapter::MiniMax, FilePurpose::AsyncTtsInput) => FileCapabilities {
            upload: true,
            max_upload_bytes: None,
            ..base
        },
        (Adapter::MiniMax, FilePurpose::VideoGenerationInput) => FileCapabilities {
            upload: true,
            max_upload_bytes: None,
            retention: Some(604_800),
            ..base
        },
        (Adapter::MiniMax, FilePurpose::VideoUnderstanding) => FileCapabilities {
            upload: true,
            max_upload_bytes: None,
            retention: Some(604_800),
            list: false,
            delete: false,
            download: DownloadSupport::Unsupported,
            ..base
        },
        (Adapter::OpenRouter, FilePurpose::Workspace) => base,
        (Adapter::OpenAi, FilePurpose::ModelInput) => if openai_image_type(text::lower(media_type)) {
            base
        } else {
            FileCapabilities {
                max_upload_bytes: Some(OPENAI_INPUT_FILE_MAX_UPLOAD_BYTES),
                ..base
            }
        },
        (Adapter::Anthropic, FilePurpose::ModelInput)
        | (Adapter::Gemini, FilePurpose::ModelInput)
        | (Adapter::Xai, FilePurpose::ModelInput) => base,
        _ => types::no_capabilities(),
    }
}

pub fn purpose_capabilities(adapter: Adapter, purpose: FilePurpose, media_type: &str) -> (result:
    FileCapabilities)
    ensures
        result == capabilities_by_purpose(adapter, purpose, media_type@),
{
    let mut caps = capabilities_for_adapter(adapter);
    match (adapter, purpose) {
        (Adapter::Moonshot, FilePurpose::Extraction) => {
            caps.upload = true;
        },
        (Adapter::Zai, FilePurpose::Auxiliary) => {
            caps.upload = true;
        },
        (Adapter::Zhipu, FilePurpose::Auxiliary) => {
            caps.upload = true;
        },
        (Adapter::Qwen, FilePurpose::ModelInput) => {
            caps.upload = true;
        },
        (Adapter::Qwen, FilePurpose::Extraction) => {
            caps.upload = true;
        },
        (Adapter::MiniMax, FilePurpose::VoiceClone) => {},
        (Adapter::MiniMax, FilePurpose::PromptAudio) => {},
        (Adapter::MiniMax, FilePurpose::AsyncTtsInput) => {},
        (Adapter::MiniMax, FilePurpose::VideoGenerationInput) => {
            caps.retention = Some(604_800);
        },
        (Adapter::MiniMax, FilePurpose::VideoUnderstanding) => {
            caps.retention = Some(604_800);
            caps.list = false;
            caps.delete = false;
            caps.download = DownloadSupport::Unsupported;
        },
        (Adapter::OpenRouter, FilePurpose::Workspace) => {},
        (Adapter::OpenAi, FilePurpose::ModelInput) => {
            if !is_openai_image_type(&text::to_lower(media_type)) {
                caps.max_upload_bytes = Some(OPENAI_INPUT_FILE_MAX_UPLOAD_BYTES);
            }
        },
        (Adapter::Anthropic, FilePurpose::ModelInput) => {},
        (Adapter::Gemini, FilePurpose::ModelInput) => {},
        (Adapter::Xai, FilePurpose::ModelInput) => {},
        _ => {
            return FileCapabilities::unsupported();
        },
    }
    caps
}

/// The capabilities with the limits of the media type.
pub open spec fn limited_by_media(
    caps: FileCapabilities,
    adapter: Adapter,
    media_type: Seq<char>,
) -> FileCapabilities {
    if adapter == Adapter::Gemini && caps.upload && text::lower(media_type) == text::lower(
        "application/pdf"@,
    ) {
        FileCapabilities {
            max_upload_bytes: match caps.max_upload_bytes {
                Some(limit) => Some(
                    if limit < GEMINI_PDF_MAX_UPLOAD_BYTES {
                        limit
                    } else {
                        GEMINI_PDF_MAX_UPLOAD_BYTES
                    },
                ),
                None => Some(GEMINI_PDF_MAX_UPLOAD_BYTES),
            },
            ..caps
        }
    } else if adapter == Adapter::Qwen && caps.upload && "image/"@.is_prefix_of(
        text::lower(media_type),
    ) {
        FileCapabilities { max_upload_bytes: Some(QWEN_IMAGE_MAX_UPLOAD_BYTES), ..caps }
    } else {
        caps
    }
}

pub fn capabilities_for_media_type(
    capabilities: FileCapabilities,
    adapter: Adapter,
    media_type: &str,
) -> (result: FileCapabilities)
    ensures
        result == limited_by_media(capabilities, adapter, media_type@),
{
    let mut caps = capabilities;
    if adapter == Adapter::Gemini && caps.upload && text::same_ignoring_case(
        media_type,
        "application/pdf",
    ) {
        caps.max_upload_bytes = match caps.max_upload_bytes {
            Some(limit) => Some(
                if limit < GEMINI_PDF_MAX_UPLOAD_BYTES {
                    limit
                } else {
                    GEMINI_PDF_MAX_UPLOAD_BYTES
                },
            ),
            None => Some(GEMINI_PDF_MAX_UPLOAD_BYTES),
        };
    }
    if adapter == Adapter::Qwen && caps.upload && text::starts_with(
        &text::to_lower(media_type),
        "image/",
    ) {
        caps.max_upload_bytes = Some(QWEN_IMAGE_MAX_UPLOAD_BYTES);
    }
    caps
}

/// What a connection's file API does for a model and a media type.
pub open spec fn capabilities_of(
    profile: ProviderProfile,
    model: Seq<char>,
    media_type: Seq<char>,
) -> FileCapabilities {
    match adapter_of(profile) {
        None => types::no_capabilities(),
        Some(adapter) => FileCapabilities {
            model_input: model_reference(profile, model, media_type, adapter),
            ..limited_by_media(adapter_capabilities(adapter), adapter, media_type)
        },
    }
}

/// Capability matrix keyed by provider identity and the concrete protocol.
/// OpenAI-compatible protocols do not opt providers into file APIs by themselves.
pub fn capabilities(profile: &ProviderProfile, model: &str, media_type: &str) -> (result:
    FileCapabilities)
    ensures
        result == capabilities_of(*profile, model@, media_type@),
{
    match adapter(profile) {
        None => FileCapabilities::unsupported(),
        Some(adapter) => {
            let mut result = capabilities_for_media_type(
                capabilities_for_adapter(adapter),
                adapter,
                media_type,
            );
            result.model_input = model_reference_for(profile, model, media_type, adapter);
            result
        },
    }
}

/// What a connection's file API does for a model, a media type and a purpose.
pub open spec fn capabilities_of_purpose(
    profile: ProviderProfile,
    model: Seq<char>,
    media_type: Seq<char>,
    purpose: FilePurpose,
) -> FileCapabilities {
    match adapter_of(profile) {
        None => types::no_capabilities(),
        Some(adapter) => FileCapabilities {
            model_input: match purpose {
                FilePurpose::ModelInput | FilePurpose::VideoUnderstanding => model_reference(
                    profile,
                    model,
                    media_type,
                    adapter,
                ),
                _ => ModelFileReference::Unsupported,
            },
            ..limited_by_media(
                capabilities_by_purpose(adapter, purpose, media_type),
                adapter,
                media_type,
            )
        },
    }
}

/// Provider capabilities for one operation purpose plus the profile's model
/// reference format, if that purpose is a normal model input.
pub fn capabilities_for_purpose(
    profile: &ProviderProfile,
    model: &str,
    media_type: &str,
    purpose: FilePurpose,
) -> (result: FileCapabilities)
    ensures
        result == capabilities_of_purpose(*profile, model@, media_type@, purpose),
{
    match adapter(profile) {
        None => FileCapabilities::unsupported(),
        Some(adapter) => {
            let mut result = capabilities_for_media_type(
                purpose_capabilities(adapter, purpose, media_type),
                adapter,
                media_type,
            );
            result.model_input = match purpose {
                FilePurpose::ModelInput => model_reference_for(profile, model, media_type, adapter),
                FilePurpose::VideoUnderstanding => model_reference_for(
                    profile,
                    model,
                    media_type,
                    adapter,
                ),
                _ => ModelFileReference::Unsupported,
            };
            result
        },
    }
}

/// Whether a reference belongs to the connection, under the account scope.
pub open spec fn belongs(
    file: ProviderFileSourceView,
    profile: ProviderProfile,
    scope: Option<Seq<char>>,
) -> bool {
    &&& file.protocol == profile.protocol
    &&& file.provider_id == profile.provider_id@
    &&& file.profile_name == profile.profile_name@
    &&& file.endpoint_fingerprint == http::fingerprint_of(profile.base_url@)
    &&& file.account_scope == scope
}

/// Why a reference cannot be sent on the connection, if it cannot.
pub open spec fn file_error(
    file: ProviderFileSourceView,
    profile: ProviderProfile,
    scope: Option<Seq<char>>,
) -> Option<LlmErrorView> {
    if scope is None || text::blank(scope->0) {
        Some(
            error::unsupported_view("provider file inputs require an explicit account scope"@),
        )
    } else if !belongs(file, profile, scope) {
        Some(
            error::unsupported_view(
                "provider file reference belongs to a different connection, endpoint, or account scope"@,
            ),
        )
    } else if text::blank(file.file_id) || (file.uri is Some && file.uri->0.len() == 0) || (
    file.media_type is Some && file.media_type->0.len() == 0) {
        Some(
            error::invalid_view("provider file reference is missing a required identifier"@),
        )
    } else {
        None
    }
}

fn empty_text(s: &Option<String>) -> (result: bool)
    ensures
        result == (s.deep_view() is Some && s.deep_view()->0.len() == 0),
{
    match s {
        Some(s) => text::is_empty(s),
        None => false,
    }
}

/// Validates that a provider-owned input reference belongs to the exact
/// connection and caller-supplied account scope used for a request.
pub fn validate_provider_file(
    file: &ProviderFileSource,
    profile: &ProviderProfile,
    account_scope: &Option<String>,
) -> (result: Result<(), LlmError>)
    ensures
        views::res(result) == http::checked(
            file_error(file@, *profile, account_scope.deep_view()),
        ),
{
    let scoped = match account_scope {
        Some(scope) => !text::is_blank(scope),
        None => false,
    };
    if !scoped {
        return Err(
            error::unsupported("provider file inputs require an explicit account scope"),
        );
    }
    if !(file.protocol == profile.protocol && text::same(&file.provider_id, &profile.provider_id)
        && text::same(&file.profile_name, &profile.profile_name) && text::same(
        &file.endpoint_fingerprint,
        &http::provider_file_endpoint_fingerprint(&profile.base_url),
    ) && inference::same_text(&file.account_scope, account_scope)) {
        return Err(
            error::unsupported(
                "provider file reference belongs to a different connection, endpoint, or account scope",
            ),
        );
    }
    if text::is_blank(&file.file_id) || empty_text(&file.uri) || empty_text(&file.media_type) {
        return Err(
            error::invalid("provider file reference is missing a required identifier"),
        );
    }
    Ok(())
}

/// The kind of block that a provider file stands in.
#[derive(Debug, Clone, Copy, PartialEq, Eq, Structural)]
pub enum FileBlock {
    Image,
    Document,
    Video,
}

/// The provider file of a block, and the kind of block.
pub open spec fn block_file(block: ContentBlock) -> Option<(ProviderFileSource, FileBlock)> {
    match block {
        ContentBlock::Image { source: ImageSource::ProviderFile { file } } => Some(
            (file, FileBlock::Image),
        ),
        ContentBlock::Document { source: DocumentSource::ProviderFile { file }, .. } => Some(
            (file, FileBlock::Document),
        ),
        ContentBlock::Video { source: VideoSource::ProviderFile { file } } => Some(
            (file, FileBlock::Video),
        ),
        _ => None,
    }
}

fn provider_file(block: &ContentBlock) -> (result: Option<(&ProviderFileSource, FileBlock)>)
    ensures
        match result {
            Some((file, kind)) => block_file(*block) == Some((*file, kind)),
            None => block_file(*block) is None,
        },
{
    match block {
        ContentBlock::Image { source } => match source {
            ImageSource::ProviderFile { file } => Some((file, FileBlock::Image)),
            _ => None,
        },
        ContentBlock::Document { source, .. } => match source {
            DocumentSource::ProviderFile { file } => Some((file, FileBlock::Document)),
            _ => None,
        },
        ContentBlock::Video { source } => match source {
            VideoSource::ProviderFile { file } => Some((file, FileBlock::Video)),
            _ => None,
        },
        _ => None,
    }
}

/// The purpose that a provider wants of a file in the block.
pub open spec fn wanted_purpose(provider: Seq<char>, kind: FileBlock) -> Option<Seq<char>> {
    if provider == "xai"@ {
        Some("assistants"@)
    } else if provider == "qwen"@ {
        Some("file-extract"@)
    } else if provider == "minimax"@ && kind == FileBlock::Video {
        Some("video_understanding"@)
    } else {
        None
    }
}

/// Whether the media type fits the kind of block.
pub open spec fn media_fits(media_type: Seq<char>, kind: FileBlock) -> bool {
    let lower = text::lower(media_type);
    match kind {
        FileBlock::Image => "image/"@.is_prefix_of(lower),
        FileBlock::Video => "video/"@.is_prefix_of(lower),
        FileBlock::Document => !"image/"@.is_prefix_of(lower) && !"video/"@.is_prefix_of(lower),
    }
}

/// Why a provider file cannot be an input as it is, if it cannot.
pub open spec fn direct_file_error(
    file: ProviderFileSourceView,
    kind: FileBlock,
    profile: ProviderProfile,
    model: Seq<char>,
    scope: Option<Seq<char>>,
) -> Option<LlmErrorView> {
    let purpose = wanted_purpose(profile.provider_id@, kind);
    if file_error(file, profile, scope) is Some {
        file_error(file, profile, scope)
    } else if file.media_type is None {
        Some(error::invalid_view("direct provider file input requires a media type"@))
    } else if !media_fits(file.media_type->0, kind) {
        Some(
            error::invalid_view("provider file media type does not match its content block"@),
        )
    } else if purpose is Some && file.purpose != purpose {
        Some(
            error::unsupported_view(
                "provider file input requires purpose "@ + text::debug_text(purpose->0),
            ),
        )
    } else if capabilities_of(profile, model, file.media_type->0).model_input
        == ModelFileReference::Unsupported {
        Some(
            error::unsupported_view(
                "model "@ + text::debug_text(model)
                    + " does not support provider file input for "@ + text::debug_text(
                    file.media_type->0,
                ),
            ),
        )
    } else {
        None
    }
}

/// The error of the first block, from the `i`th on, whose provider file cannot be
/// an input.
pub open spec fn direct_files_error(
    blocks: Seq<ContentBlock>,
    i: int,
    profile: ProviderProfile,
    model: Seq<char>,
    scope: Option<Seq<char>>,
) -> Option<LlmErrorView>
    decreases blocks.len() - i,
{
    if i < 0 || i >= blocks.len() {
        None
    } else {
        let error = match block_file(blocks[i]) {
            Some((file, kind)) => direct_file_error(file@, kind, profile, model, scope),
            None => None,
        };
        if error is Some {
            error
        } else {
            direct_files_error(blocks, i + 1, profile, model, scope)
        }
    }
}

fn check_direct_file(
    file: &ProviderFileSource,
    kind: FileBlock,
    profile: &ProviderProfile,
    model: &str,
    account_scope: &Option<String>,
) -> (result: Result<(), LlmError>)
    ensures
        views::res(result) == http::checked(
            direct_file_error(file@, kind, *profile, model@, account_scope.deep_view()),
        ),
{
    validate_provider_file(file, profile, account_scope)?;
    let media_type = match &file.media_type {
        Some(media_type) => media_type.as_str(),
        None => return Err(error::invalid("direct provider file input requires a media type")),
    };
    let lower = text::to_lower(media_type);
    let image = text::starts_with(&lower, "image/");
    let video = text::starts_with(&lower, "video/");
    let fits = match kind {
        FileBlock::Image => image,
        FileBlock::Video => video,
        FileBlock::Document => !image && !video,
    };
    if !fits {
        return Err(
            error::invalid("provider file media type does not match its content block"),
        );
    }
    let wanted = if text::same(&profile.provider_id, "xai") {
        Some("assistants")
    } else if text::same(&profile.provider_id, "qwen") {
        Some("file-extract")
    } else if text::same(&profile.provider_id, "minimax") && kind == FileBlock::Video {
        Some("video_understanding")
    } else {
        None
    };
    if let Some(wanted) = wanted {
        let stated = match &file.purpose {
            Some(purpose) => text::same(purpose, wanted),
            None => false,
        };
        if !stated {
            return Err(
                error::unsupported(
                    &text::cat2("provider file input requires purpose ", &text::debug(wanted)),
                ),
            );
        }
    }
    if capabilities(profile, model, media_type).model_input == ModelFileReference::Unsupported {
        return Err(
            error::unsupported(
                &text::cat4(
                    "model ",
                    &text::debug(model),
                    " does not support provider file input for ",
                    &text::debug(media_type),
                ),
            ),
        );
    }
    Ok(())
}

pub fn validate_direct_provider_file_inputs(
    blocks: &Vec<&ContentBlock>,
    profile: &ProviderProfile,
    model: &str,
    account_scope: &Option<String>,
) -> (result: Result<(), LlmError>)
    ensures
        views::res(result) == http::checked(
            direct_files_error(views::plain(blocks@), 0, *profile, model@, account_scope.deep_view()),
        ),
{
    let mut i: usize = 0;
    while i < blocks.len()
        invariant
            i <= blocks.len(),
            direct_files_error(views::plain(blocks@), 0, *profile, model@, account_scope.deep_view())
                == direct_files_error(
                views::plain(blocks@),
                i as int,
                *profile,
                model@,
                account_scope.deep_view(),
            ),
        decreases blocks.len() - i,
    {
        if let Some((file, kind)) = provider_file(blocks[i]) {
            check_direct_file(file, kind, profile, model, account_scope)?;
        }
        i = i + 1;
    }
    Ok(())
}

/// The placeholder for a file that is yet to be uploaded.
pub open spec fn projection(
    profile: ProviderProfile,
    scope: Option<Seq<char>>,
    media_type: Seq<char>,
    purpose: FilePurpose,
) -> ProviderFileSourceView {
    let adapter = adapter_of(profile);
    ProviderFileSourceView {
        protocol: profile.protocol,
        provider_id: profile.provider_id@,
        profile_name: profile.profile_name@,
        endpoint_fingerprint: http::fingerprint_of(profile.base_url@),
        account_scope: scope,
        file_id: match adapter {
            Some(Adapter::Gemini) => "files/file-projection"@,
            Some(Adapter::MiniMax) => "1"@,
            _ => "file-projection"@,
        },
        uri: match adapter {
            Some(Adapter::Gemini) => Some(
                "https://generativelanguage.googleapis.com/v1beta/files/file-projection"@,
            ),
            Some(Adapter::MiniMax) => if purpose == FilePurpose::VideoUnderstanding {
                Some("mm_file://1"@)
            } else {
                None
            },
            _ => None,
        },
        media_type: Some(media_type),
        purpose: match adapter {
            Some(adapter) => purpose_of(adapter, purpose),
            None => None,
        },
    }
}

/// Pure, valid placeholder used to validate the entire wire request before uploads.
pub fn projected_reference(
    profile: &ProviderProfile,
    scope: &Option<String>,
    media_type: &str,
    purpose: FilePurpose,
) -> (result: ProviderFileSource)
    ensures
        result@ == projection(*profile, scope.deep_view(), media_type@, purpose),
{
    let adapter = adapter(profile);
    let file_id = match adapter {
        Some(Adapter::Gemini) => "files/file-projection",
        Some(Adapter::MiniMax) => "1",
        _ => "file-projection",
    };
    let uri = match adapter {
        Some(Adapter::Gemini) => Some(
            "https://generativelanguage.googleapis.com/v1beta/files/file-projection".to_owned(),
        ),
        Some(Adapter::MiniMax) => if purpose == FilePurpose::VideoUnderstanding {
            Some("mm_file://1".to_owned())
        } else {
            None
        },
        _ => None,
    };
    let purpose = match adapter {
        Some(adapter) => match purpose_name(adapter, purpose) {
            Some(name) => Some(name.to_owned()),
            None => None,
        },
        None => None,
    };
    ProviderFileSource {
        protocol: profile.protocol,
        provider_id: profile.provider_id.clone(),
        profile_name: profile.profile_name.clone(),
        endpoint_fingerprint: http::provider_file_endpoint_fingerprint(&profile.base_url),
        account_scope: inference::dup_text(scope),
        file_id: file_id.to_owned(),
        uri,
        media_type: Some(media_type.to_owned()),
        purpose,
    }
}

/// A placeholder passes the check that the uploaded file's reference will have to
/// pass, wherever the account scope and the media type are there at all.
pub proof fn a_projection_is_accepted(
    profile: ProviderProfile,
    scope: Seq<char>,
    media_type: Seq<char>,
    purpose: FilePurpose,
)
    requires
        !text::blank(scope),
        media_type.len() > 0,
    ensures
        file_error(
            projection(profile, Some(scope), media_type, purpose),
            profile,
            Some(scope),
        ) is None,
{
    reveal_strlit("files/file-projection");
    reveal_strlit("1");
    reveal_strlit("file-projection");
    reveal_strlit("https://generativelanguage.googleapis.com/v1beta/files/file-projection");
    reveal_strlit("mm_file://1");
    let file = projection(profile, Some(scope), media_type, purpose);
    assert(file.file_id[0] == 'f' || file.file_id[0] == '1');
    assert(!text::blank(file.file_id));
}

} // verus!
