//! Pure request data passed to wire codecs: no credentials, no execution state.

use crate::codecs;
use crate::json::Json;
use crate::protocol::error;
use crate::protocol::profile;
use crate::protocol::{
    AttachmentRef, AzureConfig, CompletionRequest, ConnectionSpec, ContentBlock, DocumentSource,
    ImageConfig, ImageSource, LlmError, LlmErrorView, ModelProfile, ProviderProfile, VideoSource,
};
use crate::text;
use crate::views;
use vstd::prelude::*;

verus! {

broadcast use crate::views::group_views;

#[derive(Debug, Clone, Copy, PartialEq, Eq, Structural)]
pub enum RequestMode {
    Complete,
    Stream,
}

/// A connection snapshot with only the data used to encode a request. What the
/// settings hold of credentials and prices is removed when the snapshot is made; how
/// the connection authenticates and signs stays.
#[derive(Debug, Clone)]
pub struct CodecContext {
    pub profile: ProviderProfile,
    pub request_model: String,
    pub stream: bool,
    pub file_account_scope: Option<String>,
}

/// The rows whose wire ID is the model's, from the `i`th on.
pub open spec fn rows_of(models: Seq<ModelProfile>, model: Seq<char>, i: int) -> Seq<ModelProfile>
    decreases models.len() - i,
{
    if i < 0 || i >= models.len() {
        Seq::empty()
    } else if models[i].request_model@ == model {
        seq![models[i]] + rows_of(models, model, i + 1)
    } else {
        rows_of(models, model, i + 1)
    }
}

/// What a snapshot keeps of a connection, with the given rows.
pub open spec fn snapshot_of(
    context: CodecContext,
    profile: ProviderProfile,
    rows: Seq<ModelProfile>,
    model: Seq<char>,
    mode: RequestMode,
) -> bool {
    let kept = context.profile;
    &&& kept.provider_id == profile.provider_id
    &&& kept.profile_name == profile.profile_name
    &&& kept.base_url == profile.base_url
    &&& kept.protocol == profile.protocol
    &&& kept.inference == profile.inference
    &&& kept.features@ == profile.features@
    &&& kept.azure == profile.azure
    &&& kept.extra@ == profile.extra@
    &&& kept.auth.deep_view() == profile.auth.deep_view()
    &&& kept.signing@ == profile.signing@
    &&& !kept.static_credential
    &&& kept.account@ is Null
    &&& kept.regions@.len() == 0
    &&& kept.connection.group is None
    &&& !kept.connection.hidden
    &&& kept.images.routes@.len() == 0
    &&& kept.images.models@.len() == 0
    &&& kept.models@.len() == rows.len()
    &&& forall|i: int|
        0 <= i < rows.len() ==> profile::unpriced(#[trigger] kept.models@[i], rows[i])
    &&& context.request_model@ == model
    &&& context.stream == (mode == RequestMode::Stream)
    &&& context.file_account_scope is None
}

fn snapshot(
    profile: &ProviderProfile,
    rows: Vec<ModelProfile>,
    model: &str,
    mode: RequestMode,
) -> (context: CodecContext)
    ensures
        context.profile.models == rows,
        context.profile.provider_id == profile.provider_id,
        context.profile.profile_name == profile.profile_name,
        context.profile.base_url == profile.base_url,
        context.profile.protocol == profile.protocol,
        context.profile.inference == profile.inference,
        context.profile.features@ == profile.features@,
        context.profile.azure == profile.azure,
        context.profile.extra@ == profile.extra@,
        context.profile.auth.deep_view() == profile.auth.deep_view(),
        context.profile.signing@ == profile.signing@,
        !context.profile.static_credential,
        context.profile.account@ is Null,
        context.profile.regions@.len() == 0,
        context.profile.connection.group is None,
        !context.profile.connection.hidden,
        context.profile.images.routes@.len() == 0,
        context.profile.images.models@.len() == 0,
        context.request_model@ == model@,
        context.stream == (mode == RequestMode::Stream),
        context.file_account_scope is None,
{
    let azure = match &profile.azure {
        Some(azure) => Some(
            AzureConfig {
                api_version: profile::dup_string(&azure.api_version),
                deployment: profile::dup_string(&azure.deployment),
            },
        ),
        None => None,
    };
    CodecContext {
        profile: ProviderProfile {
            provider_id: profile.provider_id.clone(),
            profile_name: profile.profile_name.clone(),
            base_url: profile.base_url.clone(),
            protocol: profile.protocol,
            regions: Vec::new(),
            connection: ConnectionSpec { group: None, hidden: false },
            models: rows,
            inference: profile.inference.dup(),
            features: profile.features.dup(),
            azure,
            images: ImageConfig { routes: Vec::new(), models: Vec::new() },
            extra: profile.extra.dup(),
            auth: profile::dup_string(&profile.auth),
            signing: profile.signing.dup(),
            static_credential: false,
            account: Json::Null,
        },
        request_model: model.to_owned(),
        stream: mode == RequestMode::Stream,
        file_account_scope: None,
    }
}

impl CodecContext {
    /// Builds a context from a wire ID. Use [`CodecContext::for_model`] to select
    /// one of several catalog rows that share that ID.
    pub fn new(profile: &ProviderProfile, request_model: &str, mode: RequestMode) -> (context: Self)
        ensures
            snapshot_of(
                context,
                *profile,
                rows_of(profile.models@, request_model@, 0),
                request_model@,
                mode,
            ),
    {
        let ghost all = rows_of(profile.models@, request_model@, 0);
        let ghost mut kept: Seq<ModelProfile> = Seq::empty();
        let mut rows: Vec<ModelProfile> = Vec::new();
        let mut i: usize = 0;
        assert(kept + all =~= all);
        while i < profile.models.len()
            invariant
                i <= profile.models.len(),
                all == kept + rows_of(profile.models@, request_model@, i as int),
                rows@.len() == kept.len(),
                forall|k: int|
                    0 <= k < kept.len() ==> profile::unpriced(#[trigger] rows@[k], kept[k]),
            decreases profile.models.len() - i,
        {
            if text::same(&profile.models[i].request_model, request_model) {
                rows.push(profile.models[i].snapshot());
                proof {
                    let rest = rows_of(profile.models@, request_model@, i + 1);
                    let row = profile.models@[i as int];
                    assert(kept + (seq![row] + rest) =~= kept.push(row) + rest);
                    kept = kept.push(row);
                }
            }
            i = i + 1;
        }
        assert(all =~= kept);
        snapshot(profile, rows, request_model, mode)
    }

    /// Encodes one selected catalog row, also where several rows share a wire ID.
    pub fn for_model(profile: &ProviderProfile, model: &ModelProfile, mode: RequestMode) -> (context:
        Self)
        ensures
            snapshot_of(context, *profile, seq![*model], model.request_model@, mode),
    {
        let mut rows: Vec<ModelProfile> = Vec::new();
        rows.push(model.snapshot());
        snapshot(profile, rows, &model.request_model, mode)
    }

    pub fn with_file_scope(self, scope: Option<&str>) -> (context: Self)
        ensures
            context.profile == self.profile,
            context.request_model == self.request_model,
            context.stream == self.stream,
            context.file_account_scope.deep_view() == scope.deep_view(),
    {
        CodecContext {
            file_account_scope: match scope {
                Some(scope) => Some(scope.to_owned()),
                None => None,
            },
            ..self
        }
    }

    pub fn profile(&self) -> (profile: &ProviderProfile)
        ensures
            *profile == self.profile,
    {
        &self.profile
    }

    pub fn request_model(&self) -> (model: &str)
        ensures
            model@ == self.request_model@,
    {
        self.request_model.as_str()
    }

    pub fn mode(&self) -> (mode: RequestMode)
        ensures
            mode == (if self.stream {
                RequestMode::Stream
            } else {
                RequestMode::Complete
            }),
    {
        if self.stream {
            RequestMode::Stream
        } else {
            RequestMode::Complete
        }
    }

    pub fn file_scope(&self) -> (scope: Option<&str>)
        ensures
            scope.deep_view() == self.file_account_scope.deep_view(),
    {
        match &self.file_account_scope {
            Some(scope) => Some(scope.as_str()),
            None => None,
        }
    }
}

/// Immutable attachment data resolved by the caller or an attachment service.
#[derive(Debug, Clone, Copy)]
pub struct PreparedMedia<'a> {
    pub attachment: &'a AttachmentRef,
    pub bytes: &'a [u8],
}

/// A replacement for one content block of the conversation, which its message
/// and its place in the message name.
#[derive(Debug, Clone)]
pub struct ContentBinding {
    pub message: usize,
    pub block: usize,
    pub replacement: ContentBlock,
}

/// Borrowed model input. Media and replacements are prepared apart from the
/// conversation and never carry upload or credential state.
#[derive(Clone, Copy)]
pub struct EncodeRequest<'a> {
    pub request: &'a CompletionRequest,
    pub media: Option<&'a Vec<PreparedMedia<'a>>>,
    pub bindings: Option<&'a Vec<ContentBinding>>,
}

/// The prepared media.
pub open spec fn media_of<'a>(wire: EncodeRequest<'a>) -> Seq<PreparedMedia<'a>> {
    match wire.media {
        Some(media) => media@,
        None => Seq::empty(),
    }
}

/// The replacement for a block, from the `i`th binding on.
pub open spec fn replacement(bindings: Seq<ContentBinding>, m: int, b: int, i: int) -> Option<
    ContentBlock,
>
    decreases bindings.len() - i,
{
    if i < 0 || i >= bindings.len() {
        None
    } else if bindings[i].message == m && bindings[i].block == b {
        Some(bindings[i].replacement)
    } else {
        replacement(bindings, m, b, i + 1)
    }
}

/// The block at a place, or what replaces it.
pub open spec fn block_at(wire: EncodeRequest, m: int, b: int) -> ContentBlock {
    let original = wire.request.messages@[m].content@[b];
    match wire.bindings {
        None => original,
        Some(bindings) => match replacement(bindings@, m, b, 0) {
            Some(block) => block,
            None => original,
        },
    }
}

/// The blocks of a message, replaced where they are.
pub open spec fn message_blocks(wire: EncodeRequest, m: int) -> Seq<ContentBlock> {
    Seq::new(wire.request.messages@[m].content@.len(), |b: int| block_at(wire, m, b))
}

/// The blocks of the first `n` messages.
pub open spec fn blocks_upto(wire: EncodeRequest, n: int) -> Seq<ContentBlock>
    decreases n,
{
    if n <= 0 {
        Seq::empty()
    } else {
        blocks_upto(wire, n - 1) + message_blocks(wire, n - 1)
    }
}

/// Every block, in order.
pub open spec fn all_blocks(wire: EncodeRequest) -> Seq<ContentBlock> {
    blocks_upto(wire, wire.request.messages@.len() as int)
}

/// The attachment that a block stands for.
pub open spec fn attachment_of(block: ContentBlock) -> Option<AttachmentRef> {
    match block {
        ContentBlock::Image { source: ImageSource::Attachment { attachment } } => Some(attachment),
        ContentBlock::Document { source: DocumentSource::Attachment { attachment }, .. } => Some(
            attachment,
        ),
        ContentBlock::Video { source: VideoSource::Attachment { attachment } } => Some(attachment),
        _ => None,
    }
}

fn attached(block: &ContentBlock) -> (result: Option<&AttachmentRef>)
    ensures
        match result {
            Some(attachment) => attachment_of(*block) == Some(*attachment),
            None => attachment_of(*block) is None,
        },
{
    match block {
        ContentBlock::Image { source } => match source {
            ImageSource::Attachment { attachment } => Some(attachment),
            _ => None,
        },
        ContentBlock::Document { source, .. } => match source {
            DocumentSource::Attachment { attachment } => Some(attachment),
            _ => None,
        },
        ContentBlock::Video { source } => match source {
            VideoSource::Attachment { attachment } => Some(attachment),
            _ => None,
        },
        _ => None,
    }
}

/// The prepared media of an attachment, from the `i`th on.
pub open spec fn prepared<'a>(media: Seq<PreparedMedia<'a>>, attachment: AttachmentRef, i: int) -> Option<
    PreparedMedia<'a>,
>
    decreases media.len() - i,
{
    if i < 0 || i >= media.len() {
        None
    } else if profile::same_attachment(*media[i].attachment, attachment) {
        Some(media[i])
    } else {
        prepared(media, attachment, i + 1)
    }
}

pub open spec fn length_error() -> LlmErrorView {
    error::invalid_view("prepared media length does not match attachment metadata"@)
}

/// The media of a block that is an attachment. An attachment that was not
/// prepared, or not as its metadata says, is an error.
pub open spec fn media_for<'a>(wire: EncodeRequest<'a>, block: ContentBlock) -> Result<
    Option<PreparedMedia<'a>>,
    LlmErrorView,
> {
    match attachment_of(block) {
        None => Ok(None),
        Some(attachment) => match prepared(media_of(wire), attachment, 0) {
            None => Err(codecs::unresolved_attachment()),
            Some(media) => if media.bytes@.len() != attachment.size_bytes {
                Err(length_error())
            } else {
                Ok(Some(media))
            },
        },
    }
}

impl<'a> EncodeRequest<'a> {
    pub fn new(request: &'a CompletionRequest) -> (wire: Self)
        ensures
            wire == (EncodeRequest { request, media: None, bindings: None }),
    {
        EncodeRequest { request, media: None, bindings: None }
    }

    pub fn with_media(self, media: &'a Vec<PreparedMedia<'a>>) -> (wire: Self)
        ensures
            wire == (EncodeRequest { media: Some(media), ..self }),
    {
        EncodeRequest { media: Some(media), ..self }
    }

    pub fn with_bindings(self, bindings: &'a Vec<ContentBinding>) -> (wire: Self)
        ensures
            wire == (EncodeRequest { bindings: Some(bindings), ..self }),
    {
        EncodeRequest { bindings: Some(bindings), ..self }
    }

    pub fn request(self) -> (request: &'a CompletionRequest)
        ensures
            request == self.request,
    {
        self.request
    }

    /// The prepared media, where there are any.
    pub fn media(self) -> (media: Option<&'a Vec<PreparedMedia<'a>>>)
        ensures
            media == self.media,
    {
        self.media
    }

    /// The block at a place, or what replaces it.
    pub fn block(self, m: usize, b: usize) -> (block: &'a ContentBlock)
        requires
            m < self.request.messages@.len(),
            b < self.request.messages@[m as int].content@.len(),
        ensures
            *block == block_at(self, m as int, b as int),
    {
        let original = &self.request.messages[m].content[b];
        if let Some(bindings) = self.bindings {
            let mut i: usize = 0;
            while i < bindings.len()
                invariant
                    i <= bindings.len(),
                    replacement(bindings@, m as int, b as int, 0) == replacement(
                        bindings@,
                        m as int,
                        b as int,
                        i as int,
                    ),
                    self.bindings == Some(bindings),
                decreases bindings.len() - i,
            {
                if bindings[i].message == m && bindings[i].block == b {
                    return &bindings[i].replacement;
                }
                i = i + 1;
            }
        }
        original
    }

    /// The blocks of a message, replaced where they are.
    pub fn message(self, m: usize) -> (blocks: Vec<&'a ContentBlock>)
        requires
            m < self.request.messages@.len(),
        ensures
            views::plain(blocks@) == message_blocks(self, m as int),
    {
        let mut blocks: Vec<&'a ContentBlock> = Vec::new();
        let n = self.request.messages[m].content.len();
        let mut b: usize = 0;
        while b < n
            invariant
                m < self.request.messages@.len(),
                n == self.request.messages@[m as int].content@.len(),
                b <= n,
                blocks@.len() == b,
                forall|k: int|
                    0 <= k < b ==> *#[trigger] blocks@[k] == block_at(self, m as int, k),
            decreases n - b,
        {
            blocks.push(self.block(m, b));
            b = b + 1;
        }
        assert(views::plain(blocks@) =~= message_blocks(self, m as int));
        blocks
    }

    /// Every block, in order.
    pub fn blocks(self) -> (blocks: Vec<&'a ContentBlock>)
        ensures
            views::plain(blocks@) == all_blocks(self),
    {
        let mut blocks: Vec<&'a ContentBlock> = Vec::new();
        let mut m: usize = 0;
        assert(views::plain(blocks@) =~= Seq::empty());
        while m < self.request.messages.len()
            invariant
                m <= self.request.messages@.len(),
                views::plain(blocks@) == blocks_upto(self, m as int),
            decreases self.request.messages.len() - m,
        {
            let ghost before = blocks_upto(self, m as int);
            let part = self.message(m);
            let mut i: usize = 0;
            assert(before + views::plain(part@).take(0) =~= before);
            while i < part.len()
                invariant
                    i <= part.len(),
                    views::plain(blocks@) == before + views::plain(part@).take(i as int),
                decreases part.len() - i,
            {
                blocks.push(part[i]);
                i = i + 1;
                assert(views::plain(part@).take(i as int) =~= views::plain(part@).take(
                    i - 1,
                ).push(views::plain(part@)[i - 1]));
                assert(before + views::plain(part@).take(i as int) =~= (before + views::plain(
                    part@,
                ).take(i - 1)).push(views::plain(part@)[i - 1]));
            }
            assert(views::plain(part@).take(i as int) =~= views::plain(part@));
            m = m + 1;
        }
        blocks
    }

    /// The media of a block that is an attachment.
    pub fn inline_media(self, block: &ContentBlock) -> (result: Result<
        Option<PreparedMedia<'a>>,
        LlmError,
    >)
        ensures
            match result {
                Ok(media) => media_for(self, *block) == Ok::<_, LlmErrorView>(media),
                Err(error) => media_for(self, *block) == Err::<Option<PreparedMedia>, _>(error@),
            },
    {
        let attachment = match attached(block) {
            Some(attachment) => attachment,
            None => return Ok(None),
        };
        let media = match self.media {
            Some(media) => media,
            None => return Err(codecs::unresolved_attachment_error()),
        };
        let mut i: usize = 0;
        while i < media.len()
            invariant
                i <= media.len(),
                self.media == Some(media),
                attachment_of(*block) == Some(*attachment),
                prepared(media@, *attachment, 0) == prepared(media@, *attachment, i as int),
            decreases media.len() - i,
        {
            if media[i].attachment.same(attachment) {
                if media[i].bytes.len() as u64 != attachment.size_bytes {
                    return Err(
                        error::invalid(
                            "prepared media length does not match attachment metadata",
                        ),
                    );
                }
                return Ok(Some(media[i]));
            }
            i = i + 1;
        }
        Err(codecs::unresolved_attachment_error())
    }
}

} // verus!
