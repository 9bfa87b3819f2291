//! Provider connections and their model rows.

use crate::content::Content;
use crate::json::{self, Json};
use crate::protocol::features::InferenceFeatures;
use crate::protocol::image::ImageConfig;
use crate::protocol::inference::{CapabilitySupport, InferenceConfig};
use crate::text;
use vstd::prelude::*;

verus! {

/// The wire an endpoint speaks.
#[derive(Debug, Clone, Copy, PartialEq, Eq, Structural)]
pub enum ProtocolFamily {
    OpenAiChat,
    OpenAiResponses,
    AnthropicMessages,
    GeminiGenerateContent,
    AzureOpenAi,
    BedrockClaude,
    FoundryClaude,
    VertexClaude,
    VertexGemini,
}

#[derive(Debug, Clone, Copy, PartialEq, Eq, Structural)]
pub enum Region {
    ChinaMainland,
    International,
}

/// An application-owned attachment, by what identifies it.
#[derive(Debug, Clone, PartialEq, Eq)]
pub struct AttachmentRef {
    pub id: String,
    pub filename: String,
    pub media_type: String,
    pub size_bytes: u64,
}

/// How a connection stands among others of its provider.
#[derive(Debug, Clone, PartialEq, Eq)]
pub struct ConnectionSpec {
    /// The group it belongs to; its own name where none is given.
    pub group: Option<String>,
    pub hidden: bool,
}

/// What the catalog says of a model.
#[derive(Debug, Clone, PartialEq, Eq)]
pub struct ModelMetadata {
    pub family: Option<String>,
    pub status: Option<String>,
    pub release_date: Option<String>,
    pub last_updated: Option<String>,
    pub knowledge_cutoff: Option<String>,
    pub input_modalities: Vec<String>,
    pub output_modalities: Vec<String>,
    pub context_window_tokens: Option<u64>,
    pub max_input_tokens: Option<u64>,
    pub max_output_tokens: Option<u64>,
    pub open_weights: Option<bool>,
    pub attachments: Option<bool>,
    pub temperature_control: Option<bool>,
}

#[derive(Debug, Clone, Copy, PartialEq, Eq, Structural)]
pub enum ModelCapability {
    Streaming,
    Tools,
    Vision,
    Documents,
    Reasoning,
    StructuredOutput,
    SignedReasoning,
}

/// What is known of each capability.
#[derive(Debug, Clone, Copy, PartialEq, Eq, Structural)]
pub struct ModelCapabilities {
    pub streaming: CapabilitySupport,
    pub tools: CapabilitySupport,
    pub vision: CapabilitySupport,
    pub documents: CapabilitySupport,
    pub reasoning: CapabilitySupport,
    pub structured_output: CapabilitySupport,
    pub signed_reasoning: CapabilitySupport,
}

impl ModelCapabilities {
    pub open spec fn of(&self, capability: ModelCapability) -> CapabilitySupport {
        match capability {
            ModelCapability::Streaming => self.streaming,
            ModelCapability::Tools => self.tools,
            ModelCapability::Vision => self.vision,
            ModelCapability::Documents => self.documents,
            ModelCapability::Reasoning => self.reasoning,
            ModelCapability::StructuredOutput => self.structured_output,
            ModelCapability::SignedReasoning => self.signed_reasoning,
        }
    }
}

/// One row of a connection's model list.
#[derive(Debug, Clone, PartialEq, Eq)]
pub struct ModelProfile {
    pub display_model: String,
    /// The model's name on the wire.
    pub request_model: String,
    pub billing_model: String,
    /// Left out of listings, and still served.
    pub hidden: bool,
    pub aliases: Vec<String>,
    pub description: Option<String>,
    pub metadata: ModelMetadata,
    /// Published prices, as the catalog carries them.
    pub pricing: Option<Json>,
    pub billing_mode: Option<String>,
    /// What is known of the capabilities, if anything is.
    pub capability_support: Option<ModelCapabilities>,
    /// What is known of the reasoning controls.
    pub features: InferenceFeatures,
}

#[derive(Debug, Clone, PartialEq, Eq)]
pub struct AzureConfig {
    pub api_version: Option<String>,
    pub deployment: Option<String>,
}

/// One connection: an endpoint, the wire it speaks and its models.
#[derive(Debug, Clone, PartialEq, Eq)]
pub struct ProviderProfile {
    pub provider_id: String,
    pub profile_name: String,
    pub base_url: String,
    pub protocol: ProtocolFamily,
    /// The regions it may be used in; every region where the list is empty.
    pub regions: Vec<Region>,
    pub connection: ConnectionSpec,
    pub models: Vec<ModelProfile>,
    pub inference: InferenceConfig,
    /// What the connection states of the reasoning controls. It holds for every
    /// model on it.
    pub features: InferenceFeatures,
    pub azure: Option<AzureConfig>,
    pub images: ImageConfig,
    /// Endpoint quirks and additions, as settings carry them.
    pub extra: Json,
    /// How requests are authenticated, by the strategy's name; nothing where they
    /// need no authentication.
    pub auth: Option<String>,
    /// How requests are signed, as settings carry it.
    pub signing: Json,
    /// Whether the settings hold the credential itself rather than name one.
    pub static_credential: bool,
    /// How the connection is billed and presented, as settings carry it. It is
    /// carried and compared, never read.
    pub account: Json,
}

impl ProviderProfile {
    pub open spec fn serves(&self, region: Region) -> bool {
        self.regions@.len() == 0 || self.regions@.contains(region)
    }

    /// Whether the connection may be used in the region.
    pub fn supports_region(&self, region: Region) -> (result: bool)
        ensures
            result == self.serves(region),
    {
        if self.regions.len() == 0 {
            return true;
        }
        let mut i: usize = 0;
        while i < self.regions.len()
            invariant
                i <= self.regions.len(),
                forall|j: int| 0 <= j < i ==> self.regions@[j] != region,
            decreases self.regions.len() - i,
        {
            if self.regions[i] == region {
                assert(self.regions@.contains(region));
                return true;
            }
            i = i + 1;
        }
        false
    }

    pub open spec fn group_name(&self) -> Seq<char> {
        match self.connection.group {
            Some(group) => group@,
            None => self.profile_name@,
        }
    }

    pub fn group(&self) -> (result: &str)
        ensures
            result@ == self.group_name(),
    {
        match &self.connection.group {
            Some(group) => group.as_str(),
            None => self.profile_name.as_str(),
        }
    }
}

impl AttachmentRef {
    /// Whether two references name the same attachment.
    pub fn same(&self, other: &AttachmentRef) -> (result: bool)
        ensures
            result == same_attachment(*self, *other),
    {
        text::same(&self.id, &other.id) && text::same(&self.filename, &other.filename)
            && text::same(&self.media_type, &other.media_type) && self.size_bytes
            == other.size_bytes
    }
}

pub open spec fn same_attachment(a: AttachmentRef, b: AttachmentRef) -> bool {
    &&& a.id@ == b.id@
    &&& a.filename@ == b.filename@
    &&& a.media_type@ == b.media_type@
    &&& a.size_bytes == b.size_bytes
}

/// A member of the settings beside a connection.
pub open spec fn flag_of(profile: ProviderProfile, key: Seq<char>) -> bool {
    json::bool_of(json::at(profile.extra@, key)) == Some(true)
}

/// A boolean knob that a profile may set.
pub fn flag(profile: &ProviderProfile, key: &str) -> (result: bool)
    ensures
        result == flag_of(*profile, key@),
{
    match profile.extra.get(key) {
        Some(value) => match value.as_bool() {
            Some(set) => set,
            None => false,
        },
        None => false,
    }
}

/// The first row for the model, from the `i`th on.
pub open spec fn row_for(models: Seq<ModelProfile>, model: Seq<char>, i: int) -> Option<ModelProfile>
    decreases models.len() - i,
{
    if i < 0 || i >= models.len() {
        None
    } else if models[i].request_model@ == model {
        Some(models[i])
    } else {
        row_for(models, model, i + 1)
    }
}

pub fn find_row<'a>(models: &'a Vec<ModelProfile>, model: &str) -> (result: Option<&'a ModelProfile>)
    ensures
        match result {
            Some(row) => row_for(models@, model@, 0) == Some(*row),
            None => row_for(models@, model@, 0) is None,
        },
{
    let mut i: usize = 0;
    while i < models.len()
        invariant
            i <= models.len(),
            row_for(models@, model@, 0) == row_for(models@, model@, i as int),
        decreases models.len() - i,
    {
        if text::same(&models[i].request_model, model) {
            return Some(&models[i]);
        }
        i = i + 1;
    }
    None
}

/// A copy of the texts.
pub fn dup_strings(texts: &Vec<String>) -> (result: Vec<String>)
    ensures
        result@ == texts@,
{
    let mut out: Vec<String> = Vec::new();
    let mut i: usize = 0;
    while i < texts.len()
        invariant
            i <= texts.len(),
            out@ == texts@.take(i as int),
        decreases texts.len() - i,
    {
        out.push(texts[i].clone());
        i = i + 1;
        assert(texts@.take(i as int) =~= texts@.take(i - 1).push(texts@[i - 1]));
    }
    assert(texts@.take(i as int) =~= texts@);
    out
}

/// Whether two lists of texts are equal.
pub fn same_strings(a: &Vec<String>, b: &Vec<String>) -> (result: bool)
    ensures
        result == (a.deep_view() == b.deep_view()),
{
    assert(a.deep_view().len() == a@.len() && b.deep_view().len() == b@.len());
    if a.len() != b.len() {
        return false;
    }
    let mut i: usize = 0;
    while i < a.len()
        invariant
            i <= a.len() == b.len(),
            forall|k: int| 0 <= k < i ==> a.deep_view()[k] == b.deep_view()[k],
        decreases a.len() - i,
    {
        assert(a.deep_view()[i as int] == a@[i as int]@);
        assert(b.deep_view()[i as int] == b@[i as int]@);
        if !text::same(&a[i], &b[i]) {
            return false;
        }
        i = i + 1;
    }
    assert(a.deep_view() =~= b.deep_view());
    true
}

/// A copy of a text that may be there.
pub fn dup_string(s: &Option<String>) -> (result: Option<String>)
    ensures
        result == *s,
{
    match s {
        Some(s) => Some(s.clone()),
        None => None,
    }
}

/// Equal, list for list.
pub open spec fn same_metadata(a: ModelMetadata, b: ModelMetadata) -> bool {
    &&& a.family == b.family
    &&& a.status == b.status
    &&& a.release_date == b.release_date
    &&& a.last_updated == b.last_updated
    &&& a.knowledge_cutoff == b.knowledge_cutoff
    &&& a.input_modalities@ == b.input_modalities@
    &&& a.output_modalities@ == b.output_modalities@
    &&& a.context_window_tokens == b.context_window_tokens
    &&& a.max_input_tokens == b.max_input_tokens
    &&& a.max_output_tokens == b.max_output_tokens
    &&& a.open_weights == b.open_weights
    &&& a.attachments == b.attachments
    &&& a.temperature_control == b.temperature_control
}

impl ModelMetadata {
    pub fn dup(&self) -> (result: ModelMetadata)
        ensures
            same_metadata(result, *self),
    {
        ModelMetadata {
            family: dup_string(&self.family),
            status: dup_string(&self.status),
            release_date: dup_string(&self.release_date),
            last_updated: dup_string(&self.last_updated),
            knowledge_cutoff: dup_string(&self.knowledge_cutoff),
            input_modalities: dup_strings(&self.input_modalities),
            output_modalities: dup_strings(&self.output_modalities),
            context_window_tokens: self.context_window_tokens,
            max_input_tokens: self.max_input_tokens,
            max_output_tokens: self.max_output_tokens,
            open_weights: self.open_weights,
            attachments: self.attachments,
            temperature_control: self.temperature_control,
        }
    }
}

/// The row without its prices: what a codec sees of it.
pub open spec fn unpriced(a: ModelProfile, b: ModelProfile) -> bool {
    &&& a.display_model == b.display_model
    &&& a.request_model == b.request_model
    &&& a.billing_model == b.billing_model
    &&& a.hidden == b.hidden
    &&& a.aliases@ == b.aliases@
    &&& a.description == b.description
    &&& same_metadata(a.metadata, b.metadata)
    &&& a.pricing is None
    &&& a.billing_mode is None
    &&& a.capability_support == b.capability_support
    &&& a.features@ == b.features@
}

/// What a row says of a capability.
pub open spec fn capability_of(model: ModelProfile, capability: ModelCapability) -> CapabilitySupport {
    match model.capability_support {
        Some(known) => known.of(capability),
        None => CapabilitySupport::Unknown,
    }
}

impl ModelProfile {
    /// What the row says of a capability; nothing where it says nothing of any.
    pub fn capability_support_for(&self, capability: ModelCapability) -> (result: CapabilitySupport)
        ensures
            result == capability_of(*self, capability),
    {
        match self.capability_support {
            None => CapabilitySupport::Unknown,
            Some(known) => match capability {
                ModelCapability::Streaming => known.streaming,
                ModelCapability::Tools => known.tools,
                ModelCapability::Vision => known.vision,
                ModelCapability::Documents => known.documents,
                ModelCapability::Reasoning => known.reasoning,
                ModelCapability::StructuredOutput => known.structured_output,
                ModelCapability::SignedReasoning => known.signed_reasoning,
            },
        }
    }

    /// A copy without prices.
    pub fn snapshot(&self) -> (result: ModelProfile)
        ensures
            unpriced(result, *self),
    {
        ModelProfile {
            display_model: self.display_model.clone(),
            request_model: self.request_model.clone(),
            billing_model: self.billing_model.clone(),
            hidden: self.hidden,
            aliases: dup_strings(&self.aliases),
            description: dup_string(&self.description),
            metadata: self.metadata.dup(),
            pricing: None,
            billing_mode: None,
            capability_support: self.capability_support,
            features: self.features.dup(),
        }
    }
}

} // verus!
