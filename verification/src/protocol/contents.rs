//! How the parts of a connection are copied and compared.

use crate::content::Content;
use crate::json::{Json, JsonView};
use crate::protocol::features::{EffortRule, EffortRuleView, FeaturesView, InferenceFeatures};
use crate::protocol::image::{
    ImageApi, ImageCapabilities, ImageConfig, ImageModelProfile, ImageRouteConfig,
};
use crate::protocol::inference::{
    CapabilitySupport, FastWire, InferenceConfig, ReasoningEffort, ReasoningWire, ThinkingMode,
};
use crate::protocol::profile::{
    AzureConfig, ConnectionSpec, ModelCapabilities, ModelMetadata, ModelProfile, ProtocolFamily,
    ProviderProfile, Region,
};
use vstd::prelude::*;

verus! {

broadcast use {crate::views::group_views, crate::json::group_json};

impl DeepView for ProtocolFamily {
    type V = ProtocolFamily;

    open spec fn deep_view(&self) -> ProtocolFamily {
        *self
    }
}

impl Content for ProtocolFamily {
    open spec fn alike(a: ProtocolFamily, b: ProtocolFamily) -> bool {
        a == b
    }

    proof fn alike_itself(a: ProtocolFamily) {
    }

    proof fn alike_both_ways(a: ProtocolFamily, b: ProtocolFamily) {
    }

    fn duplicate(&self) -> (copy: Self) {
        *self
    }

    fn same_content(&self, other: &Self) -> (result: bool) {
        *self == *other
    }
}

impl DeepView for Region {
    type V = Region;

    open spec fn deep_view(&self) -> Region {
        *self
    }
}

impl Content for Region {
    open spec fn alike(a: Region, b: Region) -> bool {
        a == b
    }

    proof fn alike_itself(a: Region) {
    }

    proof fn alike_both_ways(a: Region, b: Region) {
    }

    fn duplicate(&self) -> (copy: Self) {
        *self
    }

    fn same_content(&self, other: &Self) -> (result: bool) {
        *self == *other
    }
}

impl DeepView for CapabilitySupport {
    type V = CapabilitySupport;

    open spec fn deep_view(&self) -> CapabilitySupport {
        *self
    }
}

impl Content for CapabilitySupport {
    open spec fn alike(a: CapabilitySupport, b: CapabilitySupport) -> bool {
        a == b
    }

    proof fn alike_itself(a: CapabilitySupport) {
    }

    proof fn alike_both_ways(a: CapabilitySupport, b: CapabilitySupport) {
    }

    fn duplicate(&self) -> (copy: Self) {
        *self
    }

    fn same_content(&self, other: &Self) -> (result: bool) {
        *self == *other
    }
}

impl DeepView for ThinkingMode {
    type V = ThinkingMode;

    open spec fn deep_view(&self) -> ThinkingMode {
        *self
    }
}

impl Content for ThinkingMode {
    open spec fn alike(a: ThinkingMode, b: ThinkingMode) -> bool {
        a == b
    }

    proof fn alike_itself(a: ThinkingMode) {
    }

    proof fn alike_both_ways(a: ThinkingMode, b: ThinkingMode) {
    }

    fn duplicate(&self) -> (copy: Self) {
        *self
    }

    fn same_content(&self, other: &Self) -> (result: bool) {
        *self == *other
    }
}

impl DeepView for ReasoningEffort {
    type V = ReasoningEffort;

    open spec fn deep_view(&self) -> ReasoningEffort {
        *self
    }
}

impl Content for ReasoningEffort {
    open spec fn alike(a: ReasoningEffort, b: ReasoningEffort) -> bool {
        a == b
    }

    proof fn alike_itself(a: ReasoningEffort) {
    }

    proof fn alike_both_ways(a: ReasoningEffort, b: ReasoningEffort) {
    }

    fn duplicate(&self) -> (copy: Self) {
        *self
    }

    fn same_content(&self, other: &Self) -> (result: bool) {
        *self == *other
    }
}

impl DeepView for ReasoningWire {
    type V = ReasoningWire;

    open spec fn deep_view(&self) -> ReasoningWire {
        *self
    }
}

impl Content for ReasoningWire {
    open spec fn alike(a: ReasoningWire, b: ReasoningWire) -> bool {
        a == b
    }

    proof fn alike_itself(a: ReasoningWire) {
    }

    proof fn alike_both_ways(a: ReasoningWire, b: ReasoningWire) {
    }

    fn duplicate(&self) -> (copy: Self) {
        *self
    }

    fn same_content(&self, other: &Self) -> (result: bool) {
        *self == *other
    }
}

impl DeepView for FastWire {
    type V = FastWire;

    open spec fn deep_view(&self) -> FastWire {
        *self
    }
}

impl Content for FastWire {
    open spec fn alike(a: FastWire, b: FastWire) -> bool {
        a == b
    }

    proof fn alike_itself(a: FastWire) {
    }

    proof fn alike_both_ways(a: FastWire, b: FastWire) {
    }

    fn duplicate(&self) -> (copy: Self) {
        *self
    }

    fn same_content(&self, other: &Self) -> (result: bool) {
        *self == *other
    }
}

impl DeepView for ImageApi {
    type V = ImageApi;

    open spec fn deep_view(&self) -> ImageApi {
        *self
    }
}

impl Content for ImageApi {
    open spec fn alike(a: ImageApi, b: ImageApi) -> bool {
        a == b
    }

    proof fn alike_itself(a: ImageApi) {
    }

    proof fn alike_both_ways(a: ImageApi, b: ImageApi) {
    }

    fn duplicate(&self) -> (copy: Self) {
        *self
    }

    fn same_content(&self, other: &Self) -> (result: bool) {
        *self == *other
    }
}

impl DeepView for ModelCapabilities {
    type V = ModelCapabilities;

    open spec fn deep_view(&self) -> ModelCapabilities {
        *self
    }
}

impl Content for ModelCapabilities {
    open spec fn alike(a: ModelCapabilities, b: ModelCapabilities) -> bool {
        a == b
    }

    proof fn alike_itself(a: ModelCapabilities) {
    }

    proof fn alike_both_ways(a: ModelCapabilities, b: ModelCapabilities) {
    }

    fn duplicate(&self) -> (copy: Self) {
        *self
    }

    fn same_content(&self, other: &Self) -> (result: bool) {
        *self == *other
    }
}

impl DeepView for ImageCapabilities {
    type V = ImageCapabilities;

    open spec fn deep_view(&self) -> ImageCapabilities {
        *self
    }
}

impl Content for ImageCapabilities {
    open spec fn alike(a: ImageCapabilities, b: ImageCapabilities) -> bool {
        a == b
    }

    proof fn alike_itself(a: ImageCapabilities) {
    }

    proof fn alike_both_ways(a: ImageCapabilities, b: ImageCapabilities) {
    }

    fn duplicate(&self) -> (copy: Self) {
        *self
    }

    fn same_content(&self, other: &Self) -> (result: bool) {
        self.text_to_image == other.text_to_image && self.reference_generation
            == other.reference_generation && self.editing == other.editing && self.mask_editing
            == other.mask_editing && self.async_generate == other.async_generate
            && self.async_edit == other.async_edit && self.max_inputs.same_content(
            &other.max_inputs,
        ) && self.max_outputs.same_content(&other.max_outputs)
    }
}

impl Content for InferenceFeatures {
    open spec fn alike(a: FeaturesView, b: FeaturesView) -> bool {
        a == b
    }

    proof fn alike_itself(a: FeaturesView) {
    }

    proof fn alike_both_ways(a: FeaturesView, b: FeaturesView) {
    }

    fn duplicate(&self) -> (copy: Self) {
        self.dup()
    }

    fn same_content(&self, other: &Self) -> (result: bool) {
        self.same(other)
    }
}

pub struct MetadataView {
    pub family: Option<Seq<char>>,
    pub status: Option<Seq<char>>,
    pub release_date: Option<Seq<char>>,
    pub last_updated: Option<Seq<char>>,
    pub knowledge_cutoff: Option<Seq<char>>,
    pub input_modalities: Seq<Seq<char>>,
    pub output_modalities: Seq<Seq<char>>,
    pub context_window_tokens: Option<u64>,
    pub max_input_tokens: Option<u64>,
    pub max_output_tokens: Option<u64>,
    pub open_weights: Option<bool>,
    pub attachments: Option<bool>,
    pub temperature_control: Option<bool>,
}

impl DeepView for ModelMetadata {
    type V = MetadataView;

    open spec fn deep_view(&self) -> MetadataView {
        MetadataView {
            family: self.family.deep_view(),
            status: self.status.deep_view(),
            release_date: self.release_date.deep_view(),
            last_updated: self.last_updated.deep_view(),
            knowledge_cutoff: self.knowledge_cutoff.deep_view(),
            input_modalities: self.input_modalities.deep_view(),
            output_modalities: self.output_modalities.deep_view(),
            context_window_tokens: self.context_window_tokens.deep_view(),
            max_input_tokens: self.max_input_tokens.deep_view(),
            max_output_tokens: self.max_output_tokens.deep_view(),
            open_weights: self.open_weights.deep_view(),
            attachments: self.attachments.deep_view(),
            temperature_control: self.temperature_control.deep_view(),
        }
    }
}

impl Content for ModelMetadata {
    open spec fn alike(a: MetadataView, b: MetadataView) -> bool {
        &&& <Option<String> as Content>::alike(a.family, b.family)
        &&& <Option<String> as Content>::alike(a.status, b.status)
        &&& <Option<String> as Content>::alike(a.release_date, b.release_date)
        &&& <Option<String> as Content>::alike(a.last_updated, b.last_updated)
        &&& <Option<String> as Content>::alike(a.knowledge_cutoff, b.knowledge_cutoff)
        &&& <Vec<String> as Content>::alike(a.input_modalities, b.input_modalities)
        &&& <Vec<String> as Content>::alike(a.output_modalities, b.output_modalities)
        &&& <Option<u64> as Content>::alike(a.context_window_tokens, b.context_window_tokens)
        &&& <Option<u64> as Content>::alike(a.max_input_tokens, b.max_input_tokens)
        &&& <Option<u64> as Content>::alike(a.max_output_tokens, b.max_output_tokens)
        &&& <Option<bool> as Content>::alike(a.open_weights, b.open_weights)
        &&& <Option<bool> as Content>::alike(a.attachments, b.attachments)
        &&& <Option<bool> as Content>::alike(a.temperature_control, b.temperature_control)
    }

    proof fn alike_itself(a: MetadataView) {
        <Option<String> as Content>::alike_itself(a.family);
        <Option<String> as Content>::alike_itself(a.status);
        <Option<String> as Content>::alike_itself(a.release_date);
        <Option<String> as Content>::alike_itself(a.last_updated);
        <Option<String> as Content>::alike_itself(a.knowledge_cutoff);
        <Vec<String> as Content>::alike_itself(a.input_modalities);
        <Vec<String> as Content>::alike_itself(a.output_modalities);
        <Option<u64> as Content>::alike_itself(a.context_window_tokens);
        <Option<u64> as Content>::alike_itself(a.max_input_tokens);
        <Option<u64> as Content>::alike_itself(a.max_output_tokens);
        <Option<bool> as Content>::alike_itself(a.open_weights);
        <Option<bool> as Content>::alike_itself(a.attachments);
        <Option<bool> as Content>::alike_itself(a.temperature_control);
    }

    proof fn alike_both_ways(a: MetadataView, b: MetadataView) {
        <Option<String> as Content>::alike_both_ways(a.family, b.family);
        <Option<String> as Content>::alike_both_ways(a.status, b.status);
        <Option<String> as Content>::alike_both_ways(a.release_date, b.release_date);
        <Option<String> as Content>::alike_both_ways(a.last_updated, b.last_updated);
        <Option<String> as Content>::alike_both_ways(a.knowledge_cutoff, b.knowledge_cutoff);
        <Vec<String> as Content>::alike_both_ways(a.input_modalities, b.input_modalities);
        <Vec<String> as Content>::alike_both_ways(a.output_modalities, b.output_modalities);
        <Option<u64> as Content>::alike_both_ways(a.context_window_tokens, b.context_window_tokens);
        <Option<u64> as Content>::alike_both_ways(a.max_input_tokens, b.max_input_tokens);
        <Option<u64> as Content>::alike_both_ways(a.max_output_tokens, b.max_output_tokens);
        <Option<bool> as Content>::alike_both_ways(a.open_weights, b.open_weights);
        <Option<bool> as Content>::alike_both_ways(a.attachments, b.attachments);
        <Option<bool> as Content>::alike_both_ways(a.temperature_control, b.temperature_control);
    }

    fn duplicate(&self) -> (copy: Self) {
        ModelMetadata {
            family: self.family.duplicate(),
            status: self.status.duplicate(),
            release_date: self.release_date.duplicate(),
            last_updated: self.last_updated.duplicate(),
            knowledge_cutoff: self.knowledge_cutoff.duplicate(),
            input_modalities: self.input_modalities.duplicate(),
            output_modalities: self.output_modalities.duplicate(),
            context_window_tokens: self.context_window_tokens.duplicate(),
            max_input_tokens: self.max_input_tokens.duplicate(),
            max_output_tokens: self.max_output_tokens.duplicate(),
            open_weights: self.open_weights.duplicate(),
            attachments: self.attachments.duplicate(),
            temperature_control: self.temperature_control.duplicate(),
        }
    }

    fn same_content(&self, other: &Self) -> (result: bool) {
        self.family.same_content(&other.family)
            && self.status.same_content(&other.status)
            && self.release_date.same_content(&other.release_date)
            && self.last_updated.same_content(&other.last_updated)
            && self.knowledge_cutoff.same_content(&other.knowledge_cutoff)
            && self.input_modalities.same_content(&other.input_modalities)
            && self.output_modalities.same_content(&other.output_modalities)
            && self.context_window_tokens.same_content(&other.context_window_tokens)
            && self.max_input_tokens.same_content(&other.max_input_tokens)
            && self.max_output_tokens.same_content(&other.max_output_tokens)
            && self.open_weights.same_content(&other.open_weights)
            && self.attachments.same_content(&other.attachments)
            && self.temperature_control.same_content(&other.temperature_control)
    }
}

impl Content for EffortRule {
    open spec fn alike(a: EffortRuleView, b: EffortRuleView) -> bool {
        &&& <Option<ThinkingMode> as Content>::alike(a.mode, b.mode)
        &&& <ReasoningEffort as Content>::alike(a.effort, b.effort)
        &&& <CapabilitySupport as Content>::alike(a.support, b.support)
        &&& <Option<String> as Content>::alike(a.conflict, b.conflict)
    }

    proof fn alike_itself(a: EffortRuleView) {
        <Option<ThinkingMode> as Content>::alike_itself(a.mode);
        <ReasoningEffort as Content>::alike_itself(a.effort);
        <CapabilitySupport as Content>::alike_itself(a.support);
        <Option<String> as Content>::alike_itself(a.conflict);
    }

    proof fn alike_both_ways(a: EffortRuleView, b: EffortRuleView) {
        <Option<ThinkingMode> as Content>::alike_both_ways(a.mode, b.mode);
        <ReasoningEffort as Content>::alike_both_ways(a.effort, b.effort);
        <CapabilitySupport as Content>::alike_both_ways(a.support, b.support);
        <Option<String> as Content>::alike_both_ways(a.conflict, b.conflict);
    }

    fn duplicate(&self) -> (copy: Self) {
        EffortRule {
            mode: self.mode.duplicate(),
            effort: self.effort.duplicate(),
            support: self.support.duplicate(),
            conflict: self.conflict.duplicate(),
        }
    }

    fn same_content(&self, other: &Self) -> (result: bool) {
        self.mode.same_content(&other.mode)
            && self.effort.same_content(&other.effort)
            && self.support.same_content(&other.support)
            && self.conflict.same_content(&other.conflict)
    }
}

pub struct InferenceConfigView {
    pub reasoning: ReasoningWire,
    pub fast: Option<FastWire>,
    pub enabled_requires_budget: Option<bool>,
    pub fast_beta: Option<Seq<char>>,
    pub tier_response_header: Option<Seq<char>>,
}

impl DeepView for InferenceConfig {
    type V = InferenceConfigView;

    open spec fn deep_view(&self) -> InferenceConfigView {
        InferenceConfigView {
            reasoning: self.reasoning.deep_view(),
            fast: self.fast.deep_view(),
            enabled_requires_budget: self.enabled_requires_budget.deep_view(),
            fast_beta: self.fast_beta.deep_view(),
            tier_response_header: self.tier_response_header.deep_view(),
        }
    }
}

impl Content for InferenceConfig {
    open spec fn alike(a: InferenceConfigView, b: InferenceConfigView) -> bool {
        &&& <ReasoningWire as Content>::alike(a.reasoning, b.reasoning)
        &&& <Option<FastWire> as Content>::alike(a.fast, b.fast)
        &&& <Option<bool> as Content>::alike(a.enabled_requires_budget, b.enabled_requires_budget)
        &&& <Option<String> as Content>::alike(a.fast_beta, b.fast_beta)
        &&& <Option<String> as Content>::alike(a.tier_response_header, b.tier_response_header)
    }

    proof fn alike_itself(a: InferenceConfigView) {
        <ReasoningWire as Content>::alike_itself(a.reasoning);
        <Option<FastWire> as Content>::alike_itself(a.fast);
        <Option<bool> as Content>::alike_itself(a.enabled_requires_budget);
        <Option<String> as Content>::alike_itself(a.fast_beta);
        <Option<String> as Content>::alike_itself(a.tier_response_header);
    }

    proof fn alike_both_ways(a: InferenceConfigView, b: InferenceConfigView) {
        <ReasoningWire as Content>::alike_both_ways(a.reasoning, b.reasoning);
        <Option<FastWire> as Content>::alike_both_ways(a.fast, b.fast);
        <Option<bool> as Content>::alike_both_ways(a.enabled_requires_budget, b.enabled_requires_budget);
        <Option<String> as Content>::alike_both_ways(a.fast_beta, b.fast_beta);
        <Option<String> as Content>::alike_both_ways(a.tier_response_header, b.tier_response_header);
    }

    fn duplicate(&self) -> (copy: Self) {
        InferenceConfig {
            reasoning: self.reasoning.duplicate(),
            fast: self.fast.duplicate(),
            enabled_requires_budget: self.enabled_requires_budget.duplicate(),
            fast_beta: self.fast_beta.duplicate(),
            tier_response_header: self.tier_response_header.duplicate(),
        }
    }

    fn same_content(&self, other: &Self) -> (result: bool) {
        self.reasoning.same_content(&other.reasoning)
            && self.fast.same_content(&other.fast)
            && self.enabled_requires_budget.same_content(&other.enabled_requires_budget)
            && self.fast_beta.same_content(&other.fast_beta)
            && self.tier_response_header.same_content(&other.tier_response_header)
    }
}

pub struct ModelView {
    pub display_model: Seq<char>,
    pub request_model: Seq<char>,
    pub billing_model: Seq<char>,
    pub hidden: bool,
    pub aliases: Seq<Seq<char>>,
    pub description: Option<Seq<char>>,
    pub metadata: MetadataView,
    pub pricing: Option<JsonView>,
    pub billing_mode: Option<Seq<char>>,
    pub capability_support: Option<ModelCapabilities>,
    pub features: FeaturesView,
}

impl DeepView for ModelProfile {
    type V = ModelView;

    open spec fn deep_view(&self) -> ModelView {
        ModelView {
            display_model: self.display_model.deep_view(),
            request_model: self.request_model.deep_view(),
            billing_model: self.billing_model.deep_view(),
            hidden: self.hidden.deep_view(),
            aliases: self.aliases.deep_view(),
            description: self.description.deep_view(),
            metadata: self.metadata.deep_view(),
            pricing: self.pricing.deep_view(),
            billing_mode: self.billing_mode.deep_view(),
            capability_support: self.capability_support.deep_view(),
            features: self.features.deep_view(),
        }
    }
}

impl Content for ModelProfile {
    open spec fn alike(a: ModelView, b: ModelView) -> bool {
        &&& <String as Content>::alike(a.display_model, b.display_model)
        &&& <String as Content>::alike(a.request_model, b.request_model)
        &&& <String as Content>::alike(a.billing_model, b.billing_model)
        &&& <bool as Content>::alike(a.hidden, b.hidden)
        &&& <Vec<String> as Content>::alike(a.aliases, b.aliases)
        &&& <Option<String> as Content>::alike(a.description, b.description)
        &&& <ModelMetadata as Content>::alike(a.metadata, b.metadata)
        &&& <Option<Json> as Content>::alike(a.pricing, b.pricing)
        &&& <Option<String> as Content>::alike(a.billing_mode, b.billing_mode)
        &&& <Option<ModelCapabilities> as Content>::alike(a.capability_support, b.capability_support)
        &&& <InferenceFeatures as Content>::alike(a.features, b.features)
    }

    proof fn alike_itself(a: ModelView) {
        <String as Content>::alike_itself(a.display_model);
        <String as Content>::alike_itself(a.request_model);
        <String as Content>::alike_itself(a.billing_model);
        <bool as Content>::alike_itself(a.hidden);
        <Vec<String> as Content>::alike_itself(a.aliases);
        <Option<String> as Content>::alike_itself(a.description);
        <ModelMetadata as Content>::alike_itself(a.metadata);
        <Option<Json> as Content>::alike_itself(a.pricing);
        <Option<String> as Content>::alike_itself(a.billing_mode);
        <Option<ModelCapabilities> as Content>::alike_itself(a.capability_support);
        <InferenceFeatures as Content>::alike_itself(a.features);
    }

    proof fn alike_both_ways(a: ModelView, b: ModelView) {
        <String as Content>::alike_both_ways(a.display_model, b.display_model);
        <String as Content>::alike_both_ways(a.request_model, b.request_model);
        <String as Content>::alike_both_ways(a.billing_model, b.billing_model);
        <bool as Content>::alike_both_ways(a.hidden, b.hidden);
        <Vec<String> as Content>::alike_both_ways(a.aliases, b.aliases);
        <Option<String> as Content>::alike_both_ways(a.description, b.description);
        <ModelMetadata as Content>::alike_both_ways(a.metadata, b.metadata);
        <Option<Json> as Content>::alike_both_ways(a.pricing, b.pricing);
        <Option<String> as Content>::alike_both_ways(a.billing_mode, b.billing_mode);
        <Option<ModelCapabilities> as Content>::alike_both_ways(a.capability_support, b.capability_support);
        <InferenceFeatures as Content>::alike_both_ways(a.features, b.features);
    }

    fn duplicate(&self) -> (copy: Self) {
        ModelProfile {
            display_model: self.display_model.duplicate(),
            request_model: self.request_model.duplicate(),
            billing_model: self.billing_model.duplicate(),
            hidden: self.hidden.duplicate(),
            aliases: self.aliases.duplicate(),
            description: self.description.duplicate(),
            metadata: self.metadata.duplicate(),
            pricing: self.pricing.duplicate(),
            billing_mode: self.billing_mode.duplicate(),
            capability_support: self.capability_support.duplicate(),
            features: self.features.duplicate(),
        }
    }

    fn same_content(&self, other: &Self) -> (result: bool) {
        self.display_model.same_content(&other.display_model)
            && self.request_model.same_content(&other.request_model)
            && self.billing_model.same_content(&other.billing_model)
            && self.hidden.same_content(&other.hidden)
            && self.aliases.same_content(&other.aliases)
            && self.description.same_content(&other.description)
            && self.metadata.same_content(&other.metadata)
            && self.pricing.same_content(&other.pricing)
            && self.billing_mode.same_content(&other.billing_mode)
            && self.capability_support.same_content(&other.capability_support)
            && self.features.same_content(&other.features)
    }
}

pub struct ConnectionSpecView {
    pub group: Option<Seq<char>>,
    pub hidden: bool,
}

impl DeepView for ConnectionSpec {
    type V = ConnectionSpecView;

    open spec fn deep_view(&self) -> ConnectionSpecView {
        ConnectionSpecView {
            group: self.group.deep_view(),
            hidden: self.hidden.deep_view(),
        }
    }
}

impl Content for ConnectionSpec {
    open spec fn alike(a: ConnectionSpecView, b: ConnectionSpecView) -> bool {
        &&& <Option<String> as Content>::alike(a.group, b.group)
        &&& <bool as Content>::alike(a.hidden, b.hidden)
    }

    proof fn alike_itself(a: ConnectionSpecView) {
        <Option<String> as Content>::alike_itself(a.group);
        <bool as Content>::alike_itself(a.hidden);
    }

    proof fn alike_both_ways(a: ConnectionSpecView, b: ConnectionSpecView) {
        <Option<String> as Content>::alike_both_ways(a.group, b.group);
        <bool as Content>::alike_both_ways(a.hidden, b.hidden);
    }

    fn duplicate(&self) -> (copy: Self) {
        ConnectionSpec {
            group: self.group.duplicate(),
            hidden: self.hidden.duplicate(),
        }
    }

    fn same_content(&self, other: &Self) -> (result: bool) {
        self.group.same_content(&other.group) && self.hidden.same_content(&other.hidden)
    }
}

pub struct AzureView {
    pub api_version: Option<Seq<char>>,
    pub deployment: Option<Seq<char>>,
}

impl DeepView for AzureConfig {
    type V = AzureView;

    open spec fn deep_view(&self) -> AzureView {
        AzureView {
            api_version: self.api_version.deep_view(),
            deployment: self.deployment.deep_view(),
        }
    }
}

impl Content for AzureConfig {
    open spec fn alike(a: AzureView, b: AzureView) -> bool {
        &&& <Option<String> as Content>::alike(a.api_version, b.api_version)
        &&& <Option<String> as Content>::alike(a.deployment, b.deployment)
    }

    proof fn alike_itself(a: AzureView) {
        <Option<String> as Content>::alike_itself(a.api_version);
        <Option<String> as Content>::alike_itself(a.deployment);
    }

    proof fn alike_both_ways(a: AzureView, b: AzureView) {
        <Option<String> as Content>::alike_both_ways(a.api_version, b.api_version);
        <Option<String> as Content>::alike_both_ways(a.deployment, b.deployment);
    }

    fn duplicate(&self) -> (copy: Self) {
        AzureConfig {
            api_version: self.api_version.duplicate(),
            deployment: self.deployment.duplicate(),
        }
    }

    fn same_content(&self, other: &Self) -> (result: bool) {
        self.api_version.same_content(&other.api_version) && self.deployment.same_content(&other.deployment)
    }
}

pub struct ImageModelView {
    pub display_model: Seq<char>,
    pub request_model: Seq<char>,
    pub route: Seq<char>,
    pub aliases: Seq<Seq<char>>,
    pub hidden: bool,
    pub capabilities: ImageCapabilities,
}

impl DeepView for ImageModelProfile {
    type V = ImageModelView;

    open spec fn deep_view(&self) -> ImageModelView {
        ImageModelView {
            display_model: self.display_model.deep_view(),
            request_model: self.request_model.deep_view(),
            route: self.route.deep_view(),
            aliases: self.aliases.deep_view(),
            hidden: self.hidden.deep_view(),
            capabilities: self.capabilities.deep_view(),
        }
    }
}

impl Content for ImageModelProfile {
    open spec fn alike(a: ImageModelView, b: ImageModelView) -> bool {
        &&& <String as Content>::alike(a.display_model, b.display_model)
        &&& <String as Content>::alike(a.request_model, b.request_model)
        &&& <String as Content>::alike(a.route, b.route)
        &&& <Vec<String> as Content>::alike(a.aliases, b.aliases)
        &&& <bool as Content>::alike(a.hidden, b.hidden)
        &&& <ImageCapabilities as Content>::alike(a.capabilities, b.capabilities)
    }

    proof fn alike_itself(a: ImageModelView) {
        <String as Content>::alike_itself(a.display_model);
        <String as Content>::alike_itself(a.request_model);
        <String as Content>::alike_itself(a.route);
        <Vec<String> as Content>::alike_itself(a.aliases);
        <bool as Content>::alike_itself(a.hidden);
        <ImageCapabilities as Content>::alike_itself(a.capabilities);
    }

    proof fn alike_both_ways(a: ImageModelView, b: ImageModelView) {
        <String as Content>::alike_both_ways(a.display_model, b.display_model);
        <String as Content>::alike_both_ways(a.request_model, b.request_model);
        <String as Content>::alike_both_ways(a.route, b.route);
        <Vec<String> as Content>::alike_both_ways(a.aliases, b.aliases);
        <bool as Content>::alike_both_ways(a.hidden, b.hidden);
        <ImageCapabilities as Content>::alike_both_ways(a.capabilities, b.capabilities);
    }

    fn duplicate(&self) -> (copy: Self) {
        ImageModelProfile {
            display_model: self.display_model.duplicate(),
            request_model: self.request_model.duplicate(),
            route: self.route.duplicate(),
            aliases: self.aliases.duplicate(),
            hidden: self.hidden.duplicate(),
            capabilities: self.capabilities.duplicate(),
        }
    }

    fn same_content(&self, other: &Self) -> (result: bool) {
        self.display_model.same_content(&other.display_model)
            && self.request_model.same_content(&other.request_model)
            && self.route.same_content(&other.route)
            && self.aliases.same_content(&other.aliases)
            && self.hidden.same_content(&other.hidden)
            && self.capabilities.same_content(&other.capabilities)
    }
}

pub struct ImageRouteView {
    pub api: ImageApi,
    pub base_url: Seq<char>,
    pub task_base_url: Option<Seq<char>>,
    pub authenticator: Option<Seq<char>>,
    pub api_key_header: Option<Seq<char>>,
}

impl DeepView for ImageRouteConfig {
    type V = ImageRouteView;

    open spec fn deep_view(&self) -> ImageRouteView {
        ImageRouteView {
            api: self.api.deep_view(),
            base_url: self.base_url.deep_view(),
            task_base_url: self.task_base_url.deep_view(),
            authenticator: self.authenticator.deep_view(),
            api_key_header: self.api_key_header.deep_view(),
        }
    }
}

impl Content for ImageRouteConfig {
    open spec fn alike(a: ImageRouteView, b: ImageRouteView) -> bool {
        &&& <ImageApi as Content>::alike(a.api, b.api)
        &&& <String as Content>::alike(a.base_url, b.base_url)
        &&& <Option<String> as Content>::alike(a.task_base_url, b.task_base_url)
        &&& <Option<String> as Content>::alike(a.authenticator, b.authenticator)
        &&& <Option<String> as Content>::alike(a.api_key_header, b.api_key_header)
    }

    proof fn alike_itself(a: ImageRouteView) {
        <ImageApi as Content>::alike_itself(a.api);
        <String as Content>::alike_itself(a.base_url);
        <Option<String> as Content>::alike_itself(a.task_base_url);
        <Option<String> as Content>::alike_itself(a.authenticator);
        <Option<String> as Content>::alike_itself(a.api_key_header);
    }

    proof fn alike_both_ways(a: ImageRouteView, b: ImageRouteView) {
        <ImageApi as Content>::alike_both_ways(a.api, b.api);
        <String as Content>::alike_both_ways(a.base_url, b.base_url);
        <Option<String> as Content>::alike_both_ways(a.task_base_url, b.task_base_url);
        <Option<String> as Content>::alike_both_ways(a.authenticator, b.authenticator);
        <Option<String> as Content>::alike_both_ways(a.api_key_header, b.api_key_header);
    }

    fn duplicate(&self) -> (copy: Self) {
        ImageRouteConfig {
            api: self.api.duplicate(),
            base_url: self.base_url.duplicate(),
            task_base_url: self.task_base_url.duplicate(),
            authenticator: self.authenticator.duplicate(),
            api_key_header: self.api_key_header.duplicate(),
        }
    }

    fn same_content(&self, other: &Self) -> (result: bool) {
        self.api.same_content(&other.api)
            && self.base_url.same_content(&other.base_url)
            && self.task_base_url.same_content(&other.task_base_url)
            && self.authenticator.same_content(&other.authenticator)
            && self.api_key_header.same_content(&other.api_key_header)
    }
}

pub struct ImagesView {
    pub routes: Seq<(Seq<char>, ImageRouteView)>,
    pub models: Seq<ImageModelView>,
}

impl DeepView for ImageConfig {
    type V = ImagesView;

    open spec fn deep_view(&self) -> ImagesView {
        ImagesView {
            routes: self.routes.deep_view(),
            models: self.models.deep_view(),
        }
    }
}

impl Content for ImageConfig {
    open spec fn alike(a: ImagesView, b: ImagesView) -> bool {
        &&& <Vec<(String, ImageRouteConfig)> as Content>::alike(a.routes, b.routes)
        &&& <Vec<ImageModelProfile> as Content>::alike(a.models, b.models)
    }

    proof fn alike_itself(a: ImagesView) {
        <Vec<(String, ImageRouteConfig)> as Content>::alike_itself(a.routes);
        <Vec<ImageModelProfile> as Content>::alike_itself(a.models);
    }

    proof fn alike_both_ways(a: ImagesView, b: ImagesView) {
        <Vec<(String, ImageRouteConfig)> as Content>::alike_both_ways(a.routes, b.routes);
        <Vec<ImageModelProfile> as Content>::alike_both_ways(a.models, b.models);
    }

    fn duplicate(&self) -> (copy: Self) {
        ImageConfig {
            routes: self.routes.duplicate(),
            models: self.models.duplicate(),
        }
    }

    fn same_content(&self, other: &Self) -> (result: bool) {
        self.routes.same_content(&other.routes) && self.models.same_content(&other.models)
    }
}

pub struct ProviderView {
    pub provider_id: Seq<char>,
    pub profile_name: Seq<char>,
    pub base_url: Seq<char>,
    pub protocol: ProtocolFamily,
    pub regions: Seq<Region>,
    pub connection: ConnectionSpecView,
    pub models: Seq<ModelView>,
    pub inference: InferenceConfigView,
    pub features: FeaturesView,
    pub azure: Option<AzureView>,
    pub images: ImagesView,
    pub extra: JsonView,
    pub auth: Option<Seq<char>>,
    pub signing: JsonView,
    pub static_credential: bool,
    pub account: JsonView,
}

impl DeepView for ProviderProfile {
    type V = ProviderView;

    open spec fn deep_view(&self) -> ProviderView {
        ProviderView {
            provider_id: self.provider_id.deep_view(),
            profile_name: self.profile_name.deep_view(),
            base_url: self.base_url.deep_view(),
            protocol: self.protocol.deep_view(),
            regions: self.regions.deep_view(),
            connection: self.connection.deep_view(),
            models: self.models.deep_view(),
            inference: self.inference.deep_view(),
            features: self.features.deep_view(),
            azure: self.azure.deep_view(),
            images: self.images.deep_view(),
            extra: self.extra.deep_view(),
            auth: self.auth.deep_view(),
            signing: self.signing.deep_view(),
            static_credential: self.static_credential.deep_view(),
            account: self.account.deep_view(),
        }
    }
}

impl Content for ProviderProfile {
    open spec fn alike(a: ProviderView, b: ProviderView) -> bool {
        &&& <String as Content>::alike(a.provider_id, b.provider_id)
        &&& <String as Content>::alike(a.profile_name, b.profile_name)
        &&& <String as Content>::alike(a.base_url, b.base_url)
        &&& <ProtocolFamily as Content>::alike(a.protocol, b.protocol)
        &&& <Vec<Region> as Content>::alike(a.regions, b.regions)
        &&& <ConnectionSpec as Content>::alike(a.connection, b.connection)
        &&& <Vec<ModelProfile> as Content>::alike(a.models, b.models)
        &&& <InferenceConfig as Content>::alike(a.inference, b.inference)
        &&& <InferenceFeatures as Content>::alike(a.features, b.features)
        &&& <Option<AzureConfig> as Content>::alike(a.azure, b.azure)
        &&& <ImageConfig as Content>::alike(a.images, b.images)
        &&& <Json as Content>::alike(a.extra, b.extra)
        &&& <Option<String> as Content>::alike(a.auth, b.auth)
        &&& <Json as Content>::alike(a.signing, b.signing)
        &&& <bool as Content>::alike(a.static_credential, b.static_credential)
        &&& <Json as Content>::alike(a.account, b.account)
    }

    proof fn alike_itself(a: ProviderView) {
        <String as Content>::alike_itself(a.provider_id);
        <String as Content>::alike_itself(a.profile_name);
        <String as Content>::alike_itself(a.base_url);
        <ProtocolFamily as Content>::alike_itself(a.protocol);
        <Vec<Region> as Content>::alike_itself(a.regions);
        <ConnectionSpec as Content>::alike_itself(a.connection);
        <Vec<ModelProfile> as Content>::alike_itself(a.models);
        <InferenceConfig as Content>::alike_itself(a.inference);
        <InferenceFeatures as Content>::alike_itself(a.features);
        <Option<AzureConfig> as Content>::alike_itself(a.azure);
        <ImageConfig as Content>::alike_itself(a.images);
        <Json as Content>::alike_itself(a.extra);
        <Option<String> as Content>::alike_itself(a.auth);
        <Json as Content>::alike_itself(a.signing);
        <bool as Content>::alike_itself(a.static_credential);
        <Json as Content>::alike_itself(a.account);
    }

    proof fn alike_both_ways(a: ProviderView, b: ProviderView) {
        <String as Content>::alike_both_ways(a.provider_id, b.provider_id);
        <String as Content>::alike_both_ways(a.profile_name, b.profile_name);
        <String as Content>::alike_both_ways(a.base_url, b.base_url);
        <ProtocolFamily as Content>::alike_both_ways(a.protocol, b.protocol);
        <Vec<Region> as Content>::alike_both_ways(a.regions, b.regions);
        <ConnectionSpec as Content>::alike_both_ways(a.connection, b.connection);
        <Vec<ModelProfile> as Content>::alike_both_ways(a.models, b.models);
        <InferenceConfig as Content>::alike_both_ways(a.inference, b.inference);
        <InferenceFeatures as Content>::alike_both_ways(a.features, b.features);
        <Option<AzureConfig> as Content>::alike_both_ways(a.azure, b.azure);
        <ImageConfig as Content>::alike_both_ways(a.images, b.images);
        <Json as Content>::alike_both_ways(a.extra, b.extra);
        <Option<String> as Content>::alike_both_ways(a.auth, b.auth);
        <Json as Content>::alike_both_ways(a.signing, b.signing);
        <bool as Content>::alike_both_ways(a.static_credential, b.static_credential);
        <Json as Content>::alike_both_ways(a.account, b.account);
    }

    fn duplicate(&self) -> (copy: Self) {
        ProviderProfile {
            provider_id: self.provider_id.duplicate(),
            profile_name: self.profile_name.duplicate(),
            base_url: self.base_url.duplicate(),
            protocol: self.protocol.duplicate(),
            regions: self.regions.duplicate(),
            connection: self.connection.duplicate(),
            models: self.models.duplicate(),
            inference: self.inference.duplicate(),
            features: self.features.duplicate(),
            azure: self.azure.duplicate(),
            images: self.images.duplicate(),
            extra: self.extra.duplicate(),
            auth: self.auth.duplicate(),
            signing: self.signing.duplicate(),
            static_credential: self.static_credential.duplicate(),
            account: self.account.duplicate(),
        }
    }

    fn same_content(&self, other: &Self) -> (result: bool) {
        self.provider_id.same_content(&other.provider_id)
            && self.profile_name.same_content(&other.profile_name)
            && self.base_url.same_content(&other.base_url)
            && self.protocol.same_content(&other.protocol)
            && self.regions.same_content(&other.regions)
            && self.connection.same_content(&other.connection)
            && self.models.same_content(&other.models)
            && self.inference.same_content(&other.inference)
            && self.features.same_content(&other.features)
            && self.azure.same_content(&other.azure)
            && self.images.same_content(&other.images)
            && self.extra.same_content(&other.extra)
            && self.auth.same_content(&other.auth)
            && self.signing.same_content(&other.signing)
            && self.static_credential.same_content(&other.static_credential)
            && self.account.same_content(&other.account)
    }
}

} // verus!
