//! What is kept of a configuration. Model rows have identities of their own,
//! independent of what the models are called on the wire.
//!
//! Where settings have a set or a map by name, a list in ascending order stands for
//! it, so that equal contents are equal lists.

use crate::content::Content;
use crate::json::{Json, JsonView};
use crate::protocol::features;
use crate::protocol::{
    FeaturesView, InferenceFeatures, MetadataView, ModelCapabilities, ModelMetadata, ModelProfile,
    ModelView, ProviderProfile, ProviderView,
};
use crate::text;
use vstd::prelude::*;

verus! {

broadcast use {crate::views::group_views, crate::json::group_json};

/// Where an account's default definition is found on the next load.
#[derive(Debug, Clone, PartialEq, Eq)]
pub enum DefinitionRef {
    Builtin { name: String },
    Caller { name: String },
}

pub enum DefinitionRefView {
    Builtin { name: Seq<char> },
    Caller { name: Seq<char> },
}

impl DeepView for DefinitionRef {
    type V = DefinitionRefView;

    open spec fn deep_view(&self) -> DefinitionRefView {
        match self {
            DefinitionRef::Builtin { name } => DefinitionRefView::Builtin { name: name@ },
            DefinitionRef::Caller { name } => DefinitionRefView::Caller { name: name@ },
        }
    }
}

impl Content for DefinitionRef {
    open spec fn alike(a: DefinitionRefView, b: DefinitionRefView) -> bool {
        a == b
    }

    proof fn alike_itself(a: DefinitionRefView) {
    }

    proof fn alike_both_ways(a: DefinitionRefView, b: DefinitionRefView) {
    }

    fn duplicate(&self) -> (copy: Self) {
        match self {
            DefinitionRef::Builtin { name } => DefinitionRef::Builtin { name: name.clone() },
            DefinitionRef::Caller { name } => DefinitionRef::Caller { name: name.clone() },
        }
    }

    fn same_content(&self, other: &Self) -> (result: bool) {
        match (self, other) {
            (DefinitionRef::Builtin { name: a }, DefinitionRef::Builtin { name: b }) => text::same(
                a,
                b,
            ),
            (DefinitionRef::Caller { name: a }, DefinitionRef::Caller { name: b }) => text::same(
                a,
                b,
            ),
            _ => false,
        }
    }
}

/// The name of the definition.
pub open spec fn ref_name(reference: DefinitionRefView) -> Seq<char> {
    match reference {
        DefinitionRefView::Builtin { name } => name,
        DefinitionRefView::Caller { name } => name,
    }
}

impl DefinitionRef {
    pub fn name(&self) -> (name: &str)
        ensures
            name@ == ref_name(self.deep_view()),
    {
        match self {
            DefinitionRef::Builtin { name } => name.as_str(),
            DefinitionRef::Caller { name } => name.as_str(),
        }
    }
}

/// Inherit the latest value, set one, or clear it.
#[derive(Debug, Clone, PartialEq, Eq)]
pub enum FieldOverride<T> {
    Inherit,
    Value(T),
    Clear,
}

impl<T> FieldOverride<T> {
    /// The explicit value of a field that can be cleared: nothing where the
    /// definition or the observation applies.
    pub fn setting(self) -> (setting: Option<Option<T>>)
        ensures
            setting == (match self {
                FieldOverride::Inherit => None::<Option<T>>,
                FieldOverride::Value(value) => Some(Some(value)),
                FieldOverride::Clear => Some(None::<T>),
            }),
    {
        match self {
            FieldOverride::Inherit => None,
            FieldOverride::Value(value) => Some(Some(value)),
            FieldOverride::Clear => Some(None),
        }
    }
}

/// The fields of a row that can be edited. A model's identity is no such field.
#[derive(Debug, Clone, Copy, PartialEq, Eq, PartialOrd, Ord, Structural)]
pub enum ModelField {
    DisplayModel,
    BillingModel,
    Hidden,
    Aliases,
    Description,
    Pricing,
    BillingMode,
    CapabilitySupport,
    InferenceFeatures,
    Family,
    Status,
    ReleaseDate,
    LastUpdated,
    KnowledgeCutoff,
    InputModalities,
    OutputModalities,
    ContextWindowTokens,
    MaxInputTokens,
    MaxOutputTokens,
    OpenWeights,
    Attachments,
    TemperatureControl,
}

/// Every field, in order.
pub open spec fn all_fields() -> Seq<ModelField> {
    seq![
        ModelField::DisplayModel,
        ModelField::BillingModel,
        ModelField::Hidden,
        ModelField::Aliases,
        ModelField::Description,
        ModelField::Pricing,
        ModelField::BillingMode,
        ModelField::CapabilitySupport,
        ModelField::InferenceFeatures,
        ModelField::Family,
        ModelField::Status,
        ModelField::ReleaseDate,
        ModelField::LastUpdated,
        ModelField::KnowledgeCutoff,
        ModelField::InputModalities,
        ModelField::OutputModalities,
        ModelField::ContextWindowTokens,
        ModelField::MaxInputTokens,
        ModelField::MaxOutputTokens,
        ModelField::OpenWeights,
        ModelField::Attachments,
        ModelField::TemperatureControl,
    ]
}

/// The name under which settings carry a field, and the table that holds it.
pub open spec fn field_path(field: ModelField) -> (Seq<char>, Seq<char>) {
    match field {
        ModelField::DisplayModel => ("display_model"@, ""@),
        ModelField::BillingModel => ("billing_model"@, ""@),
        ModelField::Hidden => ("hidden"@, ""@),
        ModelField::Aliases => ("aliases"@, ""@),
        ModelField::Description => ("description"@, ""@),
        ModelField::Pricing => ("pricing"@, ""@),
        ModelField::BillingMode => ("billing_mode"@, ""@),
        ModelField::CapabilitySupport => ("capability_support"@, ""@),
        ModelField::InferenceFeatures => ("features"@, "info"@),
        ModelField::Family => ("family"@, "metadata"@),
        ModelField::Status => ("status"@, "metadata"@),
        ModelField::ReleaseDate => ("releaseDate"@, "metadata"@),
        ModelField::LastUpdated => ("lastUpdated"@, "metadata"@),
        ModelField::KnowledgeCutoff => ("knowledgeCutoff"@, "metadata"@),
        ModelField::InputModalities => ("inputModalities"@, "metadata"@),
        ModelField::OutputModalities => ("outputModalities"@, "metadata"@),
        ModelField::ContextWindowTokens => ("contextWindowTokens"@, "metadata"@),
        ModelField::MaxInputTokens => ("maxInputTokens"@, "metadata"@),
        ModelField::MaxOutputTokens => ("maxOutputTokens"@, "metadata"@),
        ModelField::OpenWeights => ("openWeights"@, "metadata"@),
        ModelField::Attachments => ("attachments"@, "metadata"@),
        ModelField::TemperatureControl => ("temperatureControl"@, "metadata"@),
    }
}

impl ModelField {
    pub fn all() -> (fields: Vec<ModelField>)
        ensures
            fields@ == all_fields(),
    {
        let mut fields: Vec<ModelField> = Vec::new();
        fields.push(ModelField::DisplayModel);
        fields.push(ModelField::BillingModel);
        fields.push(ModelField::Hidden);
        fields.push(ModelField::Aliases);
        fields.push(ModelField::Description);
        fields.push(ModelField::Pricing);
        fields.push(ModelField::BillingMode);
        fields.push(ModelField::CapabilitySupport);
        fields.push(ModelField::InferenceFeatures);
        fields.push(ModelField::Family);
        fields.push(ModelField::Status);
        fields.push(ModelField::ReleaseDate);
        fields.push(ModelField::LastUpdated);
        fields.push(ModelField::KnowledgeCutoff);
        fields.push(ModelField::InputModalities);
        fields.push(ModelField::OutputModalities);
        fields.push(ModelField::ContextWindowTokens);
        fields.push(ModelField::MaxInputTokens);
        fields.push(ModelField::MaxOutputTokens);
        fields.push(ModelField::OpenWeights);
        fields.push(ModelField::Attachments);
        fields.push(ModelField::TemperatureControl);
        assert(fields@ =~= all_fields());
        fields
    }

    pub fn path(self) -> (path: (&'static str, &'static str))
        ensures
            (path.0@, path.1@) == field_path(self),
    {
        match self {
            ModelField::DisplayModel => ("display_model", ""),
            ModelField::BillingModel => ("billing_model", ""),
            ModelField::Hidden => ("hidden", ""),
            ModelField::Aliases => ("aliases", ""),
            ModelField::Description => ("description", ""),
            ModelField::Pricing => ("pricing", ""),
            ModelField::BillingMode => ("billing_mode", ""),
            ModelField::CapabilitySupport => ("capability_support", ""),
            ModelField::InferenceFeatures => ("features", "info"),
            ModelField::Family => ("family", "metadata"),
            ModelField::Status => ("status", "metadata"),
            ModelField::ReleaseDate => ("releaseDate", "metadata"),
            ModelField::LastUpdated => ("lastUpdated", "metadata"),
            ModelField::KnowledgeCutoff => ("knowledgeCutoff", "metadata"),
            ModelField::InputModalities => ("inputModalities", "metadata"),
            ModelField::OutputModalities => ("outputModalities", "metadata"),
            ModelField::ContextWindowTokens => ("contextWindowTokens", "metadata"),
            ModelField::MaxInputTokens => ("maxInputTokens", "metadata"),
            ModelField::MaxOutputTokens => ("maxOutputTokens", "metadata"),
            ModelField::OpenWeights => ("openWeights", "metadata"),
            ModelField::Attachments => ("attachments", "metadata"),
            ModelField::TemperatureControl => ("temperatureControl", "metadata"),
        }
    }
}

/// The explicit values of a row. A field that settings may clear holds nothing
/// where it was cleared.
#[derive(Debug, Clone, PartialEq, Eq)]
pub struct ModelOverrides {
    pub display_model: Option<String>,
    pub billing_model: Option<String>,
    pub hidden: Option<bool>,
    pub aliases: Option<Vec<String>>,
    pub description: Option<Option<String>>,
    pub pricing: Option<Option<Json>>,
    pub billing_mode: Option<Option<String>>,
    pub capability_support: Option<Option<ModelCapabilities>>,
    pub features: Option<InferenceFeatures>,
    pub family: Option<Option<String>>,
    pub status: Option<Option<String>>,
    pub release_date: Option<Option<String>>,
    pub last_updated: Option<Option<String>>,
    pub knowledge_cutoff: Option<Option<String>>,
    pub input_modalities: Option<Vec<String>>,
    pub output_modalities: Option<Vec<String>>,
    pub context_window_tokens: Option<Option<u64>>,
    pub max_input_tokens: Option<Option<u64>>,
    pub max_output_tokens: Option<Option<u64>>,
    pub open_weights: Option<Option<bool>>,
    pub attachments: Option<Option<bool>>,
    pub temperature_control: Option<Option<bool>>,
}

pub struct OverridesView {
    pub display_model: Option<Seq<char>>,
    pub billing_model: Option<Seq<char>>,
    pub hidden: Option<bool>,
    pub aliases: Option<Seq<Seq<char>>>,
    pub description: Option<Option<Seq<char>>>,
    pub pricing: Option<Option<JsonView>>,
    pub billing_mode: Option<Option<Seq<char>>>,
    pub capability_support: Option<Option<ModelCapabilities>>,
    pub features: Option<FeaturesView>,
    pub family: Option<Option<Seq<char>>>,
    pub status: Option<Option<Seq<char>>>,
    pub release_date: Option<Option<Seq<char>>>,
    pub last_updated: Option<Option<Seq<char>>>,
    pub knowledge_cutoff: Option<Option<Seq<char>>>,
    pub input_modalities: Option<Seq<Seq<char>>>,
    pub output_modalities: Option<Seq<Seq<char>>>,
    pub context_window_tokens: Option<Option<u64>>,
    pub max_input_tokens: Option<Option<u64>>,
    pub max_output_tokens: Option<Option<u64>>,
    pub open_weights: Option<Option<bool>>,
    pub attachments: Option<Option<bool>>,
    pub temperature_control: Option<Option<bool>>,
}

impl DeepView for ModelOverrides {
    type V = OverridesView;

    open spec fn deep_view(&self) -> OverridesView {
        OverridesView {
            display_model: self.display_model.deep_view(),
            billing_model: self.billing_model.deep_view(),
            hidden: self.hidden.deep_view(),
            aliases: self.aliases.deep_view(),
            description: self.description.deep_view(),
            pricing: self.pricing.deep_view(),
            billing_mode: self.billing_mode.deep_view(),
            capability_support: self.capability_support.deep_view(),
            features: self.features.deep_view(),
            family: self.family.deep_view(),
            status: self.status.deep_view(),
            release_date: self.release_date.deep_view(),
            last_updated: self.last_updated.deep_view(),
            knowledge_cutoff: self.knowledge_cutoff.deep_view(),
            input_modalities: self.input_modalities.deep_view(),
            output_modalities: self.output_modalities.deep_view(),
            context_window_tokens: self.context_window_tokens.deep_view(),
            max_input_tokens: self.max_input_tokens.deep_view(),
            max_output_tokens: self.max_output_tokens.deep_view(),
            open_weights: self.open_weights.deep_view(),
            attachments: self.attachments.deep_view(),
            temperature_control: self.temperature_control.deep_view(),
        }
    }
}

impl Content for ModelOverrides {
    open spec fn alike(a: OverridesView, b: OverridesView) -> bool {
        &&& <Option<String> as Content>::alike(a.display_model, b.display_model)
        &&& <Option<String> as Content>::alike(a.billing_model, b.billing_model)
        &&& <Option<bool> as Content>::alike(a.hidden, b.hidden)
        &&& <Option<Vec<String>> as Content>::alike(a.aliases, b.aliases)
        &&& <Option<Option<String>> as Content>::alike(a.description, b.description)
        &&& <Option<Option<Json>> as Content>::alike(a.pricing, b.pricing)
        &&& <Option<Option<String>> as Content>::alike(a.billing_mode, b.billing_mode)
        &&& <Option<Option<ModelCapabilities>> as Content>::alike(a.capability_support, b.capability_support)
        &&& <Option<InferenceFeatures> as Content>::alike(a.features, b.features)
        &&& <Option<Option<String>> as Content>::alike(a.family, b.family)
        &&& <Option<Option<String>> as Content>::alike(a.status, b.status)
        &&& <Option<Option<String>> as Content>::alike(a.release_date, b.release_date)
        &&& <Option<Option<String>> as Content>::alike(a.last_updated, b.last_updated)
        &&& <Option<Option<String>> as Content>::alike(a.knowledge_cutoff, b.knowledge_cutoff)
        &&& <Option<Vec<String>> as Content>::alike(a.input_modalities, b.input_modalities)
        &&& <Option<Vec<String>> as Content>::alike(a.output_modalities, b.output_modalities)
        &&& <Option<Option<u64>> as Content>::alike(a.context_window_tokens, b.context_window_tokens)
        &&& <Option<Option<u64>> as Content>::alike(a.max_input_tokens, b.max_input_tokens)
        &&& <Option<Option<u64>> as Content>::alike(a.max_output_tokens, b.max_output_tokens)
        &&& <Option<Option<bool>> as Content>::alike(a.open_weights, b.open_weights)
        &&& <Option<Option<bool>> as Content>::alike(a.attachments, b.attachments)
        &&& <Option<Option<bool>> as Content>::alike(a.temperature_control, b.temperature_control)
    }

    proof fn alike_itself(a: OverridesView) {
        <Option<String> as Content>::alike_itself(a.display_model);
        <Option<String> as Content>::alike_itself(a.billing_model);
        <Option<bool> as Content>::alike_itself(a.hidden);
        <Option<Vec<String>> as Content>::alike_itself(a.aliases);
        <Option<Option<String>> as Content>::alike_itself(a.description);
        <Option<Option<Json>> as Content>::alike_itself(a.pricing);
        <Option<Option<String>> as Content>::alike_itself(a.billing_mode);
        <Option<Option<ModelCapabilities>> as Content>::alike_itself(a.capability_support);
        <Option<InferenceFeatures> as Content>::alike_itself(a.features);
        <Option<Option<String>> as Content>::alike_itself(a.family);
        <Option<Option<String>> as Content>::alike_itself(a.status);
        <Option<Option<String>> as Content>::alike_itself(a.release_date);
        <Option<Option<String>> as Content>::alike_itself(a.last_updated);
        <Option<Option<String>> as Content>::alike_itself(a.knowledge_cutoff);
        <Option<Vec<String>> as Content>::alike_itself(a.input_modalities);
        <Option<Vec<String>> as Content>::alike_itself(a.output_modalities);
        <Option<Option<u64>> as Content>::alike_itself(a.context_window_tokens);
        <Option<Option<u64>> as Content>::alike_itself(a.max_input_tokens);
        <Option<Option<u64>> as Content>::alike_itself(a.max_output_tokens);
        <Option<Option<bool>> as Content>::alike_itself(a.open_weights);
        <Option<Option<bool>> as Content>::alike_itself(a.attachments);
        <Option<Option<bool>> as Content>::alike_itself(a.temperature_control);
    }

    proof fn alike_both_ways(a: OverridesView, b: OverridesView) {
        <Option<String> as Content>::alike_both_ways(a.display_model, b.display_model);
        <Option<String> as Content>::alike_both_ways(a.billing_model, b.billing_model);
        <Option<bool> as Content>::alike_both_ways(a.hidden, b.hidden);
        <Option<Vec<String>> as Content>::alike_both_ways(a.aliases, b.aliases);
        <Option<Option<String>> as Content>::alike_both_ways(a.description, b.description);
        <Option<Option<Json>> as Content>::alike_both_ways(a.pricing, b.pricing);
        <Option<Option<String>> as Content>::alike_both_ways(a.billing_mode, b.billing_mode);
        <Option<Option<ModelCapabilities>> as Content>::alike_both_ways(a.capability_support, b.capability_support);
        <Option<InferenceFeatures> as Content>::alike_both_ways(a.features, b.features);
        <Option<Option<String>> as Content>::alike_both_ways(a.family, b.family);
        <Option<Option<String>> as Content>::alike_both_ways(a.status, b.status);
        <Option<Option<String>> as Content>::alike_both_ways(a.release_date, b.release_date);
        <Option<Option<String>> as Content>::alike_both_ways(a.last_updated, b.last_updated);
        <Option<Option<String>> as Content>::alike_both_ways(a.knowledge_cutoff, b.knowledge_cutoff);
        <Option<Vec<String>> as Content>::alike_both_ways(a.input_modalities, b.input_modalities);
        <Option<Vec<String>> as Content>::alike_both_ways(a.output_modalities, b.output_modalities);
        <Option<Option<u64>> as Content>::alike_both_ways(a.context_window_tokens, b.context_window_tokens);
        <Option<Option<u64>> as Content>::alike_both_ways(a.max_input_tokens, b.max_input_tokens);
        <Option<Option<u64>> as Content>::alike_both_ways(a.max_output_tokens, b.max_output_tokens);
        <Option<Option<bool>> as Content>::alike_both_ways(a.open_weights, b.open_weights);
        <Option<Option<bool>> as Content>::alike_both_ways(a.attachments, b.attachments);
        <Option<Option<bool>> as Content>::alike_both_ways(a.temperature_control, b.temperature_control);
    }

    fn duplicate(&self) -> (copy: Self) {
        ModelOverrides {
            display_model: self.display_model.duplicate(),
            billing_model: self.billing_model.duplicate(),
            hidden: self.hidden.duplicate(),
            aliases: self.aliases.duplicate(),
            description: self.description.duplicate(),
            pricing: self.pricing.duplicate(),
            billing_mode: self.billing_mode.duplicate(),
            capability_support: self.capability_support.duplicate(),
            features: self.features.duplicate(),
            family: self.family.duplicate(),
            status: self.status.duplicate(),
            release_date: self.release_date.duplicate(),
            last_updated: self.last_updated.duplicate(),
            knowledge_cutoff: self.knowledge_cutoff.duplicate(),
            input_modalities: self.input_modalities.duplicate(),
            output_modalities: self.output_modalities.duplicate(),
            context_window_tokens: self.context_window_tokens.duplicate(),
            max_input_tokens: self.max_input_tokens.duplicate(),
            max_output_tokens: self.max_output_tokens.duplicate(),
            open_weights: self.open_weights.duplicate(),
            attachments: self.attachments.duplicate(),
            temperature_control: self.temperature_control.duplicate(),
        }
    }

    fn same_content(&self, other: &Self) -> (result: bool) {
        self.display_model.same_content(&other.display_model)
            && self.billing_model.same_content(&other.billing_model)
            && self.hidden.same_content(&other.hidden)
            && self.aliases.same_content(&other.aliases)
            && self.description.same_content(&other.description)
            && self.pricing.same_content(&other.pricing)
            && self.billing_mode.same_content(&other.billing_mode)
            && self.capability_support.same_content(&other.capability_support)
            && self.features.same_content(&other.features)
            && self.family.same_content(&other.family)
            && self.status.same_content(&other.status)
            && self.release_date.same_content(&other.release_date)
            && self.last_updated.same_content(&other.last_updated)
            && self.knowledge_cutoff.same_content(&other.knowledge_cutoff)
            && self.input_modalities.same_content(&other.input_modalities)
            && self.output_modalities.same_content(&other.output_modalities)
            && self.context_window_tokens.same_content(&other.context_window_tokens)
            && self.max_input_tokens.same_content(&other.max_input_tokens)
            && self.max_output_tokens.same_content(&other.max_output_tokens)
            && self.open_weights.same_content(&other.open_weights)
            && self.attachments.same_content(&other.attachments)
            && self.temperature_control.same_content(&other.temperature_control)
    }
}

/// No explicit value.
pub open spec fn no_overrides() -> OverridesView {
    OverridesView {
        display_model: None,
        billing_model: None,
        hidden: None,
        aliases: None,
        description: None,
        pricing: None,
        billing_mode: None,
        capability_support: None,
        features: None,
        family: None,
        status: None,
        release_date: None,
        last_updated: None,
        knowledge_cutoff: None,
        input_modalities: None,
        output_modalities: None,
        context_window_tokens: None,
        max_input_tokens: None,
        max_output_tokens: None,
        open_weights: None,
        attachments: None,
        temperature_control: None,
    }
}

impl Default for ModelOverrides {
    fn default() -> (result: Self)
        ensures
            result.deep_view() == no_overrides(),
    {
        ModelOverrides {
            display_model: None,
            billing_model: None,
            hidden: None,
            aliases: None,
            description: None,
            pricing: None,
            billing_mode: None,
            capability_support: None,
            features: None,
            family: None,
            status: None,
            release_date: None,
            last_updated: None,
            knowledge_cutoff: None,
            input_modalities: None,
            output_modalities: None,
            context_window_tokens: None,
            max_input_tokens: None,
            max_output_tokens: None,
            open_weights: None,
            attachments: None,
            temperature_control: None,
        }
    }
}

/// The value, unless another is set.
pub open spec fn chosen<T>(value: T, setting: Option<T>) -> T {
    match setting {
        Some(set) => set,
        None => value,
    }
}

fn choice<T: Content>(value: &T, setting: &Option<T>) -> (result: T)
    ensures
        result.deep_view() == chosen(value.deep_view(), setting.deep_view()),
{
    match setting {
        Some(set) => set.duplicate(),
        None => value.duplicate(),
    }
}

/// The catalog's facts with the explicit values of a row.
pub open spec fn applied_metadata(metadata: MetadataView, fields: OverridesView) -> MetadataView {
    MetadataView {
        family: chosen(metadata.family, fields.family),
        status: chosen(metadata.status, fields.status),
        release_date: chosen(metadata.release_date, fields.release_date),
        last_updated: chosen(metadata.last_updated, fields.last_updated),
        knowledge_cutoff: chosen(metadata.knowledge_cutoff, fields.knowledge_cutoff),
        input_modalities: chosen(metadata.input_modalities, fields.input_modalities),
        output_modalities: chosen(metadata.output_modalities, fields.output_modalities),
        context_window_tokens: chosen(metadata.context_window_tokens, fields.context_window_tokens),
        max_input_tokens: chosen(metadata.max_input_tokens, fields.max_input_tokens),
        max_output_tokens: chosen(metadata.max_output_tokens, fields.max_output_tokens),
        open_weights: chosen(metadata.open_weights, fields.open_weights),
        attachments: chosen(metadata.attachments, fields.attachments),
        temperature_control: chosen(metadata.temperature_control, fields.temperature_control),
    }
}

/// A model with the explicit values of a row.
pub open spec fn applied(model: ModelView, fields: OverridesView) -> ModelView {
    ModelView {
        display_model: chosen(model.display_model, fields.display_model),
        billing_model: chosen(model.billing_model, fields.billing_model),
        hidden: chosen(model.hidden, fields.hidden),
        aliases: chosen(model.aliases, fields.aliases),
        description: chosen(model.description, fields.description),
        pricing: chosen(model.pricing, fields.pricing),
        billing_mode: chosen(model.billing_mode, fields.billing_mode),
        capability_support: chosen(model.capability_support, fields.capability_support),
        features: chosen(model.features, fields.features),
        metadata: applied_metadata(model.metadata, fields),
        ..model
    }
}

fn apply_metadata(metadata: &ModelMetadata, fields: &ModelOverrides) -> (result: ModelMetadata)
    ensures
        result.deep_view() == applied_metadata(metadata.deep_view(), fields.deep_view()),
{
    ModelMetadata {
        family: choice(&metadata.family, &fields.family),
        status: choice(&metadata.status, &fields.status),
        release_date: choice(&metadata.release_date, &fields.release_date),
        last_updated: choice(&metadata.last_updated, &fields.last_updated),
        knowledge_cutoff: choice(&metadata.knowledge_cutoff, &fields.knowledge_cutoff),
        input_modalities: choice(&metadata.input_modalities, &fields.input_modalities),
        output_modalities: choice(&metadata.output_modalities, &fields.output_modalities),
        context_window_tokens: choice(&metadata.context_window_tokens, &fields.context_window_tokens),
        max_input_tokens: choice(&metadata.max_input_tokens, &fields.max_input_tokens),
        max_output_tokens: choice(&metadata.max_output_tokens, &fields.max_output_tokens),
        open_weights: choice(&metadata.open_weights, &fields.open_weights),
        attachments: choice(&metadata.attachments, &fields.attachments),
        temperature_control: choice(&metadata.temperature_control, &fields.temperature_control),
    }
}

/// The model with the explicit values of a row.
pub fn apply(model: &ModelProfile, fields: &ModelOverrides) -> (result: ModelProfile)
    ensures
        result.deep_view() == applied(model.deep_view(), fields.deep_view()),
{
    ModelProfile {
        display_model: choice(&model.display_model, &fields.display_model),
        request_model: model.request_model.duplicate(),
        billing_model: choice(&model.billing_model, &fields.billing_model),
        hidden: choice(&model.hidden, &fields.hidden),
        aliases: choice(&model.aliases, &fields.aliases),
        description: choice(&model.description, &fields.description),
        metadata: apply_metadata(&model.metadata, fields),
        pricing: choice(&model.pricing, &fields.pricing),
        billing_mode: choice(&model.billing_mode, &fields.billing_mode),
        capability_support: choice(&model.capability_support, &fields.capability_support),
        features: choice(&model.features, &fields.features),
    }
}

/// Every editable field of a model, as an explicit value.
pub open spec fn every_value(model: ModelView) -> OverridesView {
    OverridesView {
        display_model: Some(model.display_model),
        billing_model: Some(model.billing_model),
        hidden: Some(model.hidden),
        aliases: Some(model.aliases),
        description: Some(model.description),
        pricing: Some(model.pricing),
        billing_mode: Some(model.billing_mode),
        capability_support: Some(model.capability_support),
        features: Some(model.features),
        family: Some(model.metadata.family),
        status: Some(model.metadata.status),
        release_date: Some(model.metadata.release_date),
        last_updated: Some(model.metadata.last_updated),
        knowledge_cutoff: Some(model.metadata.knowledge_cutoff),
        input_modalities: Some(model.metadata.input_modalities),
        output_modalities: Some(model.metadata.output_modalities),
        context_window_tokens: Some(model.metadata.context_window_tokens),
        max_input_tokens: Some(model.metadata.max_input_tokens),
        max_output_tokens: Some(model.metadata.max_output_tokens),
        open_weights: Some(model.metadata.open_weights),
        attachments: Some(model.metadata.attachments),
        temperature_control: Some(model.metadata.temperature_control),
    }
}

pub fn values(model: &ModelProfile) -> (fields: ModelOverrides)
    ensures
        fields.deep_view() == every_value(model.deep_view()),
{
    ModelOverrides {
        display_model: Some(model.display_model.duplicate()),
        billing_model: Some(model.billing_model.duplicate()),
        hidden: Some(model.hidden.duplicate()),
        aliases: Some(model.aliases.duplicate()),
        description: Some(model.description.duplicate()),
        pricing: Some(model.pricing.duplicate()),
        billing_mode: Some(model.billing_mode.duplicate()),
        capability_support: Some(model.capability_support.duplicate()),
        features: Some(model.features.duplicate()),
        family: Some(model.metadata.family.duplicate()),
        status: Some(model.metadata.status.duplicate()),
        release_date: Some(model.metadata.release_date.duplicate()),
        last_updated: Some(model.metadata.last_updated.duplicate()),
        knowledge_cutoff: Some(model.metadata.knowledge_cutoff.duplicate()),
        input_modalities: Some(model.metadata.input_modalities.duplicate()),
        output_modalities: Some(model.metadata.output_modalities.duplicate()),
        context_window_tokens: Some(model.metadata.context_window_tokens.duplicate()),
        max_input_tokens: Some(model.metadata.max_input_tokens.duplicate()),
        max_output_tokens: Some(model.metadata.max_output_tokens.duplicate()),
        open_weights: Some(model.metadata.open_weights.duplicate()),
        attachments: Some(model.metadata.attachments.duplicate()),
        temperature_control: Some(model.metadata.temperature_control.duplicate()),
    }
}

/// A row that sets every value of a model shows that model, whatever it is laid
/// over, but for the name on the wire, which is no editable field.
pub proof fn every_value_shows_the_model(base: ModelView, model: ModelView)
    ensures
        applied(base, every_value(model)) == (ModelView {
            request_model: base.request_model,
            ..model
        }),
{
}

/// A row that sets nothing shows its base.
pub proof fn no_value_shows_the_base(base: ModelView)
    ensures
        applied(base, no_overrides()) == base,
{
}

/// What a default row is: what it asks of the wire, its label, and which of the
/// rows with both it is.
#[derive(Debug, Clone, PartialEq, Eq)]
pub struct ModelKey {
    pub wire: String,
    pub label: String,
    pub occurrence: usize,
}

pub struct KeyView {
    pub wire: Seq<char>,
    pub label: Seq<char>,
    pub occurrence: usize,
}

impl DeepView for ModelKey {
    type V = KeyView;

    open spec fn deep_view(&self) -> KeyView {
        KeyView {
            wire: self.wire.deep_view(),
            label: self.label.deep_view(),
            occurrence: self.occurrence.deep_view(),
        }
    }
}

impl Content for ModelKey {
    open spec fn alike(a: KeyView, b: KeyView) -> bool {
        &&& <String as Content>::alike(a.wire, b.wire)
        &&& <String as Content>::alike(a.label, b.label)
        &&& <usize as Content>::alike(a.occurrence, b.occurrence)
    }

    proof fn alike_itself(a: KeyView) {
        <String as Content>::alike_itself(a.wire);
        <String as Content>::alike_itself(a.label);
        <usize as Content>::alike_itself(a.occurrence);
    }

    proof fn alike_both_ways(a: KeyView, b: KeyView) {
        <String as Content>::alike_both_ways(a.wire, b.wire);
        <String as Content>::alike_both_ways(a.label, b.label);
        <usize as Content>::alike_both_ways(a.occurrence, b.occurrence);
    }

    fn duplicate(&self) -> (copy: Self) {
        ModelKey {
            wire: self.wire.duplicate(),
            label: self.label.duplicate(),
            occurrence: self.occurrence.duplicate(),
        }
    }

    fn same_content(&self, other: &Self) -> (result: bool) {
        self.wire.same_content(&other.wire)
            && self.label.same_content(&other.label)
            && self.occurrence.same_content(&other.occurrence)
    }
}

/// One row of an account.
#[derive(Debug, Clone, PartialEq, Eq)]
pub struct ModelRow {
    pub id: String,
    /// The row of the default catalog; one that left it is not brought back from
    /// the fallback.
    pub definition_key: Option<ModelKey>,
    /// What an added or observed row starts from.
    pub initial: Option<ModelProfile>,
    pub replacement: bool,
    pub observed: bool,
    pub overrides: ModelOverrides,
}

pub struct RowView {
    pub id: Seq<char>,
    pub definition_key: Option<KeyView>,
    pub initial: Option<ModelView>,
    pub replacement: bool,
    pub observed: bool,
    pub overrides: OverridesView,
}

impl DeepView for ModelRow {
    type V = RowView;

    open spec fn deep_view(&self) -> RowView {
        RowView {
            id: self.id.deep_view(),
            definition_key: self.definition_key.deep_view(),
            initial: self.initial.deep_view(),
            replacement: self.replacement.deep_view(),
            observed: self.observed.deep_view(),
            overrides: self.overrides.deep_view(),
        }
    }
}

impl Content for ModelRow {
    open spec fn alike(a: RowView, b: RowView) -> bool {
        &&& <String as Content>::alike(a.id, b.id)
        &&& <Option<ModelKey> as Content>::alike(a.definition_key, b.definition_key)
        &&& <Option<ModelProfile> as Content>::alike(a.initial, b.initial)
        &&& <bool as Content>::alike(a.replacement, b.replacement)
        &&& <bool as Content>::alike(a.observed, b.observed)
        &&& <ModelOverrides as Content>::alike(a.overrides, b.overrides)
    }

    proof fn alike_itself(a: RowView) {
        <String as Content>::alike_itself(a.id);
        <Option<ModelKey> as Content>::alike_itself(a.definition_key);
        <Option<ModelProfile> as Content>::alike_itself(a.initial);
        <bool as Content>::alike_itself(a.replacement);
        <bool as Content>::alike_itself(a.observed);
        <ModelOverrides as Content>::alike_itself(a.overrides);
    }

    proof fn alike_both_ways(a: RowView, b: RowView) {
        <String as Content>::alike_both_ways(a.id, b.id);
        <Option<ModelKey> as Content>::alike_both_ways(a.definition_key, b.definition_key);
        <Option<ModelProfile> as Content>::alike_both_ways(a.initial, b.initial);
        <bool as Content>::alike_both_ways(a.replacement, b.replacement);
        <bool as Content>::alike_both_ways(a.observed, b.observed);
        <ModelOverrides as Content>::alike_both_ways(a.overrides, b.overrides);
    }

    fn duplicate(&self) -> (copy: Self) {
        ModelRow {
            id: self.id.duplicate(),
            definition_key: self.definition_key.duplicate(),
            initial: self.initial.duplicate(),
            replacement: self.replacement.duplicate(),
            observed: self.observed.duplicate(),
            overrides: self.overrides.duplicate(),
        }
    }

    fn same_content(&self, other: &Self) -> (result: bool) {
        self.id.same_content(&other.id)
            && self.definition_key.same_content(&other.definition_key)
            && self.initial.same_content(&other.initial)
            && self.replacement.same_content(&other.replacement)
            && self.observed.same_content(&other.observed)
            && self.overrides.same_content(&other.overrides)
    }
}

/// What a directory said of a model.
#[derive(Debug, Clone, PartialEq, Eq)]
pub struct Observation {
    pub description: Option<String>,
    pub context_window: Option<u64>,
    pub max_output_tokens: Option<u64>,
    pub inference_features: Option<InferenceFeatures>,
}

pub struct ObservationView {
    pub description: Option<Seq<char>>,
    pub context_window: Option<u64>,
    pub max_output_tokens: Option<u64>,
    pub inference_features: Option<FeaturesView>,
}

impl DeepView for Observation {
    type V = ObservationView;

    open spec fn deep_view(&self) -> ObservationView {
        ObservationView {
            description: self.description.deep_view(),
            context_window: self.context_window.deep_view(),
            max_output_tokens: self.max_output_tokens.deep_view(),
            inference_features: self.inference_features.deep_view(),
        }
    }
}

impl Content for Observation {
    open spec fn alike(a: ObservationView, b: ObservationView) -> bool {
        &&& <Option<String> as Content>::alike(a.description, b.description)
        &&& <Option<u64> as Content>::alike(a.context_window, b.context_window)
        &&& <Option<u64> as Content>::alike(a.max_output_tokens, b.max_output_tokens)
        &&& <Option<InferenceFeatures> as Content>::alike(a.inference_features, b.inference_features)
    }

    proof fn alike_itself(a: ObservationView) {
        <Option<String> as Content>::alike_itself(a.description);
        <Option<u64> as Content>::alike_itself(a.context_window);
        <Option<u64> as Content>::alike_itself(a.max_output_tokens);
        <Option<InferenceFeatures> as Content>::alike_itself(a.inference_features);
    }

    proof fn alike_both_ways(a: ObservationView, b: ObservationView) {
        <Option<String> as Content>::alike_both_ways(a.description, b.description);
        <Option<u64> as Content>::alike_both_ways(a.context_window, b.context_window);
        <Option<u64> as Content>::alike_both_ways(a.max_output_tokens, b.max_output_tokens);
        <Option<InferenceFeatures> as Content>::alike_both_ways(a.inference_features, b.inference_features);
    }

    fn duplicate(&self) -> (copy: Self) {
        Observation {
            description: self.description.duplicate(),
            context_window: self.context_window.duplicate(),
            max_output_tokens: self.max_output_tokens.duplicate(),
            inference_features: self.inference_features.duplicate(),
        }
    }

    fn same_content(&self, other: &Self) -> (result: bool) {
        self.description.same_content(&other.description)
            && self.context_window.same_content(&other.context_window)
            && self.max_output_tokens.same_content(&other.max_output_tokens)
            && self.inference_features.same_content(&other.inference_features)
    }
}

/// Nothing said.
pub open spec fn no_observation() -> ObservationView {
    ObservationView {
        description: None,
        context_window: None,
        max_output_tokens: None,
        inference_features: None,
    }
}

impl Default for Observation {
    fn default() -> (result: Self)
        ensures
            result.deep_view() == no_observation(),
    {
        Observation {
            description: None,
            context_window: None,
            max_output_tokens: None,
            inference_features: None,
        }
    }
}

/// An account as it is saved.
#[derive(Debug, Clone, PartialEq, Eq)]
pub struct SavedProfile {
    pub definition: DefinitionRef,
    /// The account's connection, without model rows.
    pub connection: ProviderProfile,
    /// Used only where the definition as a whole is not there.
    pub fallback: ProviderProfile,
    pub replace_models: bool,
    pub removed_defaults: Vec<ModelKey>,
    pub models: Vec<ModelRow>,
    /// What was observed, by the name on the wire, in ascending order.
    pub observations: Vec<(String, Observation)>,
    /// The models that do not serve the wire, in ascending order.
    pub incompatible_models: Vec<String>,
}

pub struct SavedView {
    pub definition: DefinitionRefView,
    pub connection: ProviderView,
    pub fallback: ProviderView,
    pub replace_models: bool,
    pub removed_defaults: Seq<KeyView>,
    pub models: Seq<RowView>,
    pub observations: Seq<(Seq<char>, ObservationView)>,
    pub incompatible_models: Seq<Seq<char>>,
}

impl DeepView for SavedProfile {
    type V = SavedView;

    open spec fn deep_view(&self) -> SavedView {
        SavedView {
            definition: self.definition.deep_view(),
            connection: self.connection.deep_view(),
            fallback: self.fallback.deep_view(),
            replace_models: self.replace_models.deep_view(),
            removed_defaults: self.removed_defaults.deep_view(),
            models: self.models.deep_view(),
            observations: self.observations.deep_view(),
            incompatible_models: self.incompatible_models.deep_view(),
        }
    }
}

impl Content for SavedProfile {
    open spec fn alike(a: SavedView, b: SavedView) -> bool {
        &&& <DefinitionRef as Content>::alike(a.definition, b.definition)
        &&& <ProviderProfile as Content>::alike(a.connection, b.connection)
        &&& <ProviderProfile as Content>::alike(a.fallback, b.fallback)
        &&& <bool as Content>::alike(a.replace_models, b.replace_models)
        &&& <Vec<ModelKey> as Content>::alike(a.removed_defaults, b.removed_defaults)
        &&& <Vec<ModelRow> as Content>::alike(a.models, b.models)
        &&& <Vec<(String, Observation)> as Content>::alike(a.observations, b.observations)
        &&& <Vec<String> as Content>::alike(a.incompatible_models, b.incompatible_models)
    }

    proof fn alike_itself(a: SavedView) {
        <DefinitionRef as Content>::alike_itself(a.definition);
        <ProviderProfile as Content>::alike_itself(a.connection);
        <ProviderProfile as Content>::alike_itself(a.fallback);
        <bool as Content>::alike_itself(a.replace_models);
        <Vec<ModelKey> as Content>::alike_itself(a.removed_defaults);
        <Vec<ModelRow> as Content>::alike_itself(a.models);
        <Vec<(String, Observation)> as Content>::alike_itself(a.observations);
        <Vec<String> as Content>::alike_itself(a.incompatible_models);
    }

    proof fn alike_both_ways(a: SavedView, b: SavedView) {
        <DefinitionRef as Content>::alike_both_ways(a.definition, b.definition);
        <ProviderProfile as Content>::alike_both_ways(a.connection, b.connection);
        <ProviderProfile as Content>::alike_both_ways(a.fallback, b.fallback);
        <bool as Content>::alike_both_ways(a.replace_models, b.replace_models);
        <Vec<ModelKey> as Content>::alike_both_ways(a.removed_defaults, b.removed_defaults);
        <Vec<ModelRow> as Content>::alike_both_ways(a.models, b.models);
        <Vec<(String, Observation)> as Content>::alike_both_ways(a.observations, b.observations);
        <Vec<String> as Content>::alike_both_ways(a.incompatible_models, b.incompatible_models);
    }

    fn duplicate(&self) -> (copy: Self) {
        SavedProfile {
            definition: self.definition.duplicate(),
            connection: self.connection.duplicate(),
            fallback: self.fallback.duplicate(),
            replace_models: self.replace_models.duplicate(),
            removed_defaults: self.removed_defaults.duplicate(),
            models: self.models.duplicate(),
            observations: self.observations.duplicate(),
            incompatible_models: self.incompatible_models.duplicate(),
        }
    }

    fn same_content(&self, other: &Self) -> (result: bool) {
        self.definition.same_content(&other.definition)
            && self.connection.same_content(&other.connection)
            && self.fallback.same_content(&other.fallback)
            && self.replace_models.same_content(&other.replace_models)
            && self.removed_defaults.same_content(&other.removed_defaults)
            && self.models.same_content(&other.models)
            && self.observations.same_content(&other.observations)
            && self.incompatible_models.same_content(&other.incompatible_models)
    }
}

/// A configuration as it is saved.
#[derive(Debug, Clone, PartialEq, Eq)]
pub struct SavedConfig {
    pub version: u32,
    /// The tracked models by provider, both in ascending order.
    pub tracked_models: Vec<(String, Vec<String>)>,
    /// The deleted profiles, in ascending order.
    pub deleted_profiles: Vec<String>,
    pub providers: Vec<SavedProfile>,
}

pub struct ConfigView {
    pub version: u32,
    pub tracked_models: Seq<(Seq<char>, Seq<Seq<char>>)>,
    pub deleted_profiles: Seq<Seq<char>>,
    pub providers: Seq<SavedView>,
}

impl DeepView for SavedConfig {
    type V = ConfigView;

    open spec fn deep_view(&self) -> ConfigView {
        ConfigView {
            version: self.version.deep_view(),
            tracked_models: self.tracked_models.deep_view(),
            deleted_profiles: self.deleted_profiles.deep_view(),
            providers: self.providers.deep_view(),
        }
    }
}

impl Content for SavedConfig {
    open spec fn alike(a: ConfigView, b: ConfigView) -> bool {
        &&& <u32 as Content>::alike(a.version, b.version)
        &&& <Vec<(String, Vec<String>)> as Content>::alike(a.tracked_models, b.tracked_models)
        &&& <Vec<String> as Content>::alike(a.deleted_profiles, b.deleted_profiles)
        &&& <Vec<SavedProfile> as Content>::alike(a.providers, b.providers)
    }

    proof fn alike_itself(a: ConfigView) {
        <u32 as Content>::alike_itself(a.version);
        <Vec<(String, Vec<String>)> as Content>::alike_itself(a.tracked_models);
        <Vec<String> as Content>::alike_itself(a.deleted_profiles);
        <Vec<SavedProfile> as Content>::alike_itself(a.providers);
    }

    proof fn alike_both_ways(a: ConfigView, b: ConfigView) {
        <u32 as Content>::alike_both_ways(a.version, b.version);
        <Vec<(String, Vec<String>)> as Content>::alike_both_ways(a.tracked_models, b.tracked_models);
        <Vec<String> as Content>::alike_both_ways(a.deleted_profiles, b.deleted_profiles);
        <Vec<SavedProfile> as Content>::alike_both_ways(a.providers, b.providers);
    }

    fn duplicate(&self) -> (copy: Self) {
        SavedConfig {
            version: self.version.duplicate(),
            tracked_models: self.tracked_models.duplicate(),
            deleted_profiles: self.deleted_profiles.duplicate(),
            providers: self.providers.duplicate(),
        }
    }

    fn same_content(&self, other: &Self) -> (result: bool) {
        self.version.same_content(&other.version)
            && self.tracked_models.same_content(&other.tracked_models)
            && self.deleted_profiles.same_content(&other.deleted_profiles)
            && self.providers.same_content(&other.providers)
    }
}

/// The version that is written.
pub const CONFIG_VERSION: u32 = 2;

/// A configuration with nothing in it.
pub open spec fn no_config() -> ConfigView {
    ConfigView {
        version: CONFIG_VERSION,
        tracked_models: Seq::empty(),
        deleted_profiles: Seq::empty(),
        providers: Seq::empty(),
    }
}

impl Default for SavedConfig {
    fn default() -> (result: Self)
        ensures
            result.deep_view() == no_config(),
    {
        let result = SavedConfig {
            version: CONFIG_VERSION,
            tracked_models: Vec::new(),
            deleted_profiles: Vec::new(),
            providers: Vec::new(),
        };
        assert(result.deep_view() == no_config());
        result
    }
}

/// A row of a connection, with what is known of a model that does not serve it now.
#[derive(Debug, Clone, PartialEq, Eq)]
pub struct ConfiguredModel {
    pub row_id: String,
    pub model: ModelProfile,
    pub compatible: bool,
}

pub struct ConfiguredView {
    pub row_id: Seq<char>,
    pub model: ModelView,
    pub compatible: bool,
}

impl DeepView for ConfiguredModel {
    type V = ConfiguredView;

    open spec fn deep_view(&self) -> ConfiguredView {
        ConfiguredView {
            row_id: self.row_id.deep_view(),
            model: self.model.deep_view(),
            compatible: self.compatible.deep_view(),
        }
    }
}

impl Content for ConfiguredModel {
    open spec fn alike(a: ConfiguredView, b: ConfiguredView) -> bool {
        &&& <String as Content>::alike(a.row_id, b.row_id)
        &&& <ModelProfile as Content>::alike(a.model, b.model)
        &&& <bool as Content>::alike(a.compatible, b.compatible)
    }

    proof fn alike_itself(a: ConfiguredView) {
        <String as Content>::alike_itself(a.row_id);
        <ModelProfile as Content>::alike_itself(a.model);
        <bool as Content>::alike_itself(a.compatible);
    }

    proof fn alike_both_ways(a: ConfiguredView, b: ConfiguredView) {
        <String as Content>::alike_both_ways(a.row_id, b.row_id);
        <ModelProfile as Content>::alike_both_ways(a.model, b.model);
        <bool as Content>::alike_both_ways(a.compatible, b.compatible);
    }

    fn duplicate(&self) -> (copy: Self) {
        ConfiguredModel {
            row_id: self.row_id.duplicate(),
            model: self.model.duplicate(),
            compatible: self.compatible.duplicate(),
        }
    }

    fn same_content(&self, other: &Self) -> (result: bool) {
        self.row_id.same_content(&other.row_id)
            && self.model.same_content(&other.model)
            && self.compatible.same_content(&other.compatible)
    }
}

/// No facts.
pub open spec fn no_metadata() -> MetadataView {
    MetadataView {
        family: None,
        status: None,
        release_date: None,
        last_updated: None,
        knowledge_cutoff: None,
        input_modalities: Seq::empty(),
        output_modalities: Seq::empty(),
        context_window_tokens: None,
        max_input_tokens: None,
        max_output_tokens: None,
        open_weights: None,
        attachments: None,
        temperature_control: None,
    }
}

fn empty_metadata() -> (metadata: ModelMetadata)
    ensures
        metadata.deep_view() == no_metadata(),
{
    let metadata = ModelMetadata {
        family: None,
        status: None,
        release_date: None,
        last_updated: None,
        knowledge_cutoff: None,
        input_modalities: Vec::new(),
        output_modalities: Vec::new(),
        context_window_tokens: None,
        max_input_tokens: None,
        max_output_tokens: None,
        open_weights: None,
        attachments: None,
        temperature_control: None,
    };
    assert(metadata.deep_view() == no_metadata());
    metadata
}

/// A model of which only its name on the wire is known.
pub open spec fn bare_model(wire: Seq<char>) -> ModelView {
    ModelView {
        display_model: wire,
        request_model: wire,
        billing_model: wire,
        hidden: false,
        aliases: Seq::empty(),
        description: None,
        metadata: no_metadata(),
        pricing: None,
        billing_mode: None,
        capability_support: None,
        features: features::no_features(),
    }
}

pub fn empty_model(wire: &str) -> (model: ModelProfile)
    ensures
        model.deep_view() == bare_model(wire@),
{
    let model = ModelProfile {
        display_model: wire.to_owned(),
        request_model: wire.to_owned(),
        billing_model: wire.to_owned(),
        hidden: false,
        aliases: Vec::new(),
        description: None,
        metadata: empty_metadata(),
        pricing: None,
        billing_mode: None,
        capability_support: None,
        features: InferenceFeatures::default(),
    };
    assert(model.deep_view() == bare_model(wire@));
    model
}

} // verus!
