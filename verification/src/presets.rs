//! Provider presets: a route and the models of a catalog, as a connection.
//!
//! A preset's file name is its profile name. Reading the files stays with the
//! caller.

use crate::configuration::merge;
use crate::content::Content;
use crate::json::{Json, JsonView};
use crate::protocol::features;
use crate::protocol::inference;
use crate::protocol::{
    CapabilitySupport, InferenceFeatures, MetadataView, ModelCapabilities, ModelMetadata,
    ModelProfile, ModelView, ProviderProfile, ProviderView,
};
use crate::sorted;
use crate::text;
use crate::views;
use vstd::prelude::*;

verus! {

broadcast use {crate::views::group_views, crate::json::group_json};

/// One model of a catalog. What the catalog leaves out stays out.
#[derive(Debug, Clone, PartialEq, Eq)]
pub struct CatalogModel {
    pub id: String,
    pub name: Option<String>,
    pub description: Option<String>,
    pub family: Option<String>,
    pub knowledge_cutoff: Option<String>,
    pub release_date: Option<String>,
    pub last_updated: Option<String>,
    pub context_window: Option<u64>,
    pub max_input: Option<u64>,
    pub max_output: Option<u64>,
    pub input_modalities: Vec<String>,
    pub output_modalities: Vec<String>,
    pub tool_call: bool,
    pub reasoning: bool,
    pub structured_output: bool,
    pub temperature: Option<bool>,
    pub attachment: Option<bool>,
    pub open_weights: Option<bool>,
    /// Published prices.
    pub pricing: Option<Json>,
    /// Set where the model is billed otherwise than the rest of its connection.
    pub billing_mode: Option<String>,
}

/// Why a preset is no connection.
#[derive(Debug, Clone, PartialEq, Eq)]
pub enum PresetError {
    Invalid { profile_name: String, message: String },
    NoModels { profile_name: String },
}

pub enum PresetErrorView {
    Invalid { profile_name: Seq<char>, message: Seq<char> },
    NoModels { profile_name: Seq<char> },
}

impl DeepView for PresetError {
    type V = PresetErrorView;

    open spec fn deep_view(&self) -> PresetErrorView {
        match self {
            PresetError::Invalid { profile_name, message } => PresetErrorView::Invalid {
                profile_name: profile_name@,
                message: message@,
            },
            PresetError::NoModels { profile_name } => PresetErrorView::NoModels {
                profile_name: profile_name@,
            },
        }
    }
}

/// The message of an error.
pub open spec fn message_of(error: PresetErrorView) -> Seq<char> {
    match error {
        PresetErrorView::Invalid { profile_name, message } => "the preset for "@
            + text::debug_text(profile_name) + " is not valid: "@ + message,
        PresetErrorView::NoModels { profile_name } => "the preset for "@ + text::debug_text(
            profile_name,
        ) + " declares no model, so nothing can resolve to it"@,
    }
}

impl PresetError {
    pub fn message(&self) -> (message: String)
        ensures
            message@ == message_of(self.deep_view()),
    {
        match self {
            PresetError::Invalid { profile_name, message } => text::cat4(
                "the preset for ",
                &text::debug(profile_name),
                " is not valid: ",
                message,
            ),
            PresetError::NoModels { profile_name } => text::cat3(
                "the preset for ",
                &text::debug(profile_name),
                " declares no model, so nothing can resolve to it",
            ),
        }
    }
}

/// Whether a catalog model takes the kind of input.
pub open spec fn accepts(model: CatalogModel, what: Seq<char>) -> bool {
    model.input_modalities.deep_view().contains(what)
}

/// A catalog model as a row. The wire ID stands in for a name that is missing.
pub open spec fn row_of(model: CatalogModel) -> ModelView {
    ModelView {
        display_model: match model.name {
            Some(name) => name@,
            None => model.id@,
        },
        request_model: model.id@,
        billing_model: model.id@,
        hidden: false,
        aliases: Seq::empty(),
        description: model.description.deep_view(),
        metadata: MetadataView {
            family: model.family.deep_view(),
            status: None,
            release_date: model.release_date.deep_view(),
            last_updated: model.last_updated.deep_view(),
            knowledge_cutoff: model.knowledge_cutoff.deep_view(),
            input_modalities: model.input_modalities.deep_view(),
            output_modalities: model.output_modalities.deep_view(),
            context_window_tokens: model.context_window,
            max_input_tokens: model.max_input,
            max_output_tokens: model.max_output,
            open_weights: model.open_weights,
            attachments: model.attachment,
            temperature_control: model.temperature,
        },
        pricing: model.pricing.deep_view(),
        billing_mode: model.billing_mode.deep_view(),
        capability_support: Some(
            ModelCapabilities {
                streaming: CapabilitySupport::Supported,
                tools: inference::known(model.tool_call),
                vision: inference::known(accepts(model, "image"@)),
                documents: inference::known(accepts(model, "pdf"@) || accepts(model, "file"@)),
                reasoning: inference::known(model.reasoning),
                structured_output: inference::known(model.structured_output),
                signed_reasoning: CapabilitySupport::Unsupported,
            },
        ),
        features: features::no_features(),
    }
}

pub fn model_profile(model: &CatalogModel) -> (row: ModelProfile)
    ensures
        row.deep_view() == row_of(*model),
{
    let display_model = match &model.name {
        Some(name) => name.clone(),
        None => model.id.clone(),
    };
    let vision = sorted::holds(&model.input_modalities, "image");
    let documents = sorted::holds(&model.input_modalities, "pdf") || sorted::holds(
        &model.input_modalities,
        "file",
    );
    let aliases: Vec<String> = Vec::new();
    assert(aliases.deep_view() =~= Seq::empty());
    ModelProfile {
        display_model,
        request_model: model.id.clone(),
        billing_model: model.id.clone(),
        hidden: false,
        aliases,
        description: model.description.duplicate(),
        metadata: ModelMetadata {
            family: model.family.duplicate(),
            status: None,
            release_date: model.release_date.duplicate(),
            last_updated: model.last_updated.duplicate(),
            knowledge_cutoff: model.knowledge_cutoff.duplicate(),
            input_modalities: model.input_modalities.duplicate(),
            output_modalities: model.output_modalities.duplicate(),
            context_window_tokens: model.context_window,
            max_input_tokens: model.max_input,
            max_output_tokens: model.max_output,
            open_weights: model.open_weights,
            attachments: model.attachment,
            temperature_control: model.temperature,
        },
        pricing: model.pricing.duplicate(),
        billing_mode: model.billing_mode.duplicate(),
        capability_support: Some(
            ModelCapabilities {
                streaming: CapabilitySupport::Supported,
                tools: CapabilitySupport::stated(model.tool_call),
                vision: CapabilitySupport::stated(vision),
                documents: CapabilitySupport::stated(documents),
                reasoning: CapabilitySupport::stated(model.reasoning),
                structured_output: CapabilitySupport::stated(model.structured_output),
                signed_reasoning: CapabilitySupport::Unsupported,
            },
        ),
        features: InferenceFeatures::default(),
    }
}

/// Whether another row has the name of the `i`th.
pub open spec fn shares_its_name(models: Seq<ModelView>, i: int) -> bool {
    exists|k: int|
        0 <= k < models.len() && k != i && (#[trigger] models[k]).display_model
            == models[i].display_model
}

/// The rows, with the wire ID for a name that two of them share: nothing could
/// resolve to such a name.
pub open spec fn told_apart(models: Seq<ModelView>) -> Seq<ModelView> {
    Seq::new(
        models.len(),
        |i: int|
            if shares_its_name(models, i) {
                ModelView { display_model: models[i].request_model, ..models[i] }
            } else {
                models[i]
            },
    )
}

fn is_shared(models: &Vec<ModelProfile>, i: usize) -> (result: bool)
    requires
        i < models.len(),
    ensures
        result == shares_its_name(models.deep_view(), i as int),
{
    assert(models.deep_view()[i as int] == models@[i as int].deep_view());
    assert(models.deep_view().len() == models@.len());
    let mut k: usize = 0;
    while k < models.len()
        invariant
            k <= models.len() == models.deep_view().len(),
            i < models.len(),
            models.deep_view()[i as int] == models@[i as int].deep_view(),
            forall|n: int|
                0 <= n < k && n != i ==> (#[trigger] models.deep_view()[n]).display_model
                    != models.deep_view()[i as int].display_model,
        decreases models.len() - k,
    {
        assert(models.deep_view()[k as int] == models@[k as int].deep_view());
        if k != i && text::same(&models[k].display_model, &models[i].display_model) {
            return true;
        }
        k = k + 1;
    }
    false
}

pub fn disambiguate(models: Vec<ModelProfile>) -> (result: Vec<ModelProfile>)
    ensures
        result.deep_view() == told_apart(models.deep_view()),
{
    let mut out: Vec<ModelProfile> = Vec::new();
    let mut i: usize = 0;
    assert(models.deep_view().len() == models@.len());
    while i < models.len()
        invariant
            i <= models.len() == models.deep_view().len(),
            out.len() == i,
            forall|k: int|
                0 <= k < i ==> #[trigger] out.deep_view()[k] == told_apart(models.deep_view())[k],
        decreases models.len() - i,
    {
        assert(models.deep_view()[i as int] == models@[i as int].deep_view());
        let mut row = models[i].duplicate();
        if is_shared(&models, i) {
            row.display_model = models[i].request_model.clone();
        }
        let ghost before = out.deep_view();
        out.push(row);
        assert(out.deep_view() == before.push(row.deep_view()));
        i = i + 1;
    }
    assert(out.deep_view() =~= told_apart(models.deep_view()));
    out
}

/// The rows of catalog models.
pub open spec fn rows_of(models: Seq<CatalogModel>) -> Seq<ModelView> {
    Seq::new(models.len(), |i: int| row_of(models[i]))
}

/// The connection of a preset: the route under the profile's name, with its rows.
pub open spec fn preset_of(
    profile_name: Seq<char>,
    route: ProviderView,
    models: Seq<CatalogModel>,
) -> Result<ProviderView, PresetErrorView> {
    if models.len() == 0 {
        Err(PresetErrorView::NoModels { profile_name })
    } else {
        Ok(ProviderView { profile_name, models: told_apart(rows_of(models)), ..route })
    }
}

/// A preset as a connection. A preset without a model is refused: nothing could
/// resolve to it.
pub fn preset(profile_name: &str, route: ProviderProfile, models: &Vec<CatalogModel>) -> (result:
    Result<ProviderProfile, PresetError>)
    ensures
        views::res(result) == preset_of(profile_name@, route.deep_view(), models@),
{
    if models.len() == 0 {
        return Err(PresetError::NoModels { profile_name: profile_name.to_owned() });
    }
    let mut rows: Vec<ModelProfile> = Vec::new();
    let mut i: usize = 0;
    while i < models.len()
        invariant
            i <= models.len(),
            rows.len() == i,
            forall|k: int| 0 <= k < i ==> #[trigger] rows.deep_view()[k] == row_of(models@[k]),
        decreases models.len() - i,
    {
        let row = model_profile(&models[i]);
        let ghost before = rows.deep_view();
        rows.push(row);
        assert(rows.deep_view() == before.push(row.deep_view()));
        i = i + 1;
    }
    assert(rows.deep_view() =~= rows_of(models@));
    let mut profile = route;
    profile.profile_name = profile_name.to_owned();
    profile.models = disambiguate(rows);
    Ok(profile)
}

/// The presets from the `i`th on that the user's entries do not replace, behind
/// those before.
pub open spec fn unreplaced(
    user: Seq<ProviderView>,
    presets: Seq<ProviderView>,
    i: int,
    before: Seq<ProviderView>,
) -> Seq<ProviderView>
    decreases presets.len() - i,
{
    if i < 0 || i >= presets.len() {
        before
    } else {
        unreplaced(
            user,
            presets,
            i + 1,
            if merge::named(user, presets[i].profile_name, 0) is Some {
                before
            } else {
                before.push(presets[i])
            },
        )
    }
}

/// The user's entries, and the presets that they do not replace. An entry wins on
/// its name: whoever declares a preset anew means it.
pub fn merge(user: Vec<ProviderProfile>, presets: &Vec<ProviderProfile>) -> (result: Vec<
    ProviderProfile,
>)
    ensures
        result.deep_view() == unreplaced(
            user.deep_view(),
            presets.deep_view(),
            0,
            user.deep_view(),
        ),
{
    let mut out = user.duplicate();
    let mut i: usize = 0;
    while i < presets.len()
        invariant
            i <= presets.len(),
            unreplaced(user.deep_view(), presets.deep_view(), 0, user.deep_view()) == unreplaced(
                user.deep_view(),
                presets.deep_view(),
                i as int,
                out.deep_view(),
            ),
        decreases presets.len() - i,
    {
        assert(presets.deep_view()[i as int] == presets@[i as int].deep_view());
        if merge::find_named(&user, &presets[i].profile_name).is_none() {
            out.push(presets[i].duplicate());
        }
        i = i + 1;
    }
    out
}

/// Where wire IDs are unique, and no name is the wire ID of another model, the rows
/// of a preset have names of their own.
pub proof fn rows_are_told_apart(models: Seq<ModelView>, i: int, j: int)
    requires
        forall|a: int, b: int|
            0 <= a < b < models.len() ==> (#[trigger] models[a]).request_model != (
            #[trigger] models[b]).request_model,
        forall|a: int, b: int|
            0 <= a < models.len() && 0 <= b < models.len() && a != b ==> (
            #[trigger] models[a]).display_model != (#[trigger] models[b]).request_model,
        0 <= i < j < models.len(),
    ensures
        told_apart(models)[i].display_model != told_apart(models)[j].display_model,
{
    if !shares_its_name(models, i) && !shares_its_name(models, j) {
        assert(models[j].display_model != models[i].display_model);
    }
}

/// The user's own entry is the one that its name finds.
pub proof fn an_entry_replaces_its_preset(
    user: Seq<ProviderView>,
    presets: Seq<ProviderView>,
    name: Seq<char>,
)
    requires
        merge::named(user, name, 0) is Some,
    ensures
        merge::named(unreplaced(user, presets, 0, user), name, 0) == merge::named(user, name, 0),
{
    lemma_named_in_front(user, presets, 0, user, name);
}

proof fn lemma_named_in_front(
    user: Seq<ProviderView>,
    presets: Seq<ProviderView>,
    i: int,
    before: Seq<ProviderView>,
    name: Seq<char>,
)
    requires
        i >= 0,
        merge::named(before, name, 0) is Some,
    ensures
        merge::named(unreplaced(user, presets, i, before), name, 0) == merge::named(
            before,
            name,
            0,
        ),
    decreases presets.len() - i,
{
    if i < presets.len() {
        if merge::named(user, presets[i].profile_name, 0) is Some {
            lemma_named_in_front(user, presets, i + 1, before, name);
        } else {
            lemma_named_push(before, presets[i], name, 0);
            lemma_named_in_front(user, presets, i + 1, before.push(presets[i]), name);
        }
    }
}

proof fn lemma_named_push(profiles: Seq<ProviderView>, last: ProviderView, name: Seq<char>, i: int)
    requires
        0 <= i,
        merge::named(profiles, name, i) is Some,
    ensures
        merge::named(profiles.push(last), name, i) == merge::named(profiles, name, i),
    decreases profiles.len() - i,
{
    if i < profiles.len() && profiles[i].profile_name != name {
        assert(profiles.push(last)[i] == profiles[i]);
        lemma_named_push(profiles, last, name, i + 1);
    }
}

/// A preset holds every model of its catalog, in order, under the id that the provider
/// knows it by and with what the catalog says it can; a catalog without a model makes no
/// preset.
pub proof fn a_preset_holds_every_model(
    profile_name: Seq<char>,
    route: ProviderView,
    models: Seq<CatalogModel>,
    i: int,
)
    ensures
        preset_of(profile_name, route, models) is Err <==> models.len() == 0,
        preset_of(profile_name, route, models) matches Ok(preset) ==> {
            &&& preset.profile_name == profile_name
            &&& preset.provider_id == route.provider_id
            &&& preset.base_url == route.base_url
            &&& preset.protocol == route.protocol
            &&& preset.models.len() == models.len()
            &&& 0 <= i < models.len() ==> {
                let row = preset.models[i];
                let listed = models[i];
                let can = row.capability_support;
                &&& row.request_model == listed.id@
                &&& row.billing_model == listed.id@
                &&& row.display_model == listed.id@ || (listed.name matches Some(name)
                    && row.display_model == name@)
                &&& row.metadata.context_window_tokens == listed.context_window
                &&& row.metadata.max_output_tokens == listed.max_output
                &&& row.metadata.max_input_tokens == listed.max_input
                &&& can matches Some(can)
                &&& can.tools == CapabilitySupport::Supported <==> listed.tool_call
                &&& can.reasoning == CapabilitySupport::Supported <==> listed.reasoning
                &&& can.structured_output == CapabilitySupport::Supported
                    <==> listed.structured_output
                &&& can.vision == CapabilitySupport::Supported
                    <==> listed.input_modalities.deep_view().contains("image"@)
                &&& can.documents == CapabilitySupport::Supported
                    <==> listed.input_modalities.deep_view().contains("pdf"@)
                    || listed.input_modalities.deep_view().contains("file"@)
            }
        },
{
}

proof fn lemma_unreplaced(
    user: Seq<ProviderView>,
    presets: Seq<ProviderView>,
    i: int,
    before: Seq<ProviderView>,
    k: int,
)
    requires
        0 <= i,
    ensures
        ({
            let all = unreplaced(user, presets, i, before);
            &&& all.len() >= before.len()
            &&& forall|j: int| 0 <= j < before.len() ==> #[trigger] all[j] == before[j]
            &&& i <= k < presets.len() && merge::named(user, presets[k].profile_name, 0) is None
                ==> all.contains(presets[k])
        }),
    decreases presets.len() - i,
{
    if i < presets.len() {
        let next = if merge::named(user, presets[i].profile_name, 0) is Some {
            before
        } else {
            before.push(presets[i])
        };
        lemma_unreplaced(user, presets, i + 1, next, k);
        let all = unreplaced(user, presets, i, before);
        assert forall|j: int| 0 <= j < before.len() implies #[trigger] all[j] == before[j] by {
            assert(next[j] == before[j]);
        }
        if next.len() > before.len() {
            assert(all[before.len() as int] == next[before.len() as int]);
        }
    }
}

/// A preset that no entry replaces is there beside the entries, which all are.
pub proof fn a_preset_is_there_unless_it_is_replaced(
    user: Seq<ProviderView>,
    presets: Seq<ProviderView>,
    k: int,
)
    ensures
        0 <= k < user.len() ==> unreplaced(user, presets, 0, user).contains(user[k]),
        0 <= k < presets.len() && merge::named(user, presets[k].profile_name, 0) is None
            ==> unreplaced(user, presets, 0, user).contains(presets[k]),
{
    lemma_unreplaced(user, presets, 0, user, k);
    if 0 <= k < user.len() {
        assert(unreplaced(user, presets, 0, user)[k] == user[k]);
    }
}

} // verus!
