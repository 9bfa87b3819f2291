//! A configuration as a whole: what it shows, what of it is kept, and what a
//! session carries over.

use crate::configuration::merge::{self, Definitions, DefinitionsView};
use crate::configuration::model::{
    self, ConfigView, ConfiguredModel, ConfiguredView, ModelRow, Observation, ObservationView,
    RowView, SavedConfig, SavedProfile, SavedView,
};
use crate::content::Content;
use crate::protocol::{ModelProfile, ModelView, ProviderProfile, ProviderView};
use crate::sorted;
use crate::text;
use vstd::prelude::*;

verus! {

broadcast use {crate::views::group_views, crate::json::group_json};

/// The place of the account with the name, from the `i`th on.
pub open spec fn account_place(providers: Seq<SavedView>, name: Seq<char>, i: int) -> Option<int>
    decreases providers.len() - i,
{
    if i < 0 || i >= providers.len() {
        None
    } else if providers[i].connection.profile_name == name {
        Some(i)
    } else {
        account_place(providers, name, i + 1)
    }
}

pub fn find_account(providers: &Vec<SavedProfile>, name: &str) -> (result: Option<usize>)
    ensures
        match result {
            Some(place) => place < providers.len() && account_place(
                providers.deep_view(),
                name@,
                0,
            ) == Some(place as int),
            None => account_place(providers.deep_view(), name@, 0) is None,
        },
{
    let mut i: usize = 0;
    while i < providers.len()
        invariant
            i <= providers.len(),
            account_place(providers.deep_view(), name@, 0) == account_place(
                providers.deep_view(),
                name@,
                i as int,
            ),
        decreases providers.len() - i,
    {
        assert(providers.deep_view()[i as int] == providers@[i as int].deep_view());
        if text::same(&providers[i].connection.profile_name, name) {
            return Some(i);
        }
        i = i + 1;
    }
    None
}

/// The accounts, with one for each of the caller's definitions from the `i`th on
/// that has none and was not deleted.
pub open spec fn accounts_for(
    providers: Seq<SavedView>,
    deleted: Seq<Seq<char>>,
    definitions: DefinitionsView,
    i: int,
) -> Seq<SavedView>
    decreases definitions.caller.len() - i,
{
    if i < 0 || i >= definitions.caller.len() {
        providers
    } else {
        let profile = definitions.caller[i];
        accounts_for(
            if !deleted.contains(profile.profile_name) && account_place(
                providers,
                profile.profile_name,
                0,
            ) is None {
                providers.push(
                    merge::inherited_of(
                        profile,
                        merge::reference_of(definitions, profile.profile_name),
                    ),
                )
            } else {
                providers
            },
            deleted,
            definitions,
            i + 1,
        )
    }
}

/// The configuration with an account for each definition.
pub open spec fn with_definitions(config: ConfigView, definitions: DefinitionsView) -> ConfigView {
    ConfigView {
        providers: accounts_for(config.providers, config.deleted_profiles, definitions, 0),
        ..config
    }
}

/// The rows that are shown: every one, or those that can be used.
pub open spec fn models_shown(
    rows: Seq<ConfiguredView>,
    executable: bool,
    i: int,
    before: Seq<ModelView>,
) -> Seq<ModelView>
    decreases rows.len() - i,
{
    if i < 0 || i >= rows.len() {
        before
    } else {
        models_shown(
            rows,
            executable,
            i + 1,
            if !executable || rows[i].compatible {
                before.push(rows[i].model)
            } else {
                before
            },
        )
    }
}

fn show_models(rows: &Vec<ConfiguredModel>, executable: bool) -> (models: Vec<ModelProfile>)
    ensures
        models.deep_view() == models_shown(rows.deep_view(), executable, 0, Seq::empty()),
{
    let mut models: Vec<ModelProfile> = Vec::new();
    let mut i: usize = 0;
    while i < rows.len()
        invariant
            i <= rows.len(),
            models_shown(rows.deep_view(), executable, 0, Seq::empty()) == models_shown(
                rows.deep_view(),
                executable,
                i as int,
                models.deep_view(),
            ),
        decreases rows.len() - i,
    {
        assert(rows.deep_view()[i as int] == rows@[i as int].deep_view());
        if !executable || rows[i].compatible {
            models.push(rows[i].model.duplicate());
        }
        i = i + 1;
    }
    models
}

/// An account as a connection: its own, with the images of its definition where it
/// has none of its own, and its rows.
pub open spec fn shown(saved: SavedView, definitions: DefinitionsView, executable: bool) -> ProviderView {
    let own = saved.connection;
    ProviderView {
        images: if !saved.replace_models && own.images.routes.len() == 0
            && own.images.models.len() == 0 {
            match merge::definition_of(definitions, saved.definition) {
                Some(definition) => definition.images,
                None => own.images,
            }
        } else {
            own.images
        },
        models: models_shown(merge::rows_of(saved, definitions), executable, 0, Seq::empty()),
        ..own
    }
}

fn show(saved: &SavedProfile, definitions: &Definitions, executable: bool) -> (profile:
    ProviderProfile)
    ensures
        profile.deep_view() == shown(saved.deep_view(), definitions.deep_view(), executable),
{
    let mut profile = saved.connection.duplicate();
    assert(profile.images.routes.deep_view().len() == profile.images.routes@.len());
    assert(profile.images.models.deep_view().len() == profile.images.models@.len());
    if !saved.replace_models && profile.images.routes.len() == 0 && profile.images.models.len()
        == 0 {
        if let Some(definition) = definitions.get(&saved.definition) {
            profile.images = definition.images.duplicate();
        }
    }
    profile.models = show_models(&saved.rows(definitions), executable);
    profile
}

/// The accounts from the `i`th on that were not deleted, as connections.
pub open spec fn profiles_from(
    config: ConfigView,
    definitions: DefinitionsView,
    executable: bool,
    i: int,
    before: Seq<ProviderView>,
) -> Seq<ProviderView>
    decreases config.providers.len() - i,
{
    if i < 0 || i >= config.providers.len() {
        before
    } else {
        let saved = config.providers[i];
        profiles_from(
            config,
            definitions,
            executable,
            i + 1,
            if config.deleted_profiles.contains(saved.connection.profile_name) {
                before
            } else {
                before.push(shown(saved, definitions, executable))
            },
        )
    }
}

/// The connections of a configuration.
pub open spec fn profiles_of(config: ConfigView, definitions: DefinitionsView, executable: bool) -> Seq<
    ProviderView,
> {
    profiles_from(
        with_definitions(config, definitions),
        definitions,
        executable,
        0,
        Seq::empty(),
    )
}

/// An account on the current definitions: its rows adopted, and what it falls back
/// to brought up to date.
pub open spec fn refreshed(saved: SavedView, definitions: DefinitionsView) -> SavedView {
    SavedView {
        models: merge::adopted_rows(saved, definitions),
        fallback: match merge::definition_of(definitions, saved.definition) {
            Some(current) => current,
            None => saved.fallback,
        },
        ..saved
    }
}

/// The configuration on the current definitions.
pub open spec fn all_refreshed(config: ConfigView, definitions: DefinitionsView) -> ConfigView {
    ConfigView {
        providers: Seq::new(
            config.providers.len(),
            |i: int| refreshed(config.providers[i], definitions),
        ),
        ..config
    }
}

/// The tracked models of a provider.
pub open spec fn tracked_of(config: ConfigView, provider_id: Seq<char>) -> Seq<Seq<char>> {
    match sorted::found(config.tracked_models, provider_id, 0) {
        Some(ids) => ids,
        None => Seq::empty(),
    }
}

fn find_tracked<'a>(config: &'a SavedConfig, provider_id: &str) -> (result: Option<&'a Vec<String>>)
    ensures
        result.deep_view() == sorted::found(
            config.deep_view().tracked_models,
            provider_id@,
            0,
        ),
{
    sorted::find(&config.tracked_models, provider_id)
}

/// The tracked models of a provider, as a list.
pub fn followed(config: &SavedConfig, provider_id: &str) -> (ids: Vec<String>)
    ensures
        ids.deep_view() == tracked_of(config.deep_view(), provider_id@),
{
    match find_tracked(config, provider_id) {
        Some(ids) => ids.duplicate(),
        None => {
            let ids: Vec<String> = Vec::new();
            assert(ids.deep_view() =~= Seq::empty());
            ids
        },
    }
}

/// The name on the wire of the model that a row is about.
pub open spec fn row_wire(row: RowView) -> Seq<char> {
    if !row.replacement && row.definition_key is Some {
        row.definition_key->0.wire
    } else {
        match row.initial {
            Some(initial) => initial.request_model,
            None => ""@,
        }
    }
}

fn wire_of(row: &ModelRow) -> (wire: &str)
    ensures
        wire@ == row_wire(row.deep_view()),
{
    if !row.replacement {
        if let Some(key) = &row.definition_key {
            return key.wire.as_str();
        }
    }
    match &row.initial {
        Some(initial) => initial.request_model.as_str(),
        None => "",
    }
}

/// The models from the `i`th on that are tracked.
pub open spec fn kept_models(
    models: Seq<ModelView>,
    ids: Seq<Seq<char>>,
    i: int,
    before: Seq<ModelView>,
) -> Seq<ModelView>
    decreases models.len() - i,
{
    if i < 0 || i >= models.len() {
        before
    } else {
        kept_models(
            models,
            ids,
            i + 1,
            if ids.contains(models[i].request_model) {
                before.push(models[i])
            } else {
                before
            },
        )
    }
}

fn keep_models(models: &Vec<ModelProfile>, ids: &Vec<String>) -> (result: Vec<ModelProfile>)
    ensures
        result.deep_view() == kept_models(models.deep_view(), ids.deep_view(), 0, Seq::empty()),
{
    let mut out: Vec<ModelProfile> = Vec::new();
    let mut i: usize = 0;
    while i < models.len()
        invariant
            i <= models.len(),
            kept_models(models.deep_view(), ids.deep_view(), 0, Seq::empty()) == kept_models(
                models.deep_view(),
                ids.deep_view(),
                i as int,
                out.deep_view(),
            ),
        decreases models.len() - i,
    {
        assert(models.deep_view()[i as int] == models@[i as int].deep_view());
        if sorted::holds(ids, &models[i].request_model) {
            out.push(models[i].duplicate());
        }
        i = i + 1;
    }
    out
}

/// The rows from the `i`th on that are about tracked models.
pub open spec fn kept_rows(
    rows: Seq<RowView>,
    ids: Seq<Seq<char>>,
    i: int,
    before: Seq<RowView>,
) -> Seq<RowView>
    decreases rows.len() - i,
{
    if i < 0 || i >= rows.len() {
        before
    } else {
        kept_rows(
            rows,
            ids,
            i + 1,
            if ids.contains(row_wire(rows[i])) {
                before.push(rows[i])
            } else {
                before
            },
        )
    }
}

fn keep_rows(rows: &Vec<ModelRow>, ids: &Vec<String>) -> (result: Vec<ModelRow>)
    ensures
        result.deep_view() == kept_rows(rows.deep_view(), ids.deep_view(), 0, Seq::empty()),
{
    let mut out: Vec<ModelRow> = Vec::new();
    let mut i: usize = 0;
    while i < rows.len()
        invariant
            i <= rows.len(),
            kept_rows(rows.deep_view(), ids.deep_view(), 0, Seq::empty()) == kept_rows(
                rows.deep_view(),
                ids.deep_view(),
                i as int,
                out.deep_view(),
            ),
        decreases rows.len() - i,
    {
        assert(rows.deep_view()[i as int] == rows@[i as int].deep_view());
        if sorted::holds(ids, wire_of(&rows[i])) {
            out.push(rows[i].duplicate());
        }
        i = i + 1;
    }
    out
}

/// The observations from the `i`th on that are of tracked models.
pub open spec fn kept_observations(
    observations: Seq<(Seq<char>, ObservationView)>,
    ids: Seq<Seq<char>>,
    i: int,
    before: Seq<(Seq<char>, ObservationView)>,
) -> Seq<(Seq<char>, ObservationView)>
    decreases observations.len() - i,
{
    if i < 0 || i >= observations.len() {
        before
    } else {
        kept_observations(
            observations,
            ids,
            i + 1,
            if ids.contains(observations[i].0) {
                before.push(observations[i])
            } else {
                before
            },
        )
    }
}

fn keep_observations(observations: &Vec<(String, Observation)>, ids: &Vec<String>) -> (result: Vec<
    (String, Observation),
>)
    ensures
        result.deep_view() == kept_observations(
            observations.deep_view(),
            ids.deep_view(),
            0,
            Seq::empty(),
        ),
{
    let mut out: Vec<(String, Observation)> = Vec::new();
    let mut i: usize = 0;
    while i < observations.len()
        invariant
            i <= observations.len(),
            kept_observations(observations.deep_view(), ids.deep_view(), 0, Seq::empty())
                == kept_observations(
                observations.deep_view(),
                ids.deep_view(),
                i as int,
                out.deep_view(),
            ),
        decreases observations.len() - i,
    {
        assert(observations.deep_view()[i as int] == observations@[i as int].deep_view());
        if sorted::holds(ids, &observations[i].0) {
            out.push(observations[i].duplicate());
        }
        i = i + 1;
    }
    out
}

/// What is kept of an account on disk: what is tracked. That a model does not serve
/// the wire is kept of every one.
pub open spec fn kept(saved: SavedView, ids: Seq<Seq<char>>) -> SavedView {
    SavedView {
        fallback: ProviderView {
            models: kept_models(saved.fallback.models, ids, 0, Seq::empty()),
            ..saved.fallback
        },
        models: kept_rows(saved.models, ids, 0, Seq::empty()),
        observations: kept_observations(saved.observations, ids, 0, Seq::empty()),
        ..saved
    }
}

fn keep(saved: &SavedProfile, ids: &Vec<String>) -> (result: SavedProfile)
    ensures
        result.deep_view() == kept(saved.deep_view(), ids.deep_view()),
{
    let mut out = saved.duplicate();
    out.fallback.models = keep_models(&saved.fallback.models, ids);
    out.models = keep_rows(&saved.models, ids);
    out.observations = keep_observations(&saved.observations, ids);
    out
}

/// What is kept of a configuration on disk.
pub open spec fn persisted_of(config: ConfigView) -> ConfigView {
    ConfigView {
        providers: Seq::new(
            config.providers.len(),
            |i: int|
                kept(
                    config.providers[i],
                    tracked_of(config, config.providers[i].connection.provider_id),
                ),
        ),
        ..config
    }
}

/// An account as the session goes on with it: what the session held of it, as long
/// as what is kept on disk is what the session had kept.
pub open spec fn reconciled(
    saved: SavedView,
    durable: Seq<SavedView>,
    previous: Seq<SavedView>,
) -> SavedView {
    let name = saved.connection.profile_name;
    match account_place(durable, name, 0) {
        Some(place) => if <SavedProfile as Content>::alike(durable[place], saved) {
            match account_place(previous, name, 0) {
                Some(place) => previous[place],
                None => saved,
            }
        } else {
            saved
        },
        None => saved,
    }
}

/// The configuration as a session goes on with it.
pub open spec fn session_of(config: ConfigView, previous: ConfigView) -> ConfigView {
    ConfigView {
        providers: Seq::new(
            config.providers.len(),
            |i: int|
                reconciled(
                    config.providers[i],
                    persisted_of(previous).providers,
                    previous.providers,
                ),
        ),
        ..config
    }
}

fn reconcile(
    saved: &SavedProfile,
    durable: &Vec<SavedProfile>,
    previous: &Vec<SavedProfile>,
) -> (result: SavedProfile)
    ensures
        result.deep_view() == reconciled(
            saved.deep_view(),
            durable.deep_view(),
            previous.deep_view(),
        ),
{
    let name = saved.connection.profile_name.as_str();
    if let Some(place) = find_account(durable, name) {
        assert(durable.deep_view()[place as int] == durable@[place as int].deep_view());
        if durable[place].same_content(saved) {
            if let Some(at) = find_account(previous, name) {
                assert(previous.deep_view()[at as int] == previous@[at as int].deep_view());
                return previous[at].duplicate();
            }
        }
    }
    saved.duplicate()
}

impl SavedConfig {
    /// Gives every definition of the caller an account.
    pub fn ensure_definitions(&mut self, definitions: &Definitions)
        ensures
            final(self).deep_view() == with_definitions(
                old(self).deep_view(),
                definitions.deep_view(),
            ),
    {
        let ghost first = self.providers.deep_view();
        let ghost start = self.deep_view();
        let mut providers = self.providers.duplicate();
        let mut i: usize = 0;
        while i < definitions.caller.len()
            invariant
                i <= definitions.caller.len(),
                self.deep_view() == start,
                accounts_for(first, start.deleted_profiles, definitions.deep_view(), 0)
                    == accounts_for(
                    providers.deep_view(),
                    start.deleted_profiles,
                    definitions.deep_view(),
                    i as int,
                ),
            decreases definitions.caller.len() - i,
        {
            let profile = &definitions.caller[i];
            assert(definitions.deep_view().caller[i as int] == profile.deep_view());
            if !sorted::holds(&self.deleted_profiles, &profile.profile_name) && find_account(
                &providers,
                &profile.profile_name,
            ).is_none() {
                providers.push(
                    SavedProfile::inherited(
                        profile,
                        definitions.reference(&profile.profile_name),
                    ),
                );
            }
            i = i + 1;
        }
        self.providers = providers;
    }

    /// The connections that the configuration shows: every row of each, or those
    /// that can be used.
    pub fn profiles(&self, definitions: &Definitions, executable: bool) -> (profiles: Vec<
        ProviderProfile,
    >)
        ensures
            profiles.deep_view() == profiles_of(
                self.deep_view(),
                definitions.deep_view(),
                executable,
            ),
    {
        let mut merged = self.duplicate();
        merged.ensure_definitions(definitions);
        let mut out: Vec<ProviderProfile> = Vec::new();
        let mut i: usize = 0;
        while i < merged.providers.len()
            invariant
                i <= merged.providers.len(),
                profiles_from(
                    merged.deep_view(),
                    definitions.deep_view(),
                    executable,
                    0,
                    Seq::empty(),
                ) == profiles_from(
                    merged.deep_view(),
                    definitions.deep_view(),
                    executable,
                    i as int,
                    out.deep_view(),
                ),
            decreases merged.providers.len() - i,
        {
            let saved = &merged.providers[i];
            assert(merged.deep_view().providers[i as int] == saved.deep_view());
            if !sorted::holds(&merged.deleted_profiles, &saved.connection.profile_name) {
                out.push(show(saved, definitions, executable));
            }
            i = i + 1;
        }
        out
    }

    /// Brings every account up to the current definitions.
    pub fn refresh_fallbacks(&mut self, definitions: &Definitions)
        ensures
            final(self).deep_view() == all_refreshed(
                old(self).deep_view(),
                definitions.deep_view(),
            ),
    {
        let ghost start = self.deep_view();
        let mut out: Vec<SavedProfile> = Vec::new();
        let mut i: usize = 0;
        while i < self.providers.len()
            invariant
                i <= self.providers.len(),
                self.deep_view() == start,
                out.len() == i,
                forall|k: int|
                    0 <= k < i ==> #[trigger] out.deep_view()[k] == refreshed(
                        start.providers[k],
                        definitions.deep_view(),
                    ),
            decreases self.providers.len() - i,
        {
            assert(start.providers[i as int] == self.providers@[i as int].deep_view());
            let mut saved = self.providers[i].duplicate();
            saved.adopt_observed(definitions);
            if let Some(current) = definitions.get(&saved.definition) {
                saved.fallback = current.duplicate();
            }
            let ghost before = out.deep_view();
            out.push(saved);
            assert(out.deep_view() == before.push(saved.deep_view()));
            i = i + 1;
        }
        assert(out.deep_view() =~= all_refreshed(start, definitions.deep_view()).providers);
        self.providers = out;
    }

    /// What is kept on disk.
    pub fn persisted(&self) -> (result: SavedConfig)
        ensures
            result.deep_view() == persisted_of(self.deep_view()),
    {
        let mut out: Vec<SavedProfile> = Vec::new();
        let mut i: usize = 0;
        while i < self.providers.len()
            invariant
                i <= self.providers.len(),
                out.len() == i,
                forall|k: int|
                    0 <= k < i ==> #[trigger] out.deep_view()[k]
                        == persisted_of(self.deep_view()).providers[k],
            decreases self.providers.len() - i,
        {
            assert(self.deep_view().providers[i as int] == self.providers@[i as int].deep_view());
            let ids = followed(self, &self.providers[i].connection.provider_id);
            let saved = keep(&self.providers[i], &ids);
            let ghost before = out.deep_view();
            out.push(saved);
            assert(out.deep_view() == before.push(saved.deep_view()));
            i = i + 1;
        }
        assert(out.deep_view() =~= persisted_of(self.deep_view()).providers);
        SavedConfig {
            version: self.version,
            tracked_models: self.tracked_models.duplicate(),
            deleted_profiles: self.deleted_profiles.duplicate(),
            providers: out,
        }
    }

    /// Takes over what a session holds beyond what is on disk, account by account,
    /// as long as the account on disk is the one that the session kept.
    pub fn reconcile_session(&mut self, previous: &SavedConfig)
        ensures
            final(self).deep_view() == session_of(old(self).deep_view(), previous.deep_view()),
    {
        let ghost start = self.deep_view();
        let durable = previous.persisted();
        let mut out: Vec<SavedProfile> = Vec::new();
        let mut i: usize = 0;
        while i < self.providers.len()
            invariant
                i <= self.providers.len(),
                self.deep_view() == start,
                durable.deep_view() == persisted_of(previous.deep_view()),
                out.len() == i,
                forall|k: int|
                    0 <= k < i ==> #[trigger] out.deep_view()[k] == reconciled(
                        start.providers[k],
                        persisted_of(previous.deep_view()).providers,
                        previous.deep_view().providers,
                    ),
            decreases self.providers.len() - i,
        {
            assert(start.providers[i as int] == self.providers@[i as int].deep_view());
            let saved = reconcile(&self.providers[i], &durable.providers, &previous.providers);
            let ghost before = out.deep_view();
            out.push(saved);
            assert(out.deep_view() == before.push(saved.deep_view()));
            i = i + 1;
        }
        assert(out.deep_view() =~= session_of(start, previous.deep_view()).providers);
        self.providers = out;
    }
}

/// A connection without its models.
pub open spec fn without_models(profile: ProviderView) -> ProviderView {
    ProviderView { models: Seq::empty(), ..profile }
}

/// Whether two profiles are the same connection: alike but for their models.
pub open spec fn alike_connections(left: ProviderView, right: ProviderView) -> bool {
    <ProviderProfile as Content>::alike(without_models(left), without_models(right))
}

pub fn same_connection(left: &ProviderProfile, right: &ProviderProfile) -> (result: bool)
    ensures
        result == alike_connections(left.deep_view(), right.deep_view()),
{
    let mut left = left.duplicate();
    let mut right = right.duplicate();
    left.models = Vec::new();
    right.models = Vec::new();
    assert(left.models.deep_view() =~= Seq::empty());
    assert(right.models.deep_view() =~= Seq::empty());
    left.same_content(&right)
}

/// A connection is the same as itself, whatever its models.
pub proof fn a_connection_is_itself(profile: ProviderView, models: Seq<ModelView>)
    ensures
        alike_connections(profile, ProviderView { models, ..profile }),
{
    <ProviderProfile as Content>::alike_itself(without_models(profile));
}

} // verus!
