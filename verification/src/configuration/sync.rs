//! Reading a directory page by page, and taking what it says into an account.
//! Sending the requests, and locking and writing the file, stay with the caller.

use crate::configuration::coordinator;
use crate::configuration::error::{ProviderStoreError, StoreErrorView, MAX_PAGES};
use crate::configuration::merge::{self, Definitions, DefinitionsView};
use crate::configuration::model::{
    self, ConfigView, ConfiguredModel, ConfiguredView, ModelOverrides, ModelRow, Observation,
    ObservationView, RowView, SavedConfig, SavedProfile, SavedView,
};
use crate::configuration::state;
use crate::content::Content;
use crate::directory::{DecodedModelPage, DecodedPageView, LiveModel, LiveModelView};
use crate::protocol::features;
use crate::protocol::{FeaturesView, InferenceFeatures, ProviderProfile, ProviderView};
use crate::sorted;
use crate::text;
use crate::views;
use vstd::prelude::*;

verus! {

broadcast use {crate::views::group_views, crate::json::group_json};

/// A directory that is being read: the connection that it is read for, the
/// generation of the configuration, and what was said so far. The cursors are in
/// ascending order.
#[derive(Debug, Clone, PartialEq, Eq)]
pub struct ProviderSyncOperation {
    pub source: ProviderProfile,
    pub generation: u64,
    pub live: Vec<LiveModel>,
    pub incompatible: Vec<String>,
    pub compatible: Vec<String>,
    pub cursors: Vec<String>,
    pub pages: usize,
}

pub struct ListingView {
    pub live: Seq<LiveModelView>,
    pub incompatible: Seq<Seq<char>>,
    pub compatible: Seq<Seq<char>>,
    pub cursors: Seq<Seq<char>>,
    pub pages: usize,
}

/// What was read for a connection, in one generation of the configuration.
#[derive(Debug, Clone, PartialEq, Eq)]
pub struct ProviderSyncResult {
    pub source: ProviderProfile,
    pub generation: u64,
    pub live: Vec<LiveModel>,
    pub incompatible: Vec<String>,
    pub compatible: Vec<String>,
}

pub struct SyncView {
    pub source: ProviderView,
    pub generation: u64,
    pub live: Seq<LiveModelView>,
    pub incompatible: Seq<Seq<char>>,
    pub compatible: Seq<Seq<char>>,
}

impl DeepView for ProviderSyncResult {
    type V = SyncView;

    open spec fn deep_view(&self) -> SyncView {
        SyncView {
            source: self.source.deep_view(),
            generation: self.generation,
            live: self.live.deep_view(),
            incompatible: self.incompatible.deep_view(),
            compatible: self.compatible.deep_view(),
        }
    }
}

impl ProviderSyncOperation {
    /// What was said so far.
    pub open spec fn listing(&self) -> ListingView {
        ListingView {
            live: self.live.deep_view(),
            incompatible: self.incompatible.deep_view(),
            compatible: self.compatible.deep_view(),
            cursors: self.cursors.deep_view(),
            pages: self.pages,
        }
    }
}

/// Before the first page.
pub open spec fn no_listing() -> ListingView {
    ListingView {
        live: Seq::empty(),
        incompatible: Seq::empty(),
        compatible: Seq::empty(),
        cursors: Seq::empty(),
        pages: 0,
    }
}

/// The listing with one more page.
pub open spec fn with_page(listing: ListingView, page: DecodedPageView) -> ListingView {
    ListingView {
        live: listing.live + page.page.models,
        incompatible: listing.incompatible + page.incompatible,
        compatible: listing.compatible + page.compatible,
        cursors: match page.page.next_cursor {
            Some(next) => sorted::inserted(listing.cursors, next),
            None => listing.cursors,
        },
        pages: (listing.pages + 1) as usize,
    }
}

/// How to go on after a page: nothing is left, or another page follows. A cursor
/// that came before would not end, and neither may a directory of too many pages.
pub open spec fn next_of(listing: ListingView, page: DecodedPageView) -> Result<
    Option<Seq<char>>,
    StoreErrorView,
> {
    match page.page.next_cursor {
        None => Ok(None),
        Some(next) => if listing.cursors.contains(next) || listing.pages + 1 >= MAX_PAGES {
            Err(StoreErrorView::InvalidPagination)
        } else {
            Ok(Some(next))
        },
    }
}

/// What was read, of a listing.
pub open spec fn read_of(source: ProviderView, generation: u64, listing: ListingView) -> SyncView {
    SyncView {
        source,
        generation,
        live: listing.live,
        incompatible: listing.incompatible,
        compatible: listing.compatible,
    }
}

impl ProviderSyncOperation {
    pub fn new(source: ProviderProfile, generation: u64) -> (operation: Self)
        ensures
            operation.source == source,
            operation.generation == generation,
            operation.listing() == no_listing(),
    {
        let operation = ProviderSyncOperation {
            source,
            generation,
            live: Vec::new(),
            incompatible: Vec::new(),
            compatible: Vec::new(),
            cursors: Vec::new(),
            pages: 0,
        };
        assert(operation.listing().live =~= Seq::empty());
        assert(operation.listing().incompatible =~= Seq::empty());
        assert(operation.listing().compatible =~= Seq::empty());
        assert(operation.listing().cursors =~= Seq::empty());
        operation
    }

    /// Takes a page in, and gives the cursor of the next one.
    pub fn accept(&mut self, page: DecodedModelPage) -> (result: Result<
        Option<String>,
        ProviderStoreError,
    >)
        requires
            old(self).pages < MAX_PAGES,
        ensures
            final(self).source == old(self).source,
            final(self).generation == old(self).generation,
            final(self).listing() == with_page(old(self).listing(), page.deep_view()),
            views::res(result) == next_of(old(self).listing(), page.deep_view()),
    {
        let mut page = page;
        append(&mut self.live, &mut page.page.models);
        append(&mut self.incompatible, &mut page.incompatible_model_ids);
        append(&mut self.compatible, &mut page.explicitly_compatible_model_ids);
        self.pages = self.pages + 1;
        match page.page.next_cursor {
            None => Ok(None),
            Some(next) => {
                let repeated = sorted::holds(&self.cursors, &next);
                sorted::insert(&mut self.cursors, &next);
                if repeated || self.pages >= MAX_PAGES {
                    Err(ProviderStoreError::InvalidPagination)
                } else {
                    Ok(Some(next))
                }
            },
        }
    }

    /// Whether the requests are to be authenticated, given whether an authenticator
    /// is registered. A directory that would need one is refused without.
    pub fn check_authenticator(&self, registered: bool) -> (result: Result<bool, ProviderStoreError>)
        ensures
            match result {
                Ok(needed) => needed == (self.source.auth is Some) && (needed ==> registered),
                Err(error) => !registered && (self.source.auth matches Some(strategy)
                    && error.deep_view() == (StoreErrorView::MissingAuthenticator {
                    profile_name: self.source.profile_name@,
                    strategy: strategy@,
                })),
            },
    {
        match &self.source.auth {
            None => Ok(false),
            Some(strategy) => if registered {
                Ok(true)
            } else {
                Err(
                    ProviderStoreError::MissingAuthenticator {
                        profile_name: self.source.profile_name.clone(),
                        strategy: strategy.clone(),
                    },
                )
            },
        }
    }

    /// What was read, after the last page.
    pub fn finish(self) -> (result: ProviderSyncResult)
        ensures
            result.deep_view() == read_of(
                self.source.deep_view(),
                self.generation,
                self.listing(),
            ),
    {
        ProviderSyncResult {
            source: self.source,
            generation: self.generation,
            live: self.live,
            incompatible: self.incompatible,
            compatible: self.compatible,
        }
    }
}

fn append<T: DeepView>(out: &mut Vec<T>, more: &mut Vec<T>)
    ensures
        final(out).deep_view() == old(out).deep_view() + old(more).deep_view(),
{
    let ghost front = out.deep_view();
    let ghost back = more.deep_view();
    out.append(more);
    assert(out.deep_view() =~= front + back);
}

/// A walk of a directory ends: each page that is gone on from brings a cursor that
/// did not come before, and their number is bounded.
pub proof fn a_walk_ends(listing: ListingView, page: DecodedPageView)
    requires
        listing.pages < MAX_PAGES,
        next_of(listing, page) matches Ok(Some(_)),
    ensures
        with_page(listing, page).pages == listing.pages + 1,
        with_page(listing, page).pages < MAX_PAGES,
        !listing.cursors.contains(page.page.next_cursor->0),
        with_page(listing, page).cursors.contains(page.page.next_cursor->0),
{
    sorted::inserting_adds_one_text(
        listing.cursors,
        page.page.next_cursor->0,
        page.page.next_cursor->0,
    );
}

/// Whether a row shows the model.
pub open spec fn shows(rows: Seq<ConfiguredView>, wire: Seq<char>) -> bool {
    exists|i: int| 0 <= i < rows.len() && (#[trigger] rows[i]).model.request_model == wire
}

fn is_shown(rows: &Vec<ConfiguredModel>, wire: &str) -> (result: bool)
    ensures
        result == shows(rows.deep_view(), wire@),
{
    let mut i: usize = 0;
    while i < rows.len()
        invariant
            i <= rows.len(),
            forall|k: int|
                0 <= k < i ==> (#[trigger] rows.deep_view()[k]).model.request_model != wire@,
        decreases rows.len() - i,
    {
        assert(rows.deep_view()[i as int] == rows@[i as int].deep_view());
        if text::same(&rows[i].model.request_model, wire) {
            return true;
        }
        i = i + 1;
    }
    assert(rows.deep_view().len() == rows@.len());
    false
}

/// Whether a row stands for a default of the model, with nothing in its place.
pub open spec fn stands_for(row: RowView, wire: Seq<char>) -> bool {
    !row.replacement && row.definition_key is Some && row.definition_key->0.wire == wire
}

/// A row whose default left, brought back by an observation.
pub open spec fn restored(row: RowView, wire: Seq<char>) -> RowView {
    if stands_for(row, wire) {
        RowView { observed: true, initial: Some(model::bare_model(wire)), ..row }
    } else {
        row
    }
}

/// Whether a row can be brought back.
pub open spec fn restorable(rows: Seq<RowView>, wire: Seq<char>) -> bool {
    exists|i: int| 0 <= i < rows.len() && stands_for(#[trigger] rows[i], wire)
}

/// The id of an observed row.
pub open spec fn observed_id(wire: Seq<char>, n: int) -> Seq<char> {
    "observed:"@ + wire + ":"@ + text::decimal_text(n as nat)
}

/// The first id that no row has, from the `n`th on.
pub open spec fn free_id(rows: Seq<RowView>, wire: Seq<char>, n: int) -> Seq<char>
    decreases rows.len() - n,
{
    if n < 0 || n >= rows.len() || merge::row_place(rows, observed_id(wire, n), 0) is None {
        observed_id(wire, n)
    } else {
        free_id(rows, wire, n + 1)
    }
}

/// The rows with the model that a directory listed and none of them shows.
pub open spec fn with_live_row(rows: Seq<RowView>, wire: Seq<char>) -> Seq<RowView> {
    if restorable(rows, wire) {
        Seq::new(rows.len(), |i: int| restored(rows[i], wire))
    } else {
        rows.push(
            RowView {
                id: free_id(rows, wire, 0),
                definition_key: None,
                initial: Some(model::bare_model(wire)),
                replacement: false,
                observed: true,
                overrides: model::no_overrides(),
            },
        )
    }
}

fn new_id(rows: &Vec<ModelRow>, wire: &str) -> (id: String)
    ensures
        id@ == free_id(rows.deep_view(), wire@, 0),
{
    let mut n: usize = 0;
    assert(rows.deep_view().len() == rows@.len());
    while n < rows.len()
        invariant
            n <= rows.len() == rows.deep_view().len(),
            free_id(rows.deep_view(), wire@, 0) == free_id(rows.deep_view(), wire@, n as int),
        decreases rows.len() - n,
    {
        let id = text::cat4("observed:", wire, ":", &text::decimal(n as u64));
        if merge::find_row(rows, &id).is_none() {
            return id;
        }
        n = n + 1;
    }
    text::cat4("observed:", wire, ":", &text::decimal(n as u64))
}

fn restore(rows: &Vec<ModelRow>, wire: &str) -> (result: (Vec<ModelRow>, bool))
    ensures
        result.0.deep_view() == Seq::new(
            rows@.len(),
            |i: int| restored(rows.deep_view()[i], wire@),
        ),
        result.1 == restorable(rows.deep_view(), wire@),
{
    let mut out: Vec<ModelRow> = Vec::new();
    let mut any = false;
    let mut i: usize = 0;
    assert(rows.deep_view().len() == rows@.len());
    while i < rows.len()
        invariant
            i <= rows.len() == rows.deep_view().len(),
            out.len() == i,
            any == (exists|k: int|
                0 <= k < i && stands_for(#[trigger] rows.deep_view()[k], wire@)),
            forall|k: int|
                0 <= k < i ==> #[trigger] out.deep_view()[k] == restored(
                    rows.deep_view()[k],
                    wire@,
                ),
        decreases rows.len() - i,
    {
        assert(rows.deep_view()[i as int] == rows@[i as int].deep_view());
        let mut row = rows[i].duplicate();
        let stands = match &rows[i].definition_key {
            Some(key) => !rows[i].replacement && text::same(&key.wire, wire),
            None => false,
        };
        if stands {
            row.observed = true;
            row.initial = Some(model::empty_model(wire));
            any = true;
        }
        let ghost before = out.deep_view();
        out.push(row);
        assert(out.deep_view() == before.push(row.deep_view()));
        i = i + 1;
    }
    assert(out.deep_view() =~= Seq::new(
        rows@.len(),
        |i: int| restored(rows.deep_view()[i], wire@),
    ));
    (out, any)
}

fn add_live_row(rows: &Vec<ModelRow>, wire: &str) -> (result: Vec<ModelRow>)
    ensures
        result.deep_view() == with_live_row(rows.deep_view(), wire@),
{
    let (restored, any) = restore(rows, wire);
    assert(rows.deep_view().len() == rows@.len());
    if any {
        return restored;
    }
    let mut out = rows.duplicate();
    out.push(
        ModelRow {
            id: new_id(rows, wire),
            definition_key: None,
            initial: Some(model::empty_model(wire)),
            replacement: false,
            observed: true,
            overrides: ModelOverrides::default(),
        },
    );
    out
}

/// The features that were observed, with those of another observation.
pub open spec fn merged_features(held: Option<FeaturesView>, live: Option<FeaturesView>) -> Option<
    FeaturesView,
> {
    match live {
        None => held,
        Some(observed) => Some(
            features::overlaid(
                match held {
                    Some(held) => held,
                    None => features::no_features(),
                },
                observed,
            ),
        ),
    }
}

/// What was observed of a model, with what a directory lists now. A model that no
/// row shows is described by its name where the directory describes it no better.
pub open spec fn with_live(held: ObservationView, live: LiveModelView, exists_already: bool) -> ObservationView {
    ObservationView {
        description: match live.description {
            Some(description) => Some(description),
            None => if exists_already {
                held.description
            } else {
                merge::latest(held.description, live.display_name)
            },
        },
        context_window: merge::latest(held.context_window, live.context_window),
        max_output_tokens: merge::latest(held.max_output_tokens, live.max_output_tokens),
        inference_features: merged_features(held.inference_features, live.inference_features),
    }
}

fn merge_features(held: &Option<InferenceFeatures>, live: &Option<InferenceFeatures>) -> (result:
    Option<InferenceFeatures>)
    ensures
        result.deep_view() == merged_features(held.deep_view(), live.deep_view()),
{
    match live {
        None => held.duplicate(),
        Some(observed) => {
            let mut features = match held {
                Some(features) => features.dup(),
                None => InferenceFeatures::default(),
            };
            features.overlay(observed);
            Some(features)
        },
    }
}

fn newest<T: Content>(held: &Option<T>, observed: &Option<T>) -> (result: Option<T>)
    ensures
        result.deep_view() == merge::latest(held.deep_view(), observed.deep_view()),
{
    match observed {
        Some(value) => Some(value.duplicate()),
        None => held.duplicate(),
    }
}

fn add_live(held: &Observation, live: &LiveModel, exists_already: bool) -> (result: Observation)
    ensures
        result.deep_view() == with_live(held.deep_view(), live.deep_view(), exists_already),
{
    let description = match &live.description {
        Some(description) => Some(description.clone()),
        None => if exists_already {
            held.description.duplicate()
        } else {
            newest(&held.description, &live.display_name)
        },
    };
    Observation {
        description,
        context_window: newest(&held.context_window, &live.context_window),
        max_output_tokens: newest(&held.max_output_tokens, &live.max_output_tokens),
        inference_features: merge_features(&held.inference_features, &live.inference_features),
    }
}

/// Whether a listed model is taken in: it is tracked, and serves the wire.
pub open spec fn taken(saved: SavedView, ids: Seq<Seq<char>>, live: LiveModelView) -> bool {
    ids.contains(live.request_model) && !saved.incompatible_models.contains(live.request_model)
}

/// The account with a listed model.
pub open spec fn with_model(saved: SavedView, live: LiveModelView, definitions: DefinitionsView) -> SavedView {
    let wire = live.request_model;
    let exists_already = shows(merge::rows_of(saved, definitions), wire);
    SavedView {
        models: if exists_already {
            saved.models
        } else {
            with_live_row(saved.models, wire)
        },
        observations: sorted::put(
            saved.observations,
            wire,
            with_live(
                match sorted::found(saved.observations, wire, 0) {
                    Some(held) => held,
                    None => model::no_observation(),
                },
                live,
                exists_already,
            ),
        ),
        ..saved
    }
}

/// The account with the listed models from the `i`th on, and how many were taken.
pub open spec fn with_models(
    saved: SavedView,
    ids: Seq<Seq<char>>,
    live: Seq<LiveModelView>,
    definitions: DefinitionsView,
    i: int,
    count: int,
) -> (SavedView, int)
    decreases live.len() - i,
{
    if i < 0 || i >= live.len() {
        (saved, count)
    } else if taken(saved, ids, live[i]) {
        with_models(
            with_model(saved, live[i], definitions),
            ids,
            live,
            definitions,
            i + 1,
            count + 1,
        )
    } else {
        with_models(saved, ids, live, definitions, i + 1, count)
    }
}

/// The account with what a directory says of operations: those that do not serve
/// the wire, without those that do.
pub open spec fn with_operations(saved: SavedView, listing: SyncView) -> SavedView {
    SavedView {
        incompatible_models: sorted::dropped(
            sorted::extended(saved.incompatible_models, listing.incompatible, 0),
            listing.compatible,
            0,
            Seq::empty(),
        ),
        ..saved
    }
}

fn add_model(saved: SavedProfile, live: &LiveModel, definitions: &Definitions) -> (result:
    SavedProfile)
    ensures
        result.deep_view() == with_model(
            saved.deep_view(),
            live.deep_view(),
            definitions.deep_view(),
        ),
{
    let wire = live.request_model.as_str();
    let exists_already = is_shown(&saved.rows(definitions), wire);
    let held = match sorted::find(&saved.observations, wire) {
        Some(held) => held.duplicate(),
        None => Observation::default(),
    };
    let mut out = saved;
    if !exists_already {
        out.models = add_live_row(&out.models, wire);
    }
    sorted::set(&mut out.observations, wire, add_live(&held, live, exists_already));
    out
}

fn add_models(
    saved: SavedProfile,
    ids: &Vec<String>,
    live: &Vec<LiveModel>,
    definitions: &Definitions,
) -> (result: (SavedProfile, usize))
    ensures
        (result.0.deep_view(), result.1 as int) == with_models(
            saved.deep_view(),
            ids.deep_view(),
            live.deep_view(),
            definitions.deep_view(),
            0,
            0,
        ),
{
    let ghost first = saved.deep_view();
    let mut out = saved;
    let mut count: usize = 0;
    let mut i: usize = 0;
    while i < live.len()
        invariant
            i <= live.len(),
            count <= i,
            with_models(
                first,
                ids.deep_view(),
                live.deep_view(),
                definitions.deep_view(),
                0,
                0,
            ) == with_models(
                out.deep_view(),
                ids.deep_view(),
                live.deep_view(),
                definitions.deep_view(),
                i as int,
                count as int,
            ),
        decreases live.len() - i,
    {
        assert(live.deep_view()[i as int] == live@[i as int].deep_view());
        if sorted::holds(ids, &live[i].request_model) && !sorted::holds(
            &out.incompatible_models,
            &live[i].request_model,
        ) {
            out = add_model(out, &live[i], definitions);
            count = count + 1;
        }
        i = i + 1;
    }
    (out, count)
}

/// Whether a connection that a directory was read for is still the one that the
/// configuration shows.
pub open spec fn still_shown(
    config: ConfigView,
    definitions: DefinitionsView,
    source: ProviderView,
) -> Option<StoreErrorView> {
    match merge::named(
        state::profiles_of(config, definitions, false),
        source.profile_name,
        0,
    ) {
        None => Some(StoreErrorView::UnknownProfile(source.profile_name)),
        Some(current) => if state::alike_connections(current, source) {
            None
        } else {
            Some(StoreErrorView::ProfileChanged(source.profile_name))
        },
    }
}

/// Refuses a source that the configuration no longer shows as it is.
pub fn check_source(
    config: &SavedConfig,
    definitions: &Definitions,
    source: &ProviderProfile,
) -> (result: Result<(), ProviderStoreError>)
    ensures
        match still_shown(config.deep_view(), definitions.deep_view(), source.deep_view()) {
            None => result is Ok,
            Some(error) => result matches Err(found) && found.deep_view() == error,
        },
{
    let profiles = config.profiles(definitions, false);
    match merge::find_named(&profiles, &source.profile_name) {
        None => Err(ProviderStoreError::UnknownProfile(source.profile_name.clone())),
        Some(current) => if state::same_connection(current, source) {
            Ok(())
        } else {
            Err(ProviderStoreError::ProfileChanged(source.profile_name.clone()))
        },
    }
}

/// A configuration with what a directory said of one of its connections, and how
/// many models were taken; or why it is not taken in.
pub open spec fn committed(config: ConfigView, definitions: DefinitionsView, listing: SyncView) -> Result<
    (ConfigView, int),
    StoreErrorView,
> {
    let source = listing.source;
    match still_shown(config, definitions, source) {
        Some(error) => Err(error),
        None => match coordinator::open_account(config, source.profile_name) {
            Err(error) => Err(error),
            Ok(place) => {
                let (saved, count) = with_models(
                    with_operations(config.providers[place], listing),
                    state::tracked_of(config, source.provider_id),
                    listing.live,
                    definitions,
                    0,
                    0,
                );
                Ok(
                    (
                        state::all_refreshed(
                            ConfigView {
                                providers: config.providers.update(place, saved),
                                ..config
                            },
                            definitions,
                        ),
                        count,
                    ),
                )
            },
        },
    }
}

impl ProviderSyncResult {
    /// An account with what was read of its connection, and how many models were
    /// taken.
    fn added_to(&self, account: &SavedProfile, ids: &Vec<String>, definitions: &Definitions) -> (result:
        (SavedProfile, usize))
        ensures
            (result.0.deep_view(), result.1 as int) == with_models(
                with_operations(account.deep_view(), self.deep_view()),
                ids.deep_view(),
                self.deep_view().live,
                definitions.deep_view(),
                0,
                0,
            ),
    {
        let mut saved = account.duplicate();
        sorted::extend(&mut saved.incompatible_models, &self.incompatible);
        saved.incompatible_models = sorted::without(&saved.incompatible_models, &self.compatible);
        assert(saved.deep_view() == with_operations(account.deep_view(), self.deep_view()));
        add_models(saved, ids, &self.live, definitions)
    }

    /// Takes what was read into the account of its connection, and gives how many
    /// models were taken. The configuration is one that was prepared for a change;
    /// where the connection is no longer its own it is left as it is.
    #[verifier::spinoff_prover]
    pub fn commit(&self, config: &mut SavedConfig, definitions: &Definitions) -> (result: Result<
        usize,
        ProviderStoreError,
    >)
        ensures
            match committed(old(config).deep_view(), definitions.deep_view(), self.deep_view()) {
                Ok((after, count)) => final(config).deep_view() == after && (result matches Ok(n)
                    && n == count),
                Err(error) => final(config).deep_view() == old(config).deep_view() && (
                result matches Err(found) && found.deep_view() == error),
            },
    {
        check_source(config, definitions, &self.source)?;
        let place = coordinator::profile(config, &self.source.profile_name)?;
        let ids = state::followed(config, &self.source.provider_id);
        let ghost before = config.deep_view();
        assert(before.providers[place as int] == config.providers@[place as int].deep_view());
        let (saved, count) = self.added_to(&config.providers[place], &ids, definitions);
        config.providers.set(place, saved);
        assert(config.deep_view().providers =~= before.providers.update(
            place as int,
            saved.deep_view(),
        ));
        config.refresh_fallbacks(definitions);
        Ok(count)
    }
}

/// A model that is known to serve the wire is not held back, whatever was said of
/// it before.
pub proof fn a_compatible_model_is_not_held_back(saved: SavedView, listing: SyncView, wire: Seq<char>)
    requires
        listing.compatible.contains(wire),
    ensures
        !with_operations(saved, listing).incompatible_models.contains(wire),
{
    lemma_dropped(
        sorted::extended(saved.incompatible_models, listing.incompatible, 0),
        listing.compatible,
        0,
        Seq::empty(),
        wire,
    );
}

proof fn lemma_dropped(
    set: Seq<Seq<char>>,
    drop: Seq<Seq<char>>,
    i: int,
    before: Seq<Seq<char>>,
    wire: Seq<char>,
)
    requires
        i >= 0,
        drop.contains(wire),
        !before.contains(wire),
    ensures
        !sorted::dropped(set, drop, i, before).contains(wire),
    decreases set.len() - i,
{
    if i < set.len() {
        let more = if drop.contains(set[i]) {
            before
        } else {
            before.push(set[i])
        };
        assert(!more.contains(wire)) by {
            if more.contains(wire) {
                let k = choose|k: int| 0 <= k < more.len() && more[k] == wire;
                if k < before.len() {
                    assert(before[k] == wire);
                }
            }
        }
        lemma_dropped(set, drop, i + 1, more, wire);
    }
}

} // verus!
