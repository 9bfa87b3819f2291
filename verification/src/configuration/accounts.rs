//! What is stored of the accounts, what is shown of them, and what a change leaves alone.

use crate::codecs::extras;
use crate::configuration::coordinator;
use crate::configuration::merge::{self, DefinitionsView};
use crate::configuration::model::{
    ConfigView, ConfiguredView, KeyView, ObservationView, RowView, SavedView,
};
use crate::configuration::repository;
use crate::configuration::state;
use crate::configuration::sync::{self, SyncView};
use crate::directory::LiveModelView;
use crate::json::{self, Entries, JsonView, NumberView};
use crate::protocol::{ModelView, ProviderView};
use crate::text;
use vstd::prelude::*;

verus! {

proof fn lemma_no_credential(headers: Entries, i: int)
    requires
        0 <= i <= headers.len(),
    ensures
        !repository::names_a_credential(headers, i) <==> forall|k: int|
            i <= k < headers.len() ==> !extras::reserved_header(
                text::lower((#[trigger] headers[k]).0),
            ),
    decreases headers.len() - i,
{
    if i < headers.len() {
        lemma_no_credential(headers, i + 1);
    }
}

proof fn lemma_no_fault(providers: Seq<SavedView>, from: int, i: int)
    requires
        0 <= from <= i < providers.len(),
        repository::first_fault(providers, from) is None,
    ensures
        repository::fault_of(providers, i) is None,
    decreases i - from,
{
    if from < i {
        lemma_no_fault(providers, from + 1, i);
    }
}

/// A profile holds no secret of its own: no credential, and no header that carries one,
/// in whatever case its name is written.
pub open spec fn keeps_no_secret(profile: ProviderView) -> bool {
    &&& !profile.static_credential
    &&& forall|headers: Entries, k: int|
        json::member(profile.extra, "headers"@) == Some(JsonView::Object(headers)) && 0 <= k
            < headers.len() ==> {
            let name = text::lower((#[trigger] headers[k]).0);
            &&& name != "authorization"@
            &&& name != "proxy-authorization"@
            &&& name != "x-api-key"@
            &&& name != "api-key"@
            &&& name != "cookie"@
        }
}

/// A configuration that is accepted for storing keeps no secret of any account, has one
/// account for a name, and one row for an id.
pub proof fn no_secret_is_stored(providers: Seq<SavedView>, i: int)
    requires
        0 <= i < providers.len(),
        repository::first_fault(providers, 0) is None,
    ensures
        keeps_no_secret(providers[i].connection),
        keeps_no_secret(providers[i].fallback),
        forall|k: int|
            0 <= k < i ==> (#[trigger] providers[k]).connection.profile_name
                != providers[i].connection.profile_name,
        forall|a: int, b: int|
            0 <= a < b < providers[i].models.len() ==> (#[trigger] providers[i].models[a]).id != (
            #[trigger] providers[i].models[b]).id,
{
    lemma_no_fault(providers, 0, i);
    lemma_no_credential(repository::headers_of(providers[i].connection), 0);
    lemma_no_credential(repository::headers_of(providers[i].fallback), 0);
    assert(repository::secret_in(providers[i].connection) is None);
    assert(repository::secret_in(providers[i].fallback) is None);
    let rows = providers[i].models;
    assert forall|a: int, b: int| 0 <= a < b < rows.len() implies (#[trigger] rows[a]).id != (
    #[trigger] rows[b]).id by {
        assert(!repository::id_before(rows, b));
    }
}

proof fn lemma_fault(providers: Seq<SavedView>, from: int, i: int)
    requires
        0 <= from <= i < providers.len(),
        repository::fault_of(providers, i) is Some,
    ensures
        repository::first_fault(providers, from) is Some,
    decreases i - from,
{
    if from < i {
        lemma_fault(providers, from + 1, i);
    }
}

/// A configuration with a secret in an account is refused.
pub proof fn a_secret_is_refused(providers: Seq<SavedView>, i: int)
    requires
        0 <= i < providers.len(),
    ensures
        !keeps_no_secret(providers[i].connection) || !keeps_no_secret(providers[i].fallback)
            ==> repository::first_fault(providers, 0) is Some,
{
    lemma_no_credential(repository::headers_of(providers[i].connection), 0);
    lemma_no_credential(repository::headers_of(providers[i].fallback), 0);
    if repository::secret_in(providers[i].connection) is Some || repository::secret_in(
        providers[i].fallback,
    ) is Some {
        lemma_fault(providers, 0, i);
    }
}

/// The version of a file is the number that it states.
pub proof fn a_file_states_its_version(fields: Entries, version: u64)
    requires
        json::entry(fields, "version"@) == Some(JsonView::Number(NumberView::PosInt(version))),
    ensures
        repository::version_in(JsonView::Object(fields)) == version,
{
}

proof fn lemma_profiles(
    config: ConfigView,
    definitions: DefinitionsView,
    executable: bool,
    i: int,
    before: Seq<ProviderView>,
)
    requires
        0 <= i <= config.providers.len(),
    ensures
        ({
            let all = state::profiles_from(config, definitions, executable, i, before);
            &&& all.len() >= before.len()
            &&& forall|k: int| 0 <= k < before.len() ==> #[trigger] all[k] == before[k]
            &&& forall|k: int|
                before.len() <= k < all.len() ==> !config.deleted_profiles.contains(
                    (#[trigger] all[k]).profile_name,
                )
            &&& forall|j: int|
                i <= j < config.providers.len() && !config.deleted_profiles.contains(
                    (#[trigger] config.providers[j]).connection.profile_name,
                ) ==> all.contains(
                    state::shown(config.providers[j], definitions, executable),
                )
        }),
    decreases config.providers.len() - i,
{
    if i < config.providers.len() {
        let saved = config.providers[i];
        let next = if config.deleted_profiles.contains(saved.connection.profile_name) {
            before
        } else {
            before.push(state::shown(saved, definitions, executable))
        };
        lemma_profiles(config, definitions, executable, i + 1, next);
        let all = state::profiles_from(config, definitions, executable, i, before);
        assert forall|k: int| 0 <= k < before.len() implies #[trigger] all[k] == before[k] by {
            assert(next[k] == before[k]);
        }
        if !config.deleted_profiles.contains(saved.connection.profile_name) {
            assert(all[before.len() as int] == next[before.len() as int]);
        }
    }
}

/// A profile that was deleted is not shown, and every account that was not is shown, with
/// its own connection.
pub proof fn a_deleted_profile_is_not_shown(
    config: ConfigView,
    definitions: DefinitionsView,
    executable: bool,
    name: Seq<char>,
    j: int,
)
    ensures
        ({
            let all = state::profiles_of(config, definitions, executable);
            let accounts = state::with_definitions(config, definitions).providers;
            &&& config.deleted_profiles.contains(name) ==> merge::named(all, name, 0) is None
            &&& 0 <= j < accounts.len() && !config.deleted_profiles.contains(
                accounts[j].connection.profile_name,
            ) ==> exists|k: int|
                0 <= k < all.len() && state::without_models(#[trigger] all[k])
                    == state::without_models(
                    (ProviderView { images: all[k].images, ..accounts[j].connection }),
                )
        }),
{
    let ensured = state::with_definitions(config, definitions);
    let all = state::profiles_of(config, definitions, executable);
    lemma_profiles(ensured, definitions, executable, 0, Seq::empty());
    if config.deleted_profiles.contains(name) {
        lemma_not_named(all, name, 0);
    }
    if 0 <= j < ensured.providers.len() && !config.deleted_profiles.contains(
        ensured.providers[j].connection.profile_name,
    ) {
        let one = state::shown(ensured.providers[j], definitions, executable);
        assert(all.contains(one));
        let k = choose|k: int| 0 <= k < all.len() && all[k] == one;
        assert(state::without_models(all[k]) == state::without_models(
            (ProviderView { images: all[k].images, ..ensured.providers[j].connection }),
        ));
    }
}

proof fn lemma_not_named(profiles: Seq<ProviderView>, name: Seq<char>, i: int)
    requires
        0 <= i,
        forall|k: int| 0 <= k < profiles.len() ==> (#[trigger] profiles[k]).profile_name != name,
    ensures
        merge::named(profiles, name, i) is None,
    decreases profiles.len() - i,
{
    if i < profiles.len() {
        lemma_not_named(profiles, name, i + 1);
    }
}

proof fn lemma_models_shown(
    rows: Seq<ConfiguredView>,
    executable: bool,
    i: int,
    before: Seq<ModelView>,
)
    requires
        0 <= i <= rows.len(),
    ensures
        ({
            let all = state::models_shown(rows, executable, i, before);
            &&& all.len() >= before.len()
            &&& forall|k: int| 0 <= k < before.len() ==> #[trigger] all[k] == before[k]
            &&& forall|k: int|
                before.len() <= k < all.len() ==> exists|j: int|
                    i <= j < rows.len() && (#[trigger] rows[j]).model == #[trigger] all[k] && (
                    !executable || rows[j].compatible)
            &&& forall|j: int|
                i <= j < rows.len() && (!executable || (#[trigger] rows[j]).compatible)
                    ==> all.contains(rows[j].model)
        }),
    decreases rows.len() - i,
{
    if i < rows.len() {
        let next = if !executable || rows[i].compatible {
            before.push(rows[i].model)
        } else {
            before
        };
        lemma_models_shown(rows, executable, i + 1, next);
        let all = state::models_shown(rows, executable, i, before);
        assert forall|k: int| 0 <= k < before.len() implies #[trigger] all[k] == before[k] by {
            assert(next[k] == before[k]);
        }
        if !executable || rows[i].compatible {
            assert(all[before.len() as int] == next[before.len() as int]);
            assert forall|k: int| before.len() <= k < all.len() implies exists|j: int|
                i <= j < rows.len() && (#[trigger] rows[j]).model == #[trigger] all[k] && (
                !executable || rows[j].compatible) by {
                if k == before.len() {
                    assert(rows[i].model == all[k]);
                }
            }
        }
    }
}

/// What can be called is what the account has and what serves its wire: a row that does
/// not is left out, and every other row is there.
pub proof fn what_is_callable_serves_the_wire(
    saved: SavedView,
    definitions: DefinitionsView,
    j: int,
    k: int,
)
    ensures
        ({
            let rows = merge::rows_of(saved, definitions);
            let models = state::shown(saved, definitions, true).models;
            &&& 0 <= j < rows.len() && rows[j].compatible ==> models.contains(rows[j].model)
            &&& 0 <= k < models.len() ==> exists|n: int|
                0 <= n < rows.len() && (#[trigger] rows[n]).compatible && rows[n].model == models[k]
            &&& 0 <= j < rows.len() ==> state::shown(saved, definitions, false).models.contains(
                rows[j].model,
            )
        }),
{
    let rows = merge::rows_of(saved, definitions);
    lemma_models_shown(rows, true, 0, Seq::empty());
    lemma_models_shown(rows, false, 0, Seq::empty());
    let models = state::shown(saved, definitions, true).models;
    if 0 <= k < models.len() {
        let n = choose|n: int|
            0 <= n < rows.len() && (#[trigger] rows[n]).model == models[k] && rows[n].compatible;
        assert(rows[n].compatible && rows[n].model == models[k]);
    }
}

proof fn lemma_models_kept(models: Seq<ModelView>, ids: Seq<Seq<char>>, i: int, before: Seq<ModelView>)
    requires
        0 <= i <= models.len(),
        forall|k: int| 0 <= k < before.len() ==> ids.contains((#[trigger] before[k]).request_model),
    ensures
        ({
            let all = state::kept_models(models, ids, i, before);
            &&& all.len() >= before.len()
            &&& forall|k: int| 0 <= k < before.len() ==> #[trigger] all[k] == before[k]
            &&& forall|k: int|
                0 <= k < all.len() ==> ids.contains((#[trigger] all[k]).request_model)
            &&& forall|j: int|
                i <= j < models.len() && ids.contains((#[trigger] models[j]).request_model)
                    ==> all.contains(models[j])
        }),
    decreases models.len() - i,
{
    if i < models.len() {
        let next = if ids.contains(models[i].request_model) {
            before.push(models[i])
        } else {
            before
        };
        lemma_models_kept(models, ids, i + 1, next);
        let all = state::kept_models(models, ids, i, before);
        assert forall|k: int| 0 <= k < before.len() implies #[trigger] all[k] == before[k] by {
            assert(next[k] == before[k]);
        }
        if ids.contains(models[i].request_model) {
            assert(all[before.len() as int] == next[before.len() as int]);
        }
    }
}

proof fn lemma_rows_kept(rows: Seq<RowView>, ids: Seq<Seq<char>>, i: int, before: Seq<RowView>)
    requires
        0 <= i <= rows.len(),
        forall|k: int|
            0 <= k < before.len() ==> ids.contains(state::row_wire(#[trigger] before[k])),
    ensures
        ({
            let all = state::kept_rows(rows, ids, i, before);
            &&& all.len() >= before.len()
            &&& forall|k: int| 0 <= k < before.len() ==> #[trigger] all[k] == before[k]
            &&& forall|k: int|
                0 <= k < all.len() ==> ids.contains(state::row_wire(#[trigger] all[k]))
            &&& forall|j: int|
                i <= j < rows.len() && ids.contains(state::row_wire(#[trigger] rows[j]))
                    ==> all.contains(rows[j])
        }),
    decreases rows.len() - i,
{
    if i < rows.len() {
        let next = if ids.contains(state::row_wire(rows[i])) {
            before.push(rows[i])
        } else {
            before
        };
        lemma_rows_kept(rows, ids, i + 1, next);
        let all = state::kept_rows(rows, ids, i, before);
        assert forall|k: int| 0 <= k < before.len() implies #[trigger] all[k] == before[k] by {
            assert(next[k] == before[k]);
        }
        if ids.contains(state::row_wire(rows[i])) {
            assert(all[before.len() as int] == next[before.len() as int]);
        }
    }
}

proof fn lemma_observations_kept(
    seen: Seq<(Seq<char>, ObservationView)>,
    ids: Seq<Seq<char>>,
    i: int,
    before: Seq<(Seq<char>, ObservationView)>,
)
    requires
        0 <= i <= seen.len(),
        forall|k: int| 0 <= k < before.len() ==> ids.contains((#[trigger] before[k]).0),
    ensures
        ({
            let all = state::kept_observations(seen, ids, i, before);
            &&& all.len() >= before.len()
            &&& forall|k: int| 0 <= k < before.len() ==> #[trigger] all[k] == before[k]
            &&& forall|k: int| 0 <= k < all.len() ==> ids.contains((#[trigger] all[k]).0)
            &&& forall|j: int|
                i <= j < seen.len() && ids.contains((#[trigger] seen[j]).0) ==> all.contains(
                    seen[j],
                )
        }),
    decreases seen.len() - i,
{
    if i < seen.len() {
        let next = if ids.contains(seen[i].0) {
            before.push(seen[i])
        } else {
            before
        };
        lemma_observations_kept(seen, ids, i + 1, next);
        let all = state::kept_observations(seen, ids, i, before);
        assert forall|k: int| 0 <= k < before.len() implies #[trigger] all[k] == before[k] by {
            assert(next[k] == before[k]);
        }
        if ids.contains(seen[i].0) {
            assert(all[before.len() as int] == next[before.len() as int]);
        }
    }
}

/// What is stored of an account is what its provider's list of followed models names, and
/// all of that; the connection is stored as it is.
pub proof fn what_is_followed_is_stored(config: ConfigView, i: int, j: int)
    requires
        0 <= i < config.providers.len(),
    ensures
        ({
            let saved = config.providers[i];
            let stored = state::persisted_of(config).providers[i];
            let ids = state::tracked_of(config, saved.connection.provider_id);
            &&& stored.connection == saved.connection
            &&& stored.definition == saved.definition
            &&& stored.removed_defaults == saved.removed_defaults
            &&& 0 <= j < stored.models.len() ==> ids.contains(state::row_wire(stored.models[j]))
            &&& 0 <= j < stored.fallback.models.len() ==> ids.contains(
                stored.fallback.models[j].request_model,
            )
            &&& 0 <= j < stored.observations.len() ==> ids.contains(stored.observations[j].0)
            &&& 0 <= j < saved.models.len() && ids.contains(state::row_wire(saved.models[j]))
                ==> stored.models.contains(saved.models[j])
            &&& 0 <= j < saved.fallback.models.len() && ids.contains(
                saved.fallback.models[j].request_model,
            ) ==> stored.fallback.models.contains(saved.fallback.models[j])
            &&& 0 <= j < saved.observations.len() && ids.contains(saved.observations[j].0)
                ==> stored.observations.contains(saved.observations[j])
        }),
{
    let saved = config.providers[i];
    let ids = state::tracked_of(config, saved.connection.provider_id);
    lemma_models_kept(saved.fallback.models, ids, 0, Seq::empty());
    lemma_rows_kept(saved.models, ids, 0, Seq::empty());
    lemma_observations_kept(saved.observations, ids, 0, Seq::empty());
}

proof fn lemma_place(providers: Seq<SavedView>, name: Seq<char>, i: int)
    requires
        0 <= i,
    ensures
        state::account_place(providers, name, i) matches Some(place) ==> i <= place
            < providers.len() && providers[place].connection.profile_name == name,
    decreases providers.len() - i,
{
    if i < providers.len() {
        lemma_place(providers, name, i + 1);
    }
}

proof fn lemma_learning(
    saved: SavedView,
    ids: Seq<Seq<char>>,
    live: Seq<LiveModelView>,
    definitions: DefinitionsView,
    i: int,
    count: int,
)
    requires
        0 <= i,
    ensures
        ({
            let (after, n) = sync::with_models(saved, ids, live, definitions, i, count);
            &&& n >= count
            &&& after == (SavedView {
                models: after.models,
                observations: after.observations,
                ..saved
            })
        }),
    decreases live.len() - i,
{
    if i < live.len() {
        if sync::taken(saved, ids, live[i]) {
            lemma_learning(
                sync::with_model(saved, live[i], definitions),
                ids,
                live,
                definitions,
                i + 1,
                count + 1,
            );
        } else {
            lemma_learning(saved, ids, live, definitions, i + 1, count);
        }
    }
}

/// What a directory lists is written to the account it was read for and to no other: every
/// connection, every name, what was deleted and what is followed stay as they were. It is
/// written only where the profile is still there and still the same connection.
pub proof fn a_listing_is_written_to_its_own_account(
    config: ConfigView,
    definitions: DefinitionsView,
    listing: SyncView,
    i: int,
)
    ensures
        sync::committed(config, definitions, listing) matches Ok((after, count)) ==> {
            let source = listing.source;
            &&& !config.deleted_profiles.contains(source.profile_name)
            &&& merge::named(
                state::profiles_of(config, definitions, false),
                source.profile_name,
                0,
            ) matches Some(current)
            &&& state::alike_connections(current, source)
            &&& after.deleted_profiles == config.deleted_profiles
            &&& after.tracked_models == config.tracked_models
            &&& after.providers.len() == config.providers.len()
            &&& count >= 0
            &&& 0 <= i < config.providers.len() ==> {
                let saved = config.providers[i];
                let written = after.providers[i];
                &&& written.connection == saved.connection
                &&& written.definition == saved.definition
                &&& written.removed_defaults == saved.removed_defaults
                &&& saved.connection.profile_name != source.profile_name
                    ==> written.observations == saved.observations && written.incompatible_models
                    == saved.incompatible_models
            }
        },
        config.deleted_profiles.contains(listing.source.profile_name) ==> sync::committed(
            config,
            definitions,
            listing,
        ) is Err,
{
    let source = listing.source;
    lemma_place(config.providers, source.profile_name, 0);
    if let Ok(place) = coordinator::open_account(config, source.profile_name) {
        lemma_learning(
            sync::with_operations(config.providers[place], listing),
            state::tracked_of(config, source.provider_id),
            listing.live,
            definitions,
            0,
            0,
        );
    }
}

/// The followed models of a provider are those that the configuration lists for it, and
/// an account of another provider does not share them.
pub proof fn what_is_followed_is_listed(config: ConfigView, provider: Seq<char>, ids: Seq<Seq<char>>, i: int)
    requires
        0 <= i < config.tracked_models.len(),
        config.tracked_models[i] == (provider, ids),
        forall|k: int| 0 <= k < i ==> (#[trigger] config.tracked_models[k]).0 != provider,
    ensures
        state::tracked_of(config, provider) == ids,
{
    lemma_found(config.tracked_models, provider, ids, 0, i);
}

proof fn lemma_found(
    listed: Seq<(Seq<char>, Seq<Seq<char>>)>,
    provider: Seq<char>,
    ids: Seq<Seq<char>>,
    from: int,
    i: int,
)
    requires
        0 <= from <= i < listed.len(),
        listed[i] == (provider, ids),
        forall|k: int| 0 <= k < i ==> (#[trigger] listed[k]).0 != provider,
    ensures
        crate::sorted::found(listed, provider, from) == Some(ids),
    decreases i - from,
{
    if from < i {
        lemma_found(listed, provider, ids, from + 1, i);
    }
}

proof fn lemma_deleted(
    deleted: Seq<Seq<char>>,
    definitions: DefinitionsView,
    i: int,
    before: Seq<Seq<char>>,
    name: Seq<char>,
)
    requires
        0 <= i <= deleted.len(),
    ensures
        coordinator::deleted_presets(deleted, definitions, i, before).contains(name) <==> (
        before.contains(name) || (merge::named(definitions.builtin, name, 0) is Some && exists|
            k: int,
        |
            i <= k < deleted.len() && #[trigger] deleted[k] == name)),
    decreases deleted.len() - i,
{
    if i < deleted.len() {
        let one = deleted[i];
        let next = if merge::named(definitions.builtin, one, 0) is Some {
            before.push(one)
        } else {
            before
        };
        lemma_deleted(deleted, definitions, i + 1, next, name);
        if next.len() > before.len() {
            assert(next[before.len() as int] == one);
            if before.contains(name) {
                let k = choose|k: int| 0 <= k < before.len() && before[k] == name;
                assert(next[k] == name);
            }
            if next.contains(name) && name != one {
                let k = choose|k: int| 0 <= k < next.len() && next[k] == name;
                assert(before[k] == name);
            }
        }
        if exists|k: int| i <= k < deleted.len() && #[trigger] deleted[k] == name {
            let k = choose|k: int| i <= k < deleted.len() && #[trigger] deleted[k] == name;
            if k > i {
                assert(i + 1 <= k && deleted[k] == name);
            }
        }
    }
}

/// The deleted presets are the presets that were deleted.
pub proof fn a_deleted_preset_is_one_that_was_deleted(
    deleted: Seq<Seq<char>>,
    definitions: DefinitionsView,
    name: Seq<char>,
)
    ensures
        coordinator::deleted_presets(deleted, definitions, 0, Seq::empty()).contains(name) <==> (
        deleted.contains(name) && merge::named(definitions.builtin, name, 0) is Some),
{
    lemma_deleted(deleted, definitions, 0, Seq::empty(), name);
    if deleted.contains(name) {
        let k = choose|k: int| 0 <= k < deleted.len() && deleted[k] == name;
        assert(deleted[k] == name);
    }
}

/// An account that is brought up to its definition keeps its connection, what was removed
/// and what was observed, and falls back on the definition of today.
pub proof fn a_refresh_keeps_the_account(config: ConfigView, definitions: DefinitionsView, i: int)
    requires
        0 <= i < config.providers.len(),
    ensures
        ({
            let saved = config.providers[i];
            let after = state::all_refreshed(config, definitions);
            let one = after.providers[i];
            &&& after.deleted_profiles == config.deleted_profiles
            &&& after.tracked_models == config.tracked_models
            &&& one.connection == saved.connection
            &&& one.observations == saved.observations
            &&& one.removed_defaults == saved.removed_defaults
            &&& merge::definition_of(definitions, saved.definition) is None ==> one.fallback
                == saved.fallback
            &&& merge::definition_of(definitions, saved.definition) matches Some(current)
                ==> one.fallback == current
        }),
{
}

/// The name of a row on the wire is that of the definition that it stands for, and else
/// that of the model that it was made with.
pub proof fn a_row_has_the_name_of_its_model(row: RowView)
    ensures
        !row.replacement ==> (row.definition_key matches Some(key) ==> state::row_wire(row)
            == key.wire),
        row.replacement || row.definition_key is None ==> (row.initial matches Some(initial)
            ==> state::row_wire(row) == initial.request_model),
{
}

proof fn lemma_counted(keys: Seq<KeyView>, wire: Seq<char>, n: int)
    requires
        0 <= n <= keys.len(),
    ensures
        forall|a: int| 0 <= a < n && (#[trigger] keys[a]).wire == wire ==> merge::wire_count(
            keys,
            wire,
            n,
        ) >= 1,
        forall|a: int, b: int|
            0 <= a < b < n && (#[trigger] keys[a]).wire == wire && (#[trigger] keys[b]).wire == wire
                ==> merge::wire_count(keys, wire, n) >= 2,
    decreases n,
{
    if n > 0 {
        lemma_counted(keys, wire, n - 1);
    }
}

proof fn lemma_wire_place(keys: Seq<KeyView>, wire: Seq<char>, i: int)
    requires
        0 <= i,
    ensures
        merge::wire_place(keys, wire, i) matches Some(place) ==> i <= place < keys.len()
            && keys[place].wire == wire,
    decreases keys.len() - i,
{
    if i < keys.len() {
        lemma_wire_place(keys, wire, i + 1);
    }
}

/// A row whose definition got another key is keyed anew only where there is no doubt: where
/// one definition alone has the name of its own on the wire. All else of the row stays.
pub proof fn a_row_is_keyed_anew_without_doubt(
    row: RowView,
    keys: Seq<KeyView>,
    rows: Seq<RowView>,
    held: KeyView,
    a: int,
    b: int,
)
    requires
        row.definition_key == Some(held),
    ensures
        ({
            let after = merge::rekeyed(row, keys, rows);
            &&& after == (RowView { definition_key: after.definition_key, ..row })
            &&& 0 <= a < b < keys.len() && keys[a].wire == held.wire && keys[b].wire == held.wire
                ==> after == row
            &&& after != row ==> (after.definition_key matches Some(key) ==> key.wire == held.wire
                && keys.contains(key))
            &&& merge::key_place(keys, held, 0) is Some ==> after == row
        }),
{
    lemma_counted(keys, held.wire, keys.len() as int);
    lemma_wire_place(keys, held.wire, 0);
}

} // verus!
