//! What holds of a configuration, whatever it holds.

use crate::configuration::merge::{self, DefinitionsView};
use crate::configuration::model::{
    self, ConfigView, ConfiguredView, DefinitionRefView, KeyView, RowView, SavedProfile, SavedView,
};
use crate::configuration::state;
use crate::configuration::sync;
use crate::codecs::inference;
use crate::content::Content;
use crate::protocol::features;
use crate::protocol::profile;
use crate::protocol::{FeaturesView, ModelProfile, ModelView, ProviderProfile, ProviderView};
use crate::sorted;
use crate::text;
use vstd::prelude::*;

verus! {

proof fn lemma_occurrences(models: Seq<ModelView>, wire: Seq<char>, label: Seq<char>, n: int, m: int)
    requires
        0 <= n <= m <= models.len(),
    ensures
        merge::occurrences(models, wire, label, n) <= merge::occurrences(models, wire, label, m),
        merge::occurrences(models, wire, label, m) <= m,
    decreases m,
{
    if n < m {
        lemma_occurrences(models, wire, label, n, m - 1);
    } else if m > 0 {
        lemma_occurrences(models, wire, label, m - 1, m - 1);
    }
}

/// No two rows of a list have the same key, also where they share both names.
pub proof fn keys_are_unique(models: Seq<ModelView>, i: int, j: int)
    requires
        models.len() <= usize::MAX,
        0 <= i < j < models.len(),
    ensures
        merge::keys_of(models)[i] != merge::keys_of(models)[j],
{
    let wire = models[i].request_model;
    let label = models[i].display_model;
    if wire == models[j].request_model && label == models[j].display_model {
        lemma_occurrences(models, wire, label, i + 1, j);
        lemma_occurrences(models, wire, label, i, i);
        assert(merge::occurrences(models, wire, label, i + 1) == merge::occurrences(
            models,
            wire,
            label,
            i,
        ) + 1);
    }
}

/// The place of a list's own key is its own.
proof fn lemma_own_key(models: Seq<ModelView>, i: int, from: int)
    requires
        models.len() <= usize::MAX,
        0 <= from <= i < models.len(),
    ensures
        merge::key_place(merge::keys_of(models), merge::keys_of(models)[i], from) == Some(i),
    decreases i - from,
{
    if from < i {
        keys_are_unique(models, from, i);
        lemma_own_key(models, i, from + 1);
    }
}

/// Where every key has its row, no row takes another key.
proof fn lemma_nothing_joins(
    rows: Seq<RowView>,
    keys: Seq<KeyView>,
    removed: Seq<KeyView>,
    i: int,
)
    requires
        i >= 0,
        rows.len() == keys.len(),
        forall|k: int| 0 <= k < keys.len() ==> (#[trigger] rows[k]).definition_key == Some(keys[k]),
    ensures
        merge::joined(rows, keys, i) == rows,
        merge::completed(rows, keys, removed, i) == rows,
    decreases keys.len() - i,
{
    if i < keys.len() {
        assert(rows[i].definition_key == Some(keys[i]));
        assert(merge::keyed(rows, keys[i]));
        lemma_nothing_joins(rows, keys, removed, i + 1);
    }
}

/// The rows of an account that has one for each default are its own.
proof fn lemma_own_rows(saved: SavedView, models: Seq<ModelView>)
    requires
        models.len() <= usize::MAX,
        saved.models.len() == models.len(),
        forall|k: int|
            0 <= k < models.len() ==> (#[trigger] saved.models[k]).definition_key == Some(
                merge::keys_of(models)[k],
            ),
    ensures
        merge::all_rows(saved, merge::keys_of(models)) == saved.models,
{
    let keys = merge::keys_of(models);
    let rows = saved.models;
    let again = Seq::new(rows.len(), |i: int| merge::rekeyed(rows[i], keys, rows));
    assert forall|i: int| 0 <= i < rows.len() implies #[trigger] again[i] == rows[i] by {
        lemma_own_key(models, i, 0);
    }
    assert(again =~= rows);
    lemma_nothing_joins(rows, keys, saved.removed_defaults, 0);
}

/// What rows show that show the models of a connection one by one, as the connection
/// has them.
pub open spec fn shown_as(profile: ProviderView) -> Seq<ConfiguredView> {
    Seq::new(
        profile.models.len(),
        |i: int|
            ConfiguredView {
                row_id: merge::id_of(merge::key_at(profile.models, i)),
                model: merge::on_connection(profile.models[i], profile),
                compatible: true,
            },
    )
}

proof fn lemma_shown(
    rows: Seq<RowView>,
    saved: SavedView,
    keys: Seq<KeyView>,
    models: Seq<ModelView>,
    profile: ProviderView,
    i: int,
    before: Seq<ConfiguredView>,
)
    requires
        0 <= i <= rows.len() == profile.models.len(),
        before == shown_as(profile).take(i),
        forall|k: int|
            0 <= k < rows.len() ==> merge::configured(#[trigger] rows[k], saved, keys, models)
                == Some(shown_as(profile)[k]),
    ensures
        merge::configured_from(rows, saved, keys, models, i, before) == shown_as(profile),
    decreases rows.len() - i,
{
    let shown = shown_as(profile);
    if i < rows.len() {
        assert(merge::configured(rows[i], saved, keys, models) == Some(shown[i]));
        assert(shown.take(i + 1) =~= before.push(shown[i]));
        lemma_shown(rows, saved, keys, models, profile, i + 1, shown.take(i + 1));
    } else {
        assert(shown.take(i) =~= shown);
    }
}

/// An account that inherits a definition shows its models as the connection has them,
/// each as one that can be used.
pub proof fn an_inherited_account_shows_its_definition(
    profile: ProviderView,
    reference: DefinitionRefView,
    definitions: DefinitionsView,
)
    requires
        profile.models.len() <= usize::MAX,
        merge::definition_of(definitions, reference) == Some(profile) || merge::definition_of(
            definitions,
            reference,
        ) is None,
    ensures
        merge::rows_of(merge::inherited_of(profile, reference), definitions) == shown_as(profile),
{
    let saved = merge::inherited_of(profile, reference);
    let models = profile.models;
    let keys = merge::keys_of(models);
    lemma_own_rows(saved, models);
    assert forall|k: int| 0 <= k < saved.models.len() implies merge::configured(
        #[trigger] saved.models[k],
        saved,
        keys,
        models,
    ) == Some(shown_as(profile)[k]) by {
        lemma_own_key(models, k, 0);
        model::no_value_shows_the_base(models[k]);
    }
    assert(shown_as(profile).take(0) =~= Seq::<ConfiguredView>::empty());
    lemma_shown(saved.models, saved, keys, models, profile, 0, Seq::empty());
}

/// Rows that are the same but for the defaults they stand for.
spec fn same_but_keys(a: RowView, b: RowView) -> bool {
    RowView { definition_key: None, ..a } == RowView { definition_key: None, ..b }
}

/// A row that replaces a model joins no default.
proof fn lemma_replacements_stay(rows: Seq<RowView>, keys: Seq<KeyView>, i: int)
    requires
        i >= 0,
        forall|k: int| 0 <= k < rows.len() ==> (#[trigger] rows[k]).replacement,
    ensures
        merge::joined(rows, keys, i) == rows,
    decreases keys.len() - i,
{
    if i < keys.len() {
        lemma_no_joiner(rows, keys[i].wire, 0);
        lemma_replacements_stay(rows, keys, i + 1);
    }
}

proof fn lemma_no_joiner(rows: Seq<RowView>, wire: Seq<char>, i: int)
    requires
        i >= 0,
        forall|k: int| 0 <= k < rows.len() ==> (#[trigger] rows[k]).replacement,
    ensures
        merge::waiting_place(rows, wire, i) is None,
    decreases rows.len() - i,
{
    if i < rows.len() {
        assert(rows[i].replacement);
        lemma_no_joiner(rows, wire, i + 1);
    }
}

proof fn lemma_key_is_there(keys: Seq<KeyView>, key: KeyView, i: int)
    requires
        i >= 0,
    ensures
        merge::key_place(keys, key, i) matches Some(place) ==> i <= place < keys.len() && keys[place]
            == key,
    decreases keys.len() - i,
{
    if i < keys.len() {
        lemma_key_is_there(keys, key, i + 1);
    }
}

proof fn lemma_wire_is_there(keys: Seq<KeyView>, wire: Seq<char>, i: int)
    requires
        i >= 0,
    ensures
        merge::wire_place(keys, wire, i) matches Some(place) ==> i <= place < keys.len()
            && keys[place].wire == wire,
    decreases keys.len() - i,
{
    if i < keys.len() {
        lemma_wire_is_there(keys, wire, i + 1);
    }
}

/// What a replacement is laid over has the name of what it replaces.
proof fn lemma_base_has_the_name(row: RowView, initial: ModelView, models: Seq<ModelView>)
    ensures
        merge::replaced_base(row, initial, merge::keys_of(models), models).request_model
            == initial.request_model,
{
    let keys = merge::keys_of(models);
    if let Some(key) = row.definition_key {
        lemma_key_is_there(keys, key, 0);
    }
    lemma_wire_is_there(keys, initial.request_model, 0);
}

/// An account that replaces a definition shows the models that it was made of, as its
/// own connection has them, whatever the definition says of the same models now, and
/// also where it is no longer there.
pub proof fn a_replacement_shows_its_own_models(
    profile: ProviderView,
    reference: DefinitionRefView,
    definitions: DefinitionsView,
)
    ensures
        merge::rows_of(merge::replacement_of(profile, reference), definitions) == shown_as(profile),
{
    let saved = merge::replacement_of(profile, reference);
    let models = merge::current_definition(saved, definitions).models;
    let keys = merge::keys_of(models);
    let rows = Seq::new(
        saved.models.len(),
        |i: int| merge::rekeyed(saved.models[i], keys, saved.models),
    );
    assert forall|k: int| 0 <= k < rows.len() implies (#[trigger] rows[k]).replacement by {
        assert(saved.models[k].replacement);
    }
    lemma_replacements_stay(rows, keys, 0);
    assert(merge::all_rows(saved, keys) == rows);
    assert forall|k: int| 0 <= k < rows.len() implies merge::configured(
        #[trigger] rows[k],
        saved,
        keys,
        models,
    ) == Some(shown_as(profile)[k]) by {
        let own = profile.models[k];
        assert(same_but_keys(rows[k], saved.models[k]));
        let initial = model::bare_model(own.request_model);
        lemma_base_has_the_name(rows[k], initial, models);
        let base = merge::replaced_base(rows[k], initial, keys, models);
        model::every_value_shows_the_model(base, own);
    }
    assert(shown_as(profile).take(0) =~= Seq::<ConfiguredView>::empty());
    lemma_shown(rows, saved, keys, models, profile, 0, Seq::empty());
}

/// The models of a connection, as the connection has them.
pub open spec fn models_on(profile: ProviderView) -> Seq<ModelView> {
    Seq::new(profile.models.len(), |i: int| merge::on_connection(profile.models[i], profile))
}

proof fn lemma_models_shown(profile: ProviderView, executable: bool, i: int)
    requires
        0 <= i <= profile.models.len(),
    ensures
        state::models_shown(shown_as(profile), executable, i, models_on(profile).take(i))
            == models_on(profile),
    decreases profile.models.len() - i,
{
    let models = models_on(profile);
    if i < profile.models.len() {
        assert(models.take(i).push(shown_as(profile)[i].model) =~= models.take(i + 1));
        lemma_models_shown(profile, executable, i + 1);
    } else {
        assert(models.take(i) =~= models);
    }
}

/// A connection that replaces a definition replaces it completely: what is shown is the
/// connection it was made of, with its own models and images, whatever the definition
/// says.
pub proof fn a_replacement_is_complete(
    profile: ProviderView,
    reference: DefinitionRefView,
    definitions: DefinitionsView,
    executable: bool,
)
    ensures
        state::shown(merge::replacement_of(profile, reference), definitions, executable) == (
        ProviderView { models: models_on(profile), ..profile }),
{
    a_replacement_shows_its_own_models(profile, reference, definitions);
    assert(models_on(profile).take(0) =~= Seq::empty());
    lemma_models_shown(profile, executable, 0);
}

/// The facts of a row are those that were set, or else those of its base under what was
/// observed; and the connection narrows them.
pub proof fn the_latest_facts_are_shown(
    row: RowView,
    base: ModelView,
    saved: SavedView,
    keys: Seq<KeyView>,
    models: Seq<ModelView>,
)
    requires
        merge::base_of(row, keys, models) == Some(base),
    ensures
        merge::configured(row, saved, keys, models) matches Some(shown) && shown.model.features
            == features::on_connection(
            match row.overrides.features {
                Some(own) => own,
                None => match sorted::found(saved.observations, base.request_model, 0) {
                    Some(seen) => match seen.inference_features {
                        Some(observed) => features::overlaid(base.features, observed),
                        None => base.features,
                    },
                    None => base.features,
                },
            },
            saved.connection.features,
        ),
        merge::configured(row, saved, keys, models)->0.model.capability_support == (
        match row.overrides.capability_support {
            Some(own) => own,
            None => base.capability_support,
        }),
{
}

/// Whether the facts are as a connection leaves them.
spec fn narrowed_by(facts: FeaturesView, connection: ProviderView) -> bool {
    features::on_connection(facts, connection.features) == facts
}

proof fn lemma_rows_narrowed(
    rows: Seq<RowView>,
    saved: SavedView,
    keys: Seq<KeyView>,
    models: Seq<ModelView>,
    i: int,
    before: Seq<ConfiguredView>,
)
    requires
        i >= 0,
        forall|k: int|
            0 <= k < before.len() ==> narrowed_by(
                (#[trigger] before[k]).model.features,
                saved.connection,
            ),
    ensures
        forall|k: int|
            0 <= k < merge::configured_from(rows, saved, keys, models, i, before).len()
                ==> narrowed_by(
                (#[trigger] merge::configured_from(
                    rows,
                    saved,
                    keys,
                    models,
                    i,
                    before,
                )[k]).model.features,
                saved.connection,
            ),
    decreases rows.len() - i,
{
    if i < rows.len() {
        let more = match merge::configured(rows[i], saved, keys, models) {
            Some(shown) => {
                let base = merge::base_of(rows[i], keys, models)->0;
                features::a_connection_narrows_once(
                    model::applied(
                        merge::with_observation(
                            base,
                            sorted::found(saved.observations, base.request_model, 0),
                        ),
                        rows[i].overrides,
                    ).features,
                    saved.connection.features,
                );
                before.push(shown)
            },
            None => before,
        };
        lemma_rows_narrowed(rows, saved, keys, models, i + 1, more);
        assert(merge::configured_from(rows, saved, keys, models, i, before)
            == merge::configured_from(rows, saved, keys, models, i + 1, more));
    }
}

proof fn lemma_models_narrowed(
    rows: Seq<ConfiguredView>,
    executable: bool,
    connection: ProviderView,
    i: int,
    before: Seq<ModelView>,
)
    requires
        i >= 0,
        forall|k: int|
            0 <= k < rows.len() ==> narrowed_by((#[trigger] rows[k]).model.features, connection),
        forall|k: int|
            0 <= k < before.len() ==> narrowed_by((#[trigger] before[k]).features, connection),
    ensures
        forall|k: int|
            0 <= k < state::models_shown(rows, executable, i, before).len() ==> narrowed_by(
                (#[trigger] state::models_shown(rows, executable, i, before)[k]).features,
                connection,
            ),
    decreases rows.len() - i,
{
    if i < rows.len() {
        let more = if !executable || rows[i].compatible {
            before.push(rows[i].model)
        } else {
            before
        };
        assert(narrowed_by(rows[i].model.features, connection));
        lemma_models_narrowed(rows, executable, connection, i + 1, more);
        assert(state::models_shown(rows, executable, i, before) == state::models_shown(
            rows,
            executable,
            i + 1,
            more,
        ));
    }
}

proof fn lemma_row_is_listed(models: Seq<ModelProfile>, name: Seq<char>, i: int) -> (place: int)
    requires
        i >= 0,
        profile::row_for(models, name, i) is Some,
    ensures
        i <= place < models.len(),
        profile::row_for(models, name, i) == Some(models[place]),
    decreases models.len() - i,
{
    if models[i].request_model@ == name {
        i
    } else {
        lemma_row_is_listed(models, name, i + 1)
    }
}

/// What an account shows of a model is what a request for it is held against: what was
/// set, observed or replaced reaches validation as it is shown.
pub proof fn what_is_shown_is_what_counts(
    saved: SavedView,
    definitions: DefinitionsView,
    executable: bool,
    connection: ProviderProfile,
    name: Seq<char>,
)
    requires
        connection.deep_view() == state::shown(saved, definitions, executable),
        profile::row_for(connection.models@, name, 0) is Some,
    ensures
        inference::features_of(connection, name) == profile::row_for(
            connection.models@,
            name,
            0,
        )->0.features@,
{
    let models = merge::current_definition(saved, definitions).models;
    let keys = merge::keys_of(models);
    let own = saved.connection;
    lemma_rows_narrowed(merge::all_rows(saved, keys), saved, keys, models, 0, Seq::empty());
    lemma_models_narrowed(merge::rows_of(saved, definitions), executable, own, 0, Seq::empty());
    let place = lemma_row_is_listed(connection.models@, name, 0);
    assert(connection.models.deep_view()[place] == connection.models@[place].deep_view());
    assert(narrowed_by(connection.deep_view().models[place].features, own));
}

/// A row whose default left is not shown, unless a directory listed its model.
pub proof fn a_withdrawn_default_is_not_shown(
    row: RowView,
    key: KeyView,
    saved: SavedView,
    keys: Seq<KeyView>,
    models: Seq<ModelView>,
)
    requires
        row.definition_key == Some(key),
        merge::key_place(keys, key, 0) is None,
        !row.replacement,
        !row.observed,
    ensures
        merge::configured(row, saved, keys, models) is None,
{
}

proof fn lemma_not_completed(
    rows: Seq<RowView>,
    keys: Seq<KeyView>,
    removed: Seq<KeyView>,
    key: KeyView,
    i: int,
)
    requires
        i >= 0,
        merge::is_removed(removed, key, keys),
        !merge::keyed(rows, key),
    ensures
        !merge::keyed(merge::completed(rows, keys, removed, i), key),
    decreases keys.len() - i,
{
    if i < keys.len() {
        if !merge::is_removed(removed, keys[i], keys) && !merge::keyed(rows, keys[i]) {
            let more = rows.push(merge::default_row(keys[i]));
            assert(!merge::keyed(more, key)) by {
                if merge::keyed(more, key) {
                    let n = choose|n: int|
                        0 <= n < more.len() && (#[trigger] more[n]).definition_key == Some(key);
                    assert(n < rows.len());
                    assert(rows[n].definition_key == Some(key));
                }
            }
            lemma_not_completed(more, keys, removed, key, i + 1);
        } else {
            lemma_not_completed(rows, keys, removed, key, i + 1);
        }
    }
}

/// A default that was removed does not come back with the definition.
pub proof fn a_removed_default_stays_removed(saved: SavedView, keys: Seq<KeyView>, key: KeyView)
    requires
        merge::is_removed(saved.removed_defaults, key, keys),
        !merge::keyed(merge::adopted(saved.models, keys), key),
    ensures
        !merge::keyed(merge::all_rows(saved, keys), key),
{
    lemma_not_completed(
        merge::adopted(saved.models, keys),
        keys,
        saved.removed_defaults,
        key,
        0,
    );
}

proof fn lemma_place_push(providers: Seq<SavedView>, last: SavedView, name: Seq<char>, i: int)
    requires
        0 <= i <= providers.len(),
    ensures
        state::account_place(providers, name, i) is Some ==> state::account_place(
            providers.push(last),
            name,
            i,
        ) == state::account_place(providers, name, i),
        last.connection.profile_name == name ==> state::account_place(
            providers.push(last),
            name,
            i,
        ) is Some,
    decreases providers.len() - i,
{
    if i < providers.len() {
        assert(providers.push(last)[i] == providers[i]);
        lemma_place_push(providers, last, name, i + 1);
    } else {
        assert(providers.push(last)[i] == last);
    }
}

/// Every definition has its account, or was deleted, once accounts have been made.
proof fn lemma_accounts_are_there(
    providers: Seq<SavedView>,
    deleted: Seq<Seq<char>>,
    definitions: DefinitionsView,
    i: int,
    k: int,
)
    requires
        0 <= i,
        0 <= k < definitions.caller.len(),
        k >= i || deleted.contains(definitions.caller[k].profile_name) || state::account_place(
            providers,
            definitions.caller[k].profile_name,
            0,
        ) is Some,
    ensures
        deleted.contains(definitions.caller[k].profile_name) || state::account_place(
            state::accounts_for(providers, deleted, definitions, i),
            definitions.caller[k].profile_name,
            0,
        ) is Some,
    decreases definitions.caller.len() - i,
{
    if i < definitions.caller.len() {
        let profile = definitions.caller[i];
        let name = definitions.caller[k].profile_name;
        if !deleted.contains(profile.profile_name) && state::account_place(
            providers,
            profile.profile_name,
            0,
        ) is None {
            let made = merge::inherited_of(
                profile,
                merge::reference_of(definitions, profile.profile_name),
            );
            lemma_place_push(providers, made, name, 0);
            lemma_accounts_are_there(providers.push(made), deleted, definitions, i + 1, k);
        } else {
            lemma_accounts_are_there(providers, deleted, definitions, i + 1, k);
        }
    }
}

proof fn lemma_no_account_is_missing(
    providers: Seq<SavedView>,
    deleted: Seq<Seq<char>>,
    definitions: DefinitionsView,
    i: int,
)
    requires
        0 <= i,
        forall|k: int|
            0 <= k < definitions.caller.len() ==> deleted.contains(
                (#[trigger] definitions.caller[k]).profile_name,
            ) || state::account_place(providers, definitions.caller[k].profile_name, 0) is Some,
    ensures
        state::accounts_for(providers, deleted, definitions, i) == providers,
    decreases definitions.caller.len() - i,
{
    if i < definitions.caller.len() {
        assert(deleted.contains(definitions.caller[i].profile_name) || state::account_place(
            providers,
            definitions.caller[i].profile_name,
            0,
        ) is Some);
        lemma_no_account_is_missing(providers, deleted, definitions, i + 1);
    }
}

/// Giving the definitions their accounts a second time changes nothing.
pub proof fn accounts_are_made_once(config: ConfigView, definitions: DefinitionsView)
    ensures
        state::with_definitions(state::with_definitions(config, definitions), definitions)
            == state::with_definitions(config, definitions),
{
    let deleted = config.deleted_profiles;
    let made = state::accounts_for(config.providers, deleted, definitions, 0);
    assert forall|k: int| 0 <= k < definitions.caller.len() implies deleted.contains(
        (#[trigger] definitions.caller[k]).profile_name,
    ) || state::account_place(made, definitions.caller[k].profile_name, 0) is Some by {
        lemma_accounts_are_there(config.providers, deleted, definitions, 0, k);
    }
    lemma_no_account_is_missing(made, deleted, definitions, 0);
}

/// No account has a name twice.
pub open spec fn names_are_distinct(providers: Seq<SavedView>) -> bool {
    forall|i: int, j: int|
        0 <= i < j < providers.len() ==> (#[trigger] providers[i]).connection.profile_name != (
        #[trigger] providers[j]).connection.profile_name
}

proof fn lemma_own_account(providers: Seq<SavedView>, i: int, from: int)
    requires
        names_are_distinct(providers),
        0 <= from <= i < providers.len(),
    ensures
        state::account_place(providers, providers[i].connection.profile_name, from) == Some(i),
    decreases i - from,
{
    if from < i {
        assert(providers[from].connection.profile_name != providers[i].connection.profile_name);
        lemma_own_account(providers, i, from + 1);
    }
}

/// A session that finds on disk what it kept goes on with what it held, tracked or
/// not.
pub proof fn a_session_goes_on(previous: ConfigView)
    requires
        names_are_distinct(previous.providers),
    ensures
        state::session_of(state::persisted_of(previous), previous) == previous,
{
    let durable = state::persisted_of(previous).providers;
    let again = state::session_of(state::persisted_of(previous), previous).providers;
    assert(names_are_distinct(durable));
    assert forall|i: int| 0 <= i < previous.providers.len() implies #[trigger] again[i]
        == previous.providers[i] by {
        lemma_own_account(durable, i, 0);
        lemma_own_account(previous.providers, i, 0);
        <SavedProfile as Content>::alike_itself(durable[i]);
    }
    assert(again =~= previous.providers);
}

proof fn lemma_models_kept_twice(
    models: Seq<ModelView>,
    ids: Seq<Seq<char>>,
    i: int,
    before: Seq<ModelView>,
)
    requires
        i >= 0,
        forall|k: int| 0 <= k < before.len() ==> ids.contains((#[trigger] before[k]).request_model),
    ensures
        forall|k: int|
            0 <= k < state::kept_models(models, ids, i, before).len() ==> ids.contains(
                (#[trigger] state::kept_models(models, ids, i, before)[k]).request_model,
            ),
    decreases models.len() - i,
{
    if i < models.len() {
        let more = if ids.contains(models[i].request_model) {
            before.push(models[i])
        } else {
            before
        };
        lemma_models_kept_twice(models, ids, i + 1, more);
        assert(state::kept_models(models, ids, i, before) == state::kept_models(models, ids, i + 1, more));
    }
}

proof fn lemma_all_models_kept(models: Seq<ModelView>, ids: Seq<Seq<char>>, i: int)
    requires
        0 <= i <= models.len(),
        forall|k: int| 0 <= k < models.len() ==> ids.contains((#[trigger] models[k]).request_model),
    ensures
        state::kept_models(models, ids, i, models.take(i)) == models,
    decreases models.len() - i,
{
    if i < models.len() {
        assert(ids.contains(models[i].request_model));
        assert(models.take(i).push(models[i]) =~= models.take(i + 1));
        lemma_all_models_kept(models, ids, i + 1);
    } else {
        assert(models.take(i) =~= models);
    }
}

proof fn lemma_rows_kept_twice(
    rows: Seq<RowView>,
    ids: Seq<Seq<char>>,
    i: int,
    before: Seq<RowView>,
)
    requires
        i >= 0,
        forall|k: int| 0 <= k < before.len() ==> ids.contains(state::row_wire(#[trigger] before[k])),
    ensures
        forall|k: int|
            0 <= k < state::kept_rows(rows, ids, i, before).len() ==> ids.contains(
                state::row_wire(#[trigger] state::kept_rows(rows, ids, i, before)[k]),
            ),
    decreases rows.len() - i,
{
    if i < rows.len() {
        let more = if ids.contains(state::row_wire(rows[i])) {
            before.push(rows[i])
        } else {
            before
        };
        lemma_rows_kept_twice(rows, ids, i + 1, more);
        assert(state::kept_rows(rows, ids, i, before) == state::kept_rows(rows, ids, i + 1, more));
    }
}

proof fn lemma_all_rows_kept(rows: Seq<RowView>, ids: Seq<Seq<char>>, i: int)
    requires
        0 <= i <= rows.len(),
        forall|k: int| 0 <= k < rows.len() ==> ids.contains(state::row_wire(#[trigger] rows[k])),
    ensures
        state::kept_rows(rows, ids, i, rows.take(i)) == rows,
    decreases rows.len() - i,
{
    if i < rows.len() {
        assert(ids.contains(state::row_wire(rows[i])));
        assert(rows.take(i).push(rows[i]) =~= rows.take(i + 1));
        lemma_all_rows_kept(rows, ids, i + 1);
    } else {
        assert(rows.take(i) =~= rows);
    }
}

proof fn lemma_observations_kept_twice(
    seen: Seq<(Seq<char>, model::ObservationView)>,
    ids: Seq<Seq<char>>,
    i: int,
    before: Seq<(Seq<char>, model::ObservationView)>,
)
    requires
        i >= 0,
        forall|k: int| 0 <= k < before.len() ==> ids.contains((#[trigger] before[k]).0),
    ensures
        forall|k: int|
            0 <= k < state::kept_observations(seen, ids, i, before).len() ==> ids.contains(
                (#[trigger] state::kept_observations(seen, ids, i, before)[k]).0,
            ),
    decreases seen.len() - i,
{
    if i < seen.len() {
        let more = if ids.contains(seen[i].0) {
            before.push(seen[i])
        } else {
            before
        };
        lemma_observations_kept_twice(seen, ids, i + 1, more);
        assert(state::kept_observations(seen, ids, i, before) == state::kept_observations(seen, ids, i + 1, more));
    }
}

proof fn lemma_all_observations_kept(
    seen: Seq<(Seq<char>, model::ObservationView)>,
    ids: Seq<Seq<char>>,
    i: int,
)
    requires
        0 <= i <= seen.len(),
        forall|k: int| 0 <= k < seen.len() ==> ids.contains((#[trigger] seen[k]).0),
    ensures
        state::kept_observations(seen, ids, i, seen.take(i)) == seen,
    decreases seen.len() - i,
{
    if i < seen.len() {
        assert(ids.contains(seen[i].0));
        assert(seen.take(i).push(seen[i]) =~= seen.take(i + 1));
        lemma_all_observations_kept(seen, ids, i + 1);
    } else {
        assert(seen.take(i) =~= seen);
    }
}

/// What is kept of an account is kept again: writing a file that was read changes
/// nothing in it.
pub proof fn what_is_kept_is_kept_again(config: ConfigView)
    ensures
        state::persisted_of(state::persisted_of(config)) == state::persisted_of(config),
{
    let once = state::persisted_of(config);
    let twice = state::persisted_of(once);
    assert forall|i: int| 0 <= i < config.providers.len() implies #[trigger] twice.providers[i]
        == once.providers[i] by {
        let saved = config.providers[i];
        let ids = state::tracked_of(config, saved.connection.provider_id);
        let kept = once.providers[i];
        assert(kept == state::kept(saved, ids));
        lemma_models_kept_twice(saved.fallback.models, ids, 0, Seq::empty());
        lemma_rows_kept_twice(saved.models, ids, 0, Seq::empty());
        lemma_observations_kept_twice(saved.observations, ids, 0, Seq::empty());
        lemma_all_models_kept(kept.fallback.models, ids, 0);
        lemma_all_rows_kept(kept.models, ids, 0);
        lemma_all_observations_kept(kept.observations, ids, 0);
        assert(kept.fallback.models.take(0) =~= Seq::empty());
        assert(kept.models.take(0) =~= Seq::empty());
        assert(kept.observations.take(0) =~= Seq::empty());
    }
    assert(twice.providers =~= once.providers);
}

proof fn lemma_row_is_there(rows: Seq<RowView>, id: Seq<char>, i: int)
    requires
        i >= 0,
        merge::row_place(rows, id, i) is Some,
    ensures
        i <= merge::row_place(rows, id, i)->0 < rows.len(),
        rows[merge::row_place(rows, id, i)->0].id == id,
    decreases rows.len() - i,
{
    if i < rows.len() && rows[i].id != id {
        lemma_row_is_there(rows, id, i + 1);
    }
}

proof fn lemma_observed_ids_differ(wire: Seq<char>, a: int, b: int)
    requires
        0 <= a < b,
    ensures
        sync::observed_id(wire, a) != sync::observed_id(wire, b),
{
    if sync::observed_id(wire, a) == sync::observed_id(wire, b) {
        let front = "observed:"@ + wire + ":"@;
        assert(sync::observed_id(wire, a).skip(front.len() as int) =~= text::decimal_text(
            a as nat,
        ));
        assert(sync::observed_id(wire, b).skip(front.len() as int) =~= text::decimal_text(
            b as nat,
        ));
        text::decimal_texts_differ(a as nat, b as nat);
    }
}

proof fn lemma_free_id(rows: Seq<RowView>, wire: Seq<char>, n: int)
    requires
        0 <= n <= rows.len(),
        forall|k: int|
            0 <= k < n ==> merge::row_place(rows, #[trigger] sync::observed_id(wire, k), 0) is Some,
    ensures
        merge::row_place(rows, sync::free_id(rows, wire, n), 0) is None,
    decreases rows.len() - n,
{
    if merge::row_place(rows, sync::observed_id(wire, n), 0) is Some {
        if n < rows.len() {
            lemma_free_id(rows, wire, n + 1);
        } else {
            // One row for each of more ids than there are rows.
            let places = Seq::new(
                (n + 1) as nat,
                |k: int| merge::row_place(rows, sync::observed_id(wire, k), 0)->0,
            );
            assert forall|k: int| 0 <= k < places.len() implies 0 <= #[trigger] places[k]
                < rows.len() && rows[places[k]].id == sync::observed_id(wire, k) by {
                lemma_row_is_there(rows, sync::observed_id(wire, k), 0);
            }
            assert forall|a: int, b: int|
                0 <= a < b < places.len() implies places[a] != places[b] by {
                lemma_observed_ids_differ(wire, a, b);
            }
            assert(places.no_duplicates());
            places.unique_seq_to_set();
            let all = vstd::set_lib::set_int_range(0, rows.len() as int);
            vstd::set_lib::lemma_int_range(0, rows.len() as int);
            assert(places.to_set().subset_of(all));
            vstd::set_lib::lemma_len_subset(places.to_set(), all);
        }
    }
}

/// The id of a newly observed row is one that no row has.
pub proof fn an_observed_row_has_an_id_of_its_own(rows: Seq<RowView>, wire: Seq<char>)
    ensures
        merge::row_place(rows, sync::free_id(rows, wire, 0), 0) is None,
{
    lemma_free_id(rows, wire, 0);
}

} // verus!
