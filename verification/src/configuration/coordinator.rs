//! What a change of the configuration changes, and the state that changes start
//! from. Reading, locking and writing the file stay with the caller.

use crate::configuration::error::{ProviderStoreError, StoreErrorView};
use crate::configuration::merge::{self, Definitions, DefinitionsView};
use crate::configuration::model::{
    self, ConfigView, ConfiguredModel, ConfiguredView, SavedConfig, SavedView,
};
use crate::configuration::state;
use crate::content::Content;
use crate::protocol::{ProviderProfile, ProviderView};
use crate::sorted;
use crate::text;
use crate::views;
use vstd::prelude::*;

verus! {

broadcast use {crate::views::group_views, crate::json::group_json};

/// What differs between two states: the connections that changed, and the profiles
/// that changed in any way. Both are in ascending order.
#[derive(Debug, Clone, PartialEq, Eq)]
pub struct ChangeSet {
    pub connections: Vec<String>,
    pub profiles: Vec<String>,
    pub all_bindings: bool,
}

pub struct ChangeSetView {
    pub connections: Seq<Seq<char>>,
    pub profiles: Seq<Seq<char>>,
    pub all_bindings: bool,
}

impl DeepView for ChangeSet {
    type V = ChangeSetView;

    open spec fn deep_view(&self) -> ChangeSetView {
        ChangeSetView {
            connections: self.connections.deep_view(),
            profiles: self.profiles.deep_view(),
            all_bindings: self.all_bindings,
        }
    }
}

/// No change.
pub open spec fn no_changes() -> ChangeSetView {
    ChangeSetView { connections: Seq::empty(), profiles: Seq::empty(), all_bindings: false }
}

/// The names of the profiles from the `i`th on, put in order among those before.
pub open spec fn names_from(profiles: Seq<ProviderView>, i: int, before: Seq<Seq<char>>) -> Seq<
    Seq<char>,
>
    decreases profiles.len() - i,
{
    if i < 0 || i >= profiles.len() {
        before
    } else {
        names_from(profiles, i + 1, sorted::inserted(before, profiles[i].profile_name))
    }
}

/// The names of the profiles of either state.
pub open spec fn names_of(before: Seq<ProviderView>, after: Seq<ProviderView>) -> Seq<Seq<char>> {
    names_from(after, 0, names_from(before, 0, Seq::empty()))
}

fn add_names(profiles: &Vec<ProviderProfile>, names: &mut Vec<String>)
    ensures
        final(names).deep_view() == names_from(profiles.deep_view(), 0, old(names).deep_view()),
{
    let ghost first = names.deep_view();
    let mut i: usize = 0;
    while i < profiles.len()
        invariant
            i <= profiles.len(),
            names_from(profiles.deep_view(), 0, first) == names_from(
                profiles.deep_view(),
                i as int,
                names.deep_view(),
            ),
        decreases profiles.len() - i,
    {
        assert(profiles.deep_view()[i as int] == profiles@[i as int].deep_view());
        sorted::insert(names, &profiles[i].profile_name);
        i = i + 1;
    }
}

/// Whether a profile changed at all.
pub open spec fn profile_changed(before: Option<ProviderView>, after: Option<ProviderView>) -> bool {
    match (before, after) {
        (Some(a), Some(b)) => !<ProviderProfile as Content>::alike(a, b),
        (None, None) => false,
        _ => true,
    }
}

/// Whether a profile is another connection than before.
pub open spec fn connection_changed(before: Option<ProviderView>, after: Option<ProviderView>) -> bool {
    match (before, after) {
        (Some(a), Some(b)) => !state::alike_connections(a, b),
        _ => true,
    }
}

/// The changes of the names from the `i`th on, after those before.
pub open spec fn changes_from(
    old_profiles: Seq<ProviderView>,
    new_profiles: Seq<ProviderView>,
    names: Seq<Seq<char>>,
    i: int,
    found: ChangeSetView,
) -> ChangeSetView
    decreases names.len() - i,
{
    if i < 0 || i >= names.len() {
        found
    } else {
        let before = merge::named(old_profiles, names[i], 0);
        let after = merge::named(new_profiles, names[i], 0);
        changes_from(
            old_profiles,
            new_profiles,
            names,
            i + 1,
            ChangeSetView {
                profiles: if profile_changed(before, after) {
                    found.profiles.push(names[i])
                } else {
                    found.profiles
                },
                connections: if connection_changed(before, after) {
                    found.connections.push(names[i])
                } else {
                    found.connections
                },
                ..found
            },
        )
    }
}

/// What differs between two states.
pub open spec fn changes(before: Seq<ProviderView>, after: Seq<ProviderView>) -> ChangeSetView {
    changes_from(before, after, names_of(before, after), 0, no_changes())
}

impl ChangeSet {
    pub fn between(before: &Vec<ProviderProfile>, after: &Vec<ProviderProfile>) -> (result: Self)
        ensures
            result.deep_view() == changes(before.deep_view(), after.deep_view()),
    {
        let mut names: Vec<String> = Vec::new();
        assert(names.deep_view() =~= Seq::empty());
        add_names(before, &mut names);
        add_names(after, &mut names);
        let mut result = ChangeSet {
            connections: Vec::new(),
            profiles: Vec::new(),
            all_bindings: false,
        };
        assert(result.deep_view().connections =~= Seq::empty());
        assert(result.deep_view().profiles =~= Seq::empty());
        let mut i: usize = 0;
        while i < names.len()
            invariant
                i <= names.len(),
                changes_from(
                    before.deep_view(),
                    after.deep_view(),
                    names.deep_view(),
                    0,
                    no_changes(),
                ) == changes_from(
                    before.deep_view(),
                    after.deep_view(),
                    names.deep_view(),
                    i as int,
                    result.deep_view(),
                ),
            decreases names.len() - i,
        {
            assert(names.deep_view()[i as int] == names@[i as int]@);
            let was = merge::find_named(before, &names[i]);
            let is = merge::find_named(after, &names[i]);
            let (changed, moved) = match (was, is) {
                (Some(a), Some(b)) => (!a.same_content(b), !state::same_connection(a, b)),
                (None, None) => (false, true),
                _ => (true, true),
            };
            if changed {
                result.profiles.push(names[i].clone());
            }
            if moved {
                result.connections.push(names[i].clone());
            }
            i = i + 1;
        }
        result
    }
}

/// A state that stays as it is changes nothing.
pub proof fn nothing_changes_where_nothing_changed(profiles: Seq<ProviderView>)
    ensures
        changes(profiles, profiles) == no_changes(),
{
    let names = names_of(profiles, profiles);
    lemma_names_are_named(profiles, profiles, 0, Seq::empty());
    lemma_names_are_named(profiles, profiles, 0, names_from(profiles, 0, Seq::empty()));
    lemma_no_change(profiles, names, 0);
}

/// Every name that is put in order is the name of a profile.
proof fn lemma_names_are_named(
    profiles: Seq<ProviderView>,
    all: Seq<ProviderView>,
    i: int,
    before: Seq<Seq<char>>,
)
    requires
        profiles == all,
        i >= 0,
        forall|k: int| 0 <= k < before.len() ==> merge::named(all, #[trigger] before[k], 0) is Some,
    ensures
        forall|k: int|
            0 <= k < names_from(profiles, i, before).len() ==> merge::named(
                all,
                #[trigger] names_from(profiles, i, before)[k],
                0,
            ) is Some,
    decreases profiles.len() - i,
{
    if i < profiles.len() {
        let name = profiles[i].profile_name;
        let more = sorted::inserted(before, name);
        lemma_named(all, i, 0);
        assert forall|k: int| 0 <= k < more.len() implies merge::named(
            all,
            #[trigger] more[k],
            0,
        ) is Some by {
            sorted::inserting_adds_one_text(before, name, more[k]);
            if more[k] != name {
                assert(more.contains(more[k]));
                assert(before.contains(more[k]));
                let n = choose|n: int| 0 <= n < before.len() && before[n] == more[k];
                assert(merge::named(all, before[n], 0) is Some);
            }
        }
        lemma_names_are_named(profiles, all, i + 1, more);
    }
}

/// A profile of the list is found by its name.
proof fn lemma_named(profiles: Seq<ProviderView>, i: int, from: int)
    requires
        0 <= from <= i < profiles.len(),
    ensures
        merge::named(profiles, profiles[i].profile_name, from) is Some,
    decreases i - from,
{
    if from < i && profiles[from].profile_name != profiles[i].profile_name {
        lemma_named(profiles, i, from + 1);
    }
}

proof fn lemma_no_change(profiles: Seq<ProviderView>, names: Seq<Seq<char>>, i: int)
    requires
        i >= 0,
        forall|k: int|
            0 <= k < names.len() ==> merge::named(profiles, #[trigger] names[k], 0) is Some,
    ensures
        changes_from(profiles, profiles, names, i, no_changes()) == no_changes(),
    decreases names.len() - i,
{
    if i < names.len() {
        let profile = merge::named(profiles, names[i], 0)->0;
        <ProviderProfile as Content>::alike_itself(profile);
        state::a_connection_is_itself(profile, profile.models);
        lemma_no_change(profiles, names, i + 1);
    }
}

/// Every text of the list stays, and every profile's name is added.
proof fn lemma_names(profiles: Seq<ProviderView>, i: int, before: Seq<Seq<char>>, name: Seq<char>)
    requires
        i >= 0,
        sorted::ascending(before),
    ensures
        sorted::ascending(names_from(profiles, i, before)),
        names_from(profiles, i, before).contains(name) <==> before.contains(name)
            || merge::named(profiles, name, i) is Some,
    decreases profiles.len() - i,
{
    if i < profiles.len() {
        let own = profiles[i].profile_name;
        sorted::inserting_keeps_the_order(before, own);
        sorted::inserting_adds_one_text(before, own, name);
        lemma_names(profiles, i + 1, sorted::inserted(before, own), name);
    }
}

proof fn lemma_names_of(before: Seq<ProviderView>, after: Seq<ProviderView>, name: Seq<char>)
    ensures
        sorted::ascending(names_of(before, after)),
        names_of(before, after).contains(name) <==> merge::named(before, name, 0) is Some
            || merge::named(after, name, 0) is Some,
{
    lemma_names(before, 0, Seq::empty(), name);
    lemma_names(after, 0, names_from(before, 0, Seq::empty()), name);
}

proof fn lemma_changes_from(
    old_profiles: Seq<ProviderView>,
    new_profiles: Seq<ProviderView>,
    names: Seq<Seq<char>>,
    i: int,
    found: ChangeSetView,
    name: Seq<char>,
)
    requires
        0 <= i <= names.len(),
    ensures
        ({
            let all = changes_from(old_profiles, new_profiles, names, i, found);
            let before = merge::named(old_profiles, name, 0);
            let after = merge::named(new_profiles, name, 0);
            let listed = names.skip(i).contains(name);
            &&& all.profiles.contains(name) <==> found.profiles.contains(name) || (listed
                && profile_changed(before, after))
            &&& all.connections.contains(name) <==> found.connections.contains(name) || (listed
                && connection_changed(before, after))
            &&& all.all_bindings == found.all_bindings
        }),
    decreases names.len() - i,
{
    if i < names.len() {
        let rest = names.skip(i);
        assert(rest[0] == names[i]);
        assert(names.skip(i + 1) =~= rest.skip(1));
        assert(rest.contains(name) <==> rest[0] == name || rest.skip(1).contains(name)) by {
            if rest.contains(name) && rest[0] != name {
                let k = choose|k: int| 0 <= k < rest.len() && rest[k] == name;
                assert(rest.skip(1)[k - 1] == name);
            }
            if rest.skip(1).contains(name) {
                let k = choose|k: int| 0 <= k < rest.skip(1).len() && rest.skip(1)[k] == name;
                assert(rest[k + 1] == name);
            }
        }
        let before = merge::named(old_profiles, names[i], 0);
        let after = merge::named(new_profiles, names[i], 0);
        let next = ChangeSetView {
            profiles: if profile_changed(before, after) {
                found.profiles.push(names[i])
            } else {
                found.profiles
            },
            connections: if connection_changed(before, after) {
                found.connections.push(names[i])
            } else {
                found.connections
            },
            ..found
        };
        lemma_pushed(found.profiles, names[i], name);
        lemma_pushed(found.connections, names[i], name);
        lemma_changes_from(old_profiles, new_profiles, names, i + 1, next, name);
    } else {
        assert(names.skip(i) =~= Seq::empty());
    }
}

proof fn lemma_pushed(texts: Seq<Seq<char>>, item: Seq<char>, name: Seq<char>)
    ensures
        texts.push(item).contains(name) <==> texts.contains(name) || item == name,
{
    if texts.contains(name) {
        let k = choose|k: int| 0 <= k < texts.len() && texts[k] == name;
        assert(texts.push(item)[k] == name);
    }
    assert(texts.push(item)[texts.len() as int] == item);
}

/// A change set holds exactly what changed. A profile is among those that changed
/// where it was added, removed, or is no longer alike. It is among the connections
/// that changed where it was added, removed, or differs in more than its models. No
/// other name is in either list.
pub proof fn a_change_set_holds_what_changed(
    before: Seq<ProviderView>,
    after: Seq<ProviderView>,
    name: Seq<char>,
)
    ensures
        ({
            let was = merge::named(before, name, 0);
            let is_now = merge::named(after, name, 0);
            &&& changes(before, after).profiles.contains(name) <==> profile_changed(was, is_now)
            &&& changes(before, after).connections.contains(name) <==> (was is Some
                || is_now is Some) && connection_changed(was, is_now)
            &&& !changes(before, after).all_bindings
        }),
{
    let names = names_of(before, after);
    assert(names.skip(0) =~= names);
    lemma_names_of(before, after, name);
    lemma_changes_from(before, after, names, 0, no_changes(), name);
}

/// A profile whose models alone changed is the same connection.
pub proof fn a_change_of_models_is_no_change_of_connection(
    before: Seq<ProviderView>,
    after: Seq<ProviderView>,
    name: Seq<char>,
)
    requires
        merge::named(before, name, 0) is Some,
        merge::named(after, name, 0) is Some,
        state::without_models(merge::named(before, name, 0)->0) == state::without_models(
            merge::named(after, name, 0)->0,
        ),
    ensures
        !changes(before, after).connections.contains(name),
{
    a_change_set_holds_what_changed(before, after, name);
    <ProviderProfile as Content>::alike_itself(
        state::without_models(merge::named(before, name, 0)->0),
    );
}

proof fn lemma_changes_both_ways(
    before: Seq<ProviderView>,
    after: Seq<ProviderView>,
    names: Seq<Seq<char>>,
    i: int,
    found: ChangeSetView,
)
    ensures
        changes_from(before, after, names, i, found) == changes_from(after, before, names, i, found),
    decreases names.len() - i,
{
    if 0 <= i < names.len() {
        let was = merge::named(before, names[i], 0);
        let is_now = merge::named(after, names[i], 0);
        if let (Some(a), Some(b)) = (was, is_now) {
            <ProviderProfile as Content>::alike_both_ways(a, b);
            <ProviderProfile as Content>::alike_both_ways(
                state::without_models(a),
                state::without_models(b),
            );
        }
        assert(profile_changed(was, is_now) == profile_changed(is_now, was));
        assert(connection_changed(was, is_now) == connection_changed(is_now, was));
        let next = ChangeSetView {
            profiles: if profile_changed(was, is_now) {
                found.profiles.push(names[i])
            } else {
                found.profiles
            },
            connections: if connection_changed(was, is_now) {
                found.connections.push(names[i])
            } else {
                found.connections
            },
            ..found
        };
        lemma_changes_both_ways(before, after, names, i + 1, next);
    }
}

/// What differs between two states does not depend on which came first.
pub proof fn a_change_set_is_the_same_both_ways(
    before: Seq<ProviderView>,
    after: Seq<ProviderView>,
)
    ensures
        changes(before, after) == changes(after, before),
{
    let there = names_of(before, after);
    let back = names_of(after, before);
    lemma_names_of(before, after, Seq::empty());
    lemma_names_of(after, before, Seq::empty());
    assert forall|name: Seq<char>| there.contains(name) <==> back.contains(name) by {
        lemma_names_of(before, after, name);
        lemma_names_of(after, before, name);
    }
    sorted::the_same_texts_are_the_same_list(there, back);
    lemma_changes_both_ways(before, after, there, 0, no_changes());
}

/// The place of an account that may be changed.
pub open spec fn open_account(config: ConfigView, name: Seq<char>) -> Result<int, StoreErrorView> {
    if config.deleted_profiles.contains(name) {
        Err(StoreErrorView::UnknownProfile(name))
    } else {
        match state::account_place(config.providers, name, 0) {
            Some(place) => Ok(place),
            None => Err(StoreErrorView::UnknownProfile(name)),
        }
    }
}

/// Where the account with the name is, unless it was deleted.
pub fn profile(config: &SavedConfig, name: &str) -> (result: Result<usize, ProviderStoreError>)
    ensures
        match open_account(config.deep_view(), name@) {
            Ok(place) => result matches Ok(found) && found == place && found
                < config.providers@.len(),
            Err(error) => result matches Err(found) && found.deep_view() == error,
        },
{
    if sorted::holds(&config.deleted_profiles, name) {
        return Err(ProviderStoreError::UnknownProfile(name.to_owned()));
    }
    match state::find_account(&config.providers, name) {
        Some(place) => Ok(place),
        None => Err(ProviderStoreError::UnknownProfile(name.to_owned())),
    }
}

/// The deleted names from the `i`th on that are those of presets.
pub open spec fn deleted_presets(
    deleted: Seq<Seq<char>>,
    definitions: DefinitionsView,
    i: int,
    before: Seq<Seq<char>>,
) -> Seq<Seq<char>>
    decreases deleted.len() - i,
{
    if i < 0 || i >= deleted.len() {
        before
    } else {
        deleted_presets(
            deleted,
            definitions,
            i + 1,
            if merge::named(definitions.builtin, deleted[i], 0) is Some {
                before.push(deleted[i])
            } else {
                before
            },
        )
    }
}

/// The configuration that a client works on. The state holds what the file holds
/// and what only this session knows.
#[derive(Debug, Clone, PartialEq, Eq)]
pub struct Coordinator {
    pub definitions: Definitions,
    pub state: SavedConfig,
    /// Counts the directories that were opened.
    pub generation: u64,
    pub deleted_builtin_profiles: Vec<String>,
}

/// The rows of an account, by its name.
pub open spec fn models_of(config: ConfigView, name: Seq<char>, definitions: DefinitionsView) -> Result<
    Seq<ConfiguredView>,
    StoreErrorView,
> {
    let ensured = state::with_definitions(config, definitions);
    match open_account(ensured, name) {
        Ok(place) => Ok(merge::rows_of(ensured.providers[place], definitions)),
        Err(error) => Err(error),
    }
}

impl Coordinator {
    pub fn new(caller: Vec<ProviderProfile>, builtin: Vec<ProviderProfile>) -> (result: Self)
        ensures
            result.definitions.deep_view() == (DefinitionsView {
                caller: caller.deep_view(),
                builtin: builtin.deep_view(),
                builtin_names: Seq::empty(),
            }),
            result.state.deep_view() == model::no_config(),
            result.generation == 0,
            result.deleted_builtin_profiles@.len() == 0,
    {
        Coordinator {
            definitions: Definitions::new(caller, builtin),
            state: SavedConfig::default(),
            generation: 0,
            deleted_builtin_profiles: Vec::new(),
        }
    }

    /// Takes a state over.
    pub fn install(&mut self, state: SavedConfig)
        ensures
            final(self).state == state,
            final(self).definitions.deep_view() == old(self).definitions.deep_view(),
            final(self).generation == old(self).generation,
            final(self).deleted_builtin_profiles.deep_view() == deleted_presets(
                state.deep_view().deleted_profiles,
                old(self).definitions.deep_view(),
                0,
                Seq::empty(),
            ),
    {
        let mut deleted: Vec<String> = Vec::new();
        let mut i: usize = 0;
        while i < state.deleted_profiles.len()
            invariant
                i <= state.deleted_profiles.len(),
                *self == *old(self),
                deleted_presets(
                    state.deleted_profiles.deep_view(),
                    self.definitions.deep_view(),
                    0,
                    Seq::empty(),
                ) == deleted_presets(
                    state.deleted_profiles.deep_view(),
                    self.definitions.deep_view(),
                    i as int,
                    deleted.deep_view(),
                ),
            decreases state.deleted_profiles.len() - i,
        {
            assert(state.deleted_profiles.deep_view()[i as int]
                == state.deleted_profiles@[i as int]@);
            let name = state.deleted_profiles[i].as_str();
            if merge::find_named(&self.definitions.builtin, name).is_some() {
                deleted.push(state.deleted_profiles[i].clone());
            }
            i = i + 1;
        }
        self.deleted_builtin_profiles = deleted;
        self.state = state;
    }

    /// Takes over a state that was read from another directory.
    pub fn open(&mut self, state: SavedConfig)
        ensures
            final(self).state == state,
            final(self).definitions.deep_view() == old(self).definitions.deep_view(),
            final(self).generation == old(self).generation.wrapping_add(1),
            final(self).deleted_builtin_profiles.deep_view() == deleted_presets(
                state.deep_view().deleted_profiles,
                old(self).definitions.deep_view(),
                0,
                Seq::empty(),
            ),
    {
        self.generation = self.generation.wrapping_add(1);
        self.install(state);
    }

    /// Makes a state that was read the one to change: the session's own where the
    /// file was not changed under it, with an account for each definition.
    pub fn prepare(&self, state: &mut SavedConfig)
        ensures
            final(state).deep_view() == state::with_definitions(
                state::session_of(old(state).deep_view(), self.state.deep_view()),
                self.definitions.deep_view(),
            ),
    {
        state.reconcile_session(&self.state);
        state.ensure_definitions(&self.definitions);
    }

    /// Brings a changed state up to the current definitions, and gives the
    /// connections that it then shows.
    pub fn settle(&self, state: &mut SavedConfig) -> (profiles: Vec<ProviderProfile>)
        ensures
            final(state).deep_view() == state::all_refreshed(
                old(state).deep_view(),
                self.definitions.deep_view(),
            ),
            profiles.deep_view() == state::profiles_of(
                final(state).deep_view(),
                self.definitions.deep_view(),
                true,
            ),
    {
        state.refresh_fallbacks(&self.definitions);
        state.profiles(&self.definitions, true)
    }

    /// The rows of the account with the name.
    pub fn configured_models(&self, name: &str) -> (result: Result<
        Vec<ConfiguredModel>,
        ProviderStoreError,
    >)
        ensures
            views::res(result) == models_of(
                self.state.deep_view(),
                name@,
                self.definitions.deep_view(),
            ),
    {
        let mut state = self.state.duplicate();
        state.ensure_definitions(&self.definitions);
        match profile(&state, name) {
            Ok(place) => {
                assert(state.deep_view().providers[place as int]
                    == state.providers@[place as int].deep_view());
                Ok(state.providers[place].rows(&self.definitions))
            },
            Err(error) => Err(error),
        }
    }
}

} // verus!
