//! Merging defaults, explicit settings and observations.

use crate::configuration::error::{ProviderStoreError, StoreErrorView};
use crate::configuration::model::{
    self, ConfigView, ConfiguredModel, ConfiguredView, DefinitionRef, DefinitionRefView, KeyView,
    ModelKey, ModelOverrides, ModelRow, Observation, ObservationView, RowView, SavedConfig,
    SavedProfile, SavedView,
};
use crate::content::Content;
use crate::json::{self, Json, JsonView};
use crate::protocol::features;
use crate::protocol::{
    ImageConfig, ImagesView, MetadataView, ModelProfile, ModelView, ProviderProfile, ProviderView,
};
use crate::sorted;
use crate::text;
use crate::views;
use vstd::prelude::*;

verus! {

broadcast use {crate::views::group_views, crate::json::group_json};

/// The definitions that accounts refer to: those a caller gave, and the presets.
/// The names are those of the caller's definitions that are presets.
#[derive(Debug, Clone, PartialEq, Eq)]
pub struct Definitions {
    pub caller: Vec<ProviderProfile>,
    pub builtin: Vec<ProviderProfile>,
    pub builtin_names: Vec<String>,
}

pub struct DefinitionsView {
    pub caller: Seq<ProviderView>,
    pub builtin: Seq<ProviderView>,
    pub builtin_names: Seq<Seq<char>>,
}

impl DeepView for Definitions {
    type V = DefinitionsView;

    open spec fn deep_view(&self) -> DefinitionsView {
        DefinitionsView {
            caller: self.caller.deep_view(),
            builtin: self.builtin.deep_view(),
            builtin_names: self.builtin_names.deep_view(),
        }
    }
}

impl Content for Definitions {
    open spec fn alike(a: DefinitionsView, b: DefinitionsView) -> bool {
        &&& <Vec<ProviderProfile> as Content>::alike(a.caller, b.caller)
        &&& <Vec<ProviderProfile> as Content>::alike(a.builtin, b.builtin)
        &&& <Vec<String> as Content>::alike(a.builtin_names, b.builtin_names)
    }

    proof fn alike_itself(a: DefinitionsView) {
        <Vec<ProviderProfile> as Content>::alike_itself(a.caller);
        <Vec<ProviderProfile> as Content>::alike_itself(a.builtin);
        <Vec<String> as Content>::alike_itself(a.builtin_names);
    }

    proof fn alike_both_ways(a: DefinitionsView, b: DefinitionsView) {
        <Vec<ProviderProfile> as Content>::alike_both_ways(a.caller, b.caller);
        <Vec<ProviderProfile> as Content>::alike_both_ways(a.builtin, b.builtin);
        <Vec<String> as Content>::alike_both_ways(a.builtin_names, b.builtin_names);
    }

    fn duplicate(&self) -> (copy: Self) {
        Definitions {
            caller: self.caller.duplicate(),
            builtin: self.builtin.duplicate(),
            builtin_names: self.builtin_names.duplicate(),
        }
    }

    fn same_content(&self, other: &Self) -> (result: bool) {
        self.caller.same_content(&other.caller)
            && self.builtin.same_content(&other.builtin)
            && self.builtin_names.same_content(&other.builtin_names)
    }
}

/// The first profile with the name, from the `i`th on.
pub open spec fn named(profiles: Seq<ProviderView>, name: Seq<char>, i: int) -> Option<ProviderView>
    decreases profiles.len() - i,
{
    if i < 0 || i >= profiles.len() {
        None
    } else if profiles[i].profile_name == name {
        Some(profiles[i])
    } else {
        named(profiles, name, i + 1)
    }
}

pub fn find_named<'a>(profiles: &'a Vec<ProviderProfile>, name: &str) -> (result: Option<
    &'a ProviderProfile,
>)
    ensures
        result.deep_view() == named(profiles.deep_view(), name@, 0),
{
    let mut i: usize = 0;
    while i < profiles.len()
        invariant
            i <= profiles.len(),
            named(profiles.deep_view(), name@, 0) == named(
                profiles.deep_view(),
                name@,
                i as int,
            ),
        decreases profiles.len() - i,
    {
        assert(profiles.deep_view()[i as int] == profiles@[i as int].deep_view());
        if text::same(&profiles[i].profile_name, name) {
            return Some(&profiles[i]);
        }
        i = i + 1;
    }
    None
}

/// What a name refers to.
pub open spec fn reference_of(definitions: DefinitionsView, name: Seq<char>) -> DefinitionRefView {
    if definitions.builtin_names.contains(name) {
        DefinitionRefView::Builtin { name }
    } else {
        DefinitionRefView::Caller { name }
    }
}

/// The definition that is referred to, where it is there.
pub open spec fn definition_of(definitions: DefinitionsView, reference: DefinitionRefView) -> Option<
    ProviderView,
> {
    match reference {
        DefinitionRefView::Caller { name } => named(definitions.caller, name, 0),
        DefinitionRefView::Builtin { name } => named(definitions.builtin, name, 0),
    }
}

impl Definitions {
    /// The caller's definitions beside the presets; no definition of the caller is
    /// taken for a preset.
    pub fn new(caller: Vec<ProviderProfile>, builtin: Vec<ProviderProfile>) -> (definitions: Self)
        ensures
            definitions.deep_view() == (DefinitionsView {
                caller: caller.deep_view(),
                builtin: builtin.deep_view(),
                builtin_names: Seq::empty(),
            }),
    {
        let definitions = Definitions { caller, builtin, builtin_names: Vec::new() };
        assert(definitions.deep_view().builtin_names =~= Seq::empty());
        definitions
    }

    pub fn reference(&self, name: &str) -> (reference: DefinitionRef)
        ensures
            reference.deep_view() == reference_of(self.deep_view(), name@),
    {
        if sorted::holds(&self.builtin_names, name) {
            DefinitionRef::Builtin { name: name.to_owned() }
        } else {
            DefinitionRef::Caller { name: name.to_owned() }
        }
    }

    pub fn get(&self, reference: &DefinitionRef) -> (result: Option<&ProviderProfile>)
        ensures
            result.deep_view() == definition_of(self.deep_view(), reference.deep_view()),
    {
        match reference {
            DefinitionRef::Caller { name } => find_named(&self.caller, name),
            DefinitionRef::Builtin { name } => find_named(&self.builtin, name),
        }
    }
}

/// How many of the first `n` models have both names.
pub open spec fn occurrences(models: Seq<ModelView>, wire: Seq<char>, label: Seq<char>, n: int) -> nat
    decreases n,
{
    if n <= 0 || n > models.len() {
        0
    } else {
        occurrences(models, wire, label, n - 1) + if models[n - 1].request_model == wire
            && models[n - 1].display_model == label {
            1nat
        } else {
            0nat
        }
    }
}

/// The key of a model in its list.
pub open spec fn key_at(models: Seq<ModelView>, i: int) -> KeyView {
    let wire = models[i].request_model;
    let label = models[i].display_model;
    KeyView { wire, label, occurrence: occurrences(models, wire, label, i) as usize }
}

/// The keys of a list of models.
pub open spec fn keys_of(models: Seq<ModelView>) -> Seq<KeyView> {
    Seq::new(models.len(), |i: int| key_at(models, i))
}

fn key_of(models: &Vec<ModelProfile>, i: usize) -> (key: ModelKey)
    requires
        i < models.len(),
    ensures
        key.deep_view() == key_at(models.deep_view(), i as int),
{
    let wire = models[i].request_model.clone();
    let label = models[i].display_model.clone();
    assert(models.deep_view()[i as int] == models@[i as int].deep_view());
    let mut occurrence: usize = 0;
    let mut n: usize = 0;
    while n < i
        invariant
            n <= i < models.len(),
            occurrence <= n,
            occurrence == occurrences(models.deep_view(), wire@, label@, n as int),
        decreases i - n,
    {
        assert(models.deep_view()[n as int] == models@[n as int].deep_view());
        if text::same(&models[n].request_model, &wire) && text::same(
            &models[n].display_model,
            &label,
        ) {
            occurrence = occurrence + 1;
        }
        n = n + 1;
    }
    ModelKey { wire, label, occurrence }
}

pub fn keys(models: &Vec<ModelProfile>) -> (keys: Vec<ModelKey>)
    ensures
        keys.deep_view() == keys_of(models.deep_view()),
{
    let mut out: Vec<ModelKey> = Vec::new();
    let mut i: usize = 0;
    while i < models.len()
        invariant
            i <= models.len(),
            out.len() == i,
            forall|k: int| 0 <= k < i ==> out.deep_view()[k] == key_at(models.deep_view(), k),
        decreases models.len() - i,
    {
        out.push(key_of(models, i));
        i = i + 1;
    }
    assert(out.deep_view() =~= keys_of(models.deep_view()));
    out
}

/// The id of the row with the key: the key as JSON, behind a word.
pub open spec fn id_of(key: KeyView) -> Seq<char> {
    "definition:{\"wire\":"@ + json::text_of(JsonView::Str(key.wire)) + ",\"label\":"@
        + json::text_of(JsonView::Str(key.label)) + (",\"occurrence\":"@ + text::decimal_text(
        key.occurrence as nat,
    ) + "}"@)
}

pub fn row_id(key: &ModelKey) -> (id: String)
    ensures
        id@ == id_of(key.deep_view()),
{
    text::cat5(
        "definition:{\"wire\":",
        &json::to_text(&json::string(&key.wire)),
        ",\"label\":",
        &json::to_text(&json::string(&key.label)),
        &text::cat3(",\"occurrence\":", &text::decimal(key.occurrence as u64), "}"),
    )
}

/// The row of a default model.
pub open spec fn default_row(key: KeyView) -> RowView {
    RowView {
        id: id_of(key),
        definition_key: Some(key),
        initial: None,
        replacement: false,
        observed: false,
        overrides: model::no_overrides(),
    }
}

fn row_of(key: &ModelKey) -> (row: ModelRow)
    ensures
        row.deep_view() == default_row(key.deep_view()),
{
    ModelRow {
        id: row_id(key),
        definition_key: Some(key.duplicate()),
        initial: None,
        replacement: false,
        observed: false,
        overrides: ModelOverrides::default(),
    }
}

/// The rows of default models.
pub open spec fn default_rows(keys: Seq<KeyView>) -> Seq<RowView> {
    Seq::new(keys.len(), |i: int| default_row(keys[i]))
}

/// No images.
pub open spec fn no_images() -> ImagesView {
    ImagesView { routes: Seq::empty(), models: Seq::empty() }
}

/// An account that inherits a definition. The image routes of a preset are
/// inherited as its rows are.
pub open spec fn inherited_of(profile: ProviderView, definition: DefinitionRefView) -> SavedView {
    SavedView {
        definition,
        connection: ProviderView {
            models: Seq::empty(),
            images: if definition is Builtin {
                no_images()
            } else {
                profile.images
            },
            ..profile
        },
        fallback: profile,
        replace_models: false,
        removed_defaults: Seq::empty(),
        models: default_rows(keys_of(profile.models)),
        observations: Seq::empty(),
        incompatible_models: Seq::empty(),
    }
}

/// A row that replaces what a definition says of a model.
pub open spec fn replacement_row(key: KeyView, shown: ModelView) -> RowView {
    RowView {
        replacement: true,
        initial: Some(model::bare_model(shown.request_model)),
        overrides: model::every_value(shown),
        ..default_row(key)
    }
}

/// An account that replaces a definition: its images and every value of its rows
/// are its own.
pub open spec fn replacement_of(profile: ProviderView, definition: DefinitionRefView) -> SavedView {
    let saved = inherited_of(profile, definition);
    SavedView {
        connection: ProviderView { images: profile.images, ..saved.connection },
        replace_models: true,
        models: Seq::new(
            profile.models.len(),
            |i: int| replacement_row(key_at(profile.models, i), profile.models[i]),
        ),
        ..saved
    }
}

/// How many of the first `n` keys have the name on the wire.
pub open spec fn wire_count(keys: Seq<KeyView>, wire: Seq<char>, n: int) -> nat
    decreases n,
{
    if n <= 0 || n > keys.len() {
        0
    } else {
        wire_count(keys, wire, n - 1) + if keys[n - 1].wire == wire {
            1nat
        } else {
            0nat
        }
    }
}

fn count_wire(keys: &Vec<ModelKey>, wire: &str) -> (count: usize)
    ensures
        count == wire_count(keys.deep_view(), wire@, keys@.len() as int),
{
    let mut count: usize = 0;
    let mut n: usize = 0;
    while n < keys.len()
        invariant
            n <= keys.len(),
            count <= n,
            count == wire_count(keys.deep_view(), wire@, n as int),
        decreases keys.len() - n,
    {
        assert(keys.deep_view()[n as int] == keys@[n as int].deep_view());
        if text::same(&keys[n].wire, wire) {
            count = count + 1;
        }
        n = n + 1;
    }
    count
}

/// Whether exactly one key has the name on the wire.
pub open spec fn single(keys: Seq<KeyView>, wire: Seq<char>) -> bool {
    wire_count(keys, wire, keys.len() as int) == 1
}

/// How many of the first `n` rows stand for a default with the name on the wire.
pub open spec fn keyed_count(rows: Seq<RowView>, wire: Seq<char>, n: int) -> nat
    decreases n,
{
    if n <= 0 || n > rows.len() {
        0
    } else {
        keyed_count(rows, wire, n - 1) + if rows[n - 1].definition_key is Some
            && rows[n - 1].definition_key->0.wire == wire {
            1nat
        } else {
            0nat
        }
    }
}

fn count_keyed(rows: &Vec<ModelRow>, wire: &str) -> (count: usize)
    ensures
        count == keyed_count(rows.deep_view(), wire@, rows@.len() as int),
{
    let mut count: usize = 0;
    let mut n: usize = 0;
    while n < rows.len()
        invariant
            n <= rows.len(),
            count <= n,
            count == keyed_count(rows.deep_view(), wire@, n as int),
        decreases rows.len() - n,
    {
        assert(rows.deep_view()[n as int] == rows@[n as int].deep_view());
        if let Some(key) = &rows[n].definition_key {
            if text::same(&key.wire, wire) {
                count = count + 1;
            }
        }
        n = n + 1;
    }
    count
}

/// The place of the key, from the `i`th on.
pub open spec fn key_place(keys: Seq<KeyView>, key: KeyView, i: int) -> Option<int>
    decreases keys.len() - i,
{
    if i < 0 || i >= keys.len() {
        None
    } else if keys[i] == key {
        Some(i)
    } else {
        key_place(keys, key, i + 1)
    }
}

fn find_key(keys: &Vec<ModelKey>, key: &ModelKey) -> (result: Option<usize>)
    ensures
        match result {
            Some(place) => place < keys.len() && key_place(keys.deep_view(), key.deep_view(), 0)
                == Some(place as int),
            None => key_place(keys.deep_view(), key.deep_view(), 0) is None,
        },
{
    let mut i: usize = 0;
    while i < keys.len()
        invariant
            i <= keys.len(),
            key_place(keys.deep_view(), key.deep_view(), 0) == key_place(
                keys.deep_view(),
                key.deep_view(),
                i as int,
            ),
        decreases keys.len() - i,
    {
        assert(keys.deep_view()[i as int] == keys@[i as int].deep_view());
        if keys[i].same_content(key) {
            return Some(i);
        }
        i = i + 1;
    }
    None
}

/// The place of the first key with the name on the wire, from the `i`th on.
pub open spec fn wire_place(keys: Seq<KeyView>, wire: Seq<char>, i: int) -> Option<int>
    decreases keys.len() - i,
{
    if i < 0 || i >= keys.len() {
        None
    } else if keys[i].wire == wire {
        Some(i)
    } else {
        wire_place(keys, wire, i + 1)
    }
}

fn find_wire(keys: &Vec<ModelKey>, wire: &str) -> (result: Option<usize>)
    ensures
        match result {
            Some(place) => place < keys.len() && wire_place(keys.deep_view(), wire@, 0) == Some(
                place as int,
            ),
            None => wire_place(keys.deep_view(), wire@, 0) is None,
        },
{
    let mut i: usize = 0;
    while i < keys.len()
        invariant
            i <= keys.len(),
            wire_place(keys.deep_view(), wire@, 0) == wire_place(
                keys.deep_view(),
                wire@,
                i as int,
            ),
        decreases keys.len() - i,
    {
        assert(keys.deep_view()[i as int] == keys@[i as int].deep_view());
        if text::same(&keys[i].wire, wire) {
            return Some(i);
        }
        i = i + 1;
    }
    None
}

/// A row with another key.
pub open spec fn with_key(row: RowView, key: Option<KeyView>) -> RowView {
    RowView { definition_key: key, ..row }
}

/// A row whose default was renamed: it takes the only key that shares its name on
/// the wire, where it is the only row that does.
pub open spec fn rekeyed(row: RowView, keys: Seq<KeyView>, rows: Seq<RowView>) -> RowView {
    match row.definition_key {
        Some(held) => if key_place(keys, held, 0) is None && single(keys, held.wire)
            && keyed_count(rows, held.wire, rows.len() as int) == 1 {
            match wire_place(keys, held.wire, 0) {
                Some(place) => with_key(row, Some(keys[place])),
                None => with_key(row, None),
            }
        } else {
            row
        },
        None => row,
    }
}

fn rekey(row: &ModelRow, keys: &Vec<ModelKey>, rows: &Vec<ModelRow>) -> (result: ModelRow)
    ensures
        result.deep_view() == rekeyed(row.deep_view(), keys.deep_view(), rows.deep_view()),
{
    let mut out = row.duplicate();
    if let Some(held) = &row.definition_key {
        if find_key(keys, held).is_none() && count_wire(keys, &held.wire) == 1 && count_keyed(
            rows,
            &held.wire,
        ) == 1 {
            out.definition_key = match find_wire(keys, &held.wire) {
                Some(place) => {
                    assert(keys.deep_view()[place as int] == keys@[place as int].deep_view());
                    Some(keys[place].duplicate())
                },
                None => None,
            };
        }
    }
    out
}

/// Whether a row stands for the key.
pub open spec fn keyed(rows: Seq<RowView>, key: KeyView) -> bool {
    exists|i: int| 0 <= i < rows.len() && (#[trigger] rows[i]).definition_key == Some(key)
}

fn is_keyed(rows: &Vec<ModelRow>, key: &ModelKey) -> (result: bool)
    ensures
        result == keyed(rows.deep_view(), key.deep_view()),
{
    let mut i: usize = 0;
    while i < rows.len()
        invariant
            i <= rows.len(),
            forall|k: int|
                0 <= k < i ==> (#[trigger] rows.deep_view()[k]).definition_key != Some(
                    key.deep_view(),
                ),
        decreases rows.len() - i,
    {
        assert(rows.deep_view()[i as int] == rows@[i as int].deep_view());
        if let Some(held) = &rows[i].definition_key {
            if held.same_content(key) {
                return true;
            }
        }
        i = i + 1;
    }
    false
}

/// Whether a row was observed before there was a default for its model.
pub open spec fn waits_for(row: RowView, wire: Seq<char>) -> bool {
    &&& row.definition_key is None
    &&& !row.replacement
    &&& "observed:"@.is_prefix_of(row.id)
    &&& row.initial is Some
    &&& row.initial->0.request_model == wire
}

fn is_waiting(row: &ModelRow, wire: &str) -> (result: bool)
    ensures
        result == waits_for(row.deep_view(), wire@),
{
    match (&row.definition_key, &row.initial) {
        (None, Some(initial)) => !row.replacement && text::starts_with(&row.id, "observed:")
            && text::same(&initial.request_model, wire),
        _ => false,
    }
}

/// The place of the first row that waits for the model, from the `i`th on.
pub open spec fn waiting_place(rows: Seq<RowView>, wire: Seq<char>, i: int) -> Option<int>
    decreases rows.len() - i,
{
    if i < 0 || i >= rows.len() {
        None
    } else if waits_for(rows[i], wire) {
        Some(i)
    } else {
        waiting_place(rows, wire, i + 1)
    }
}

fn find_waiting(rows: &Vec<ModelRow>, wire: &str) -> (result: Option<usize>)
    ensures
        match result {
            Some(place) => place < rows.len() && waiting_place(rows.deep_view(), wire@, 0) == Some(
                place as int,
            ),
            None => waiting_place(rows.deep_view(), wire@, 0) is None,
        },
{
    let mut i: usize = 0;
    while i < rows.len()
        invariant
            i <= rows.len(),
            waiting_place(rows.deep_view(), wire@, 0) == waiting_place(
                rows.deep_view(),
                wire@,
                i as int,
            ),
        decreases rows.len() - i,
    {
        assert(rows.deep_view()[i as int] == rows@[i as int].deep_view());
        if is_waiting(&rows[i], wire) {
            return Some(i);
        }
        i = i + 1;
    }
    None
}

/// The rows, once the first key of each model from the `i`th on has been taken by
/// the row that waits for it. The row keeps what it started from, for the case that
/// the default leaves again.
pub open spec fn joined(rows: Seq<RowView>, keys: Seq<KeyView>, i: int) -> Seq<RowView>
    decreases keys.len() - i,
{
    if i < 0 || i >= keys.len() {
        rows
    } else if keys[i].occurrence == 0 && !keyed(rows, keys[i]) {
        match waiting_place(rows, keys[i].wire, 0) {
            Some(place) => joined(
                rows.update(place, with_key(rows[place], Some(keys[i]))),
                keys,
                i + 1,
            ),
            None => joined(rows, keys, i + 1),
        }
    } else {
        joined(rows, keys, i + 1)
    }
}

/// The rows of an account on a list of defaults.
pub open spec fn adopted(rows: Seq<RowView>, keys: Seq<KeyView>) -> Seq<RowView> {
    joined(Seq::new(rows.len(), |i: int| rekeyed(rows[i], keys, rows)), keys, 0)
}

fn rekey_all(rows: &Vec<ModelRow>, keys: &Vec<ModelKey>) -> (result: Vec<ModelRow>)
    ensures
        result.deep_view() == Seq::new(
            rows@.len(),
            |i: int| rekeyed(rows.deep_view()[i], keys.deep_view(), rows.deep_view()),
        ),
{
    let mut out: Vec<ModelRow> = Vec::new();
    let mut i: usize = 0;
    while i < rows.len()
        invariant
            i <= rows.len(),
            out.len() == i,
            forall|k: int|
                0 <= k < i ==> #[trigger] out.deep_view()[k] == rekeyed(
                    rows.deep_view()[k],
                    keys.deep_view(),
                    rows.deep_view(),
                ),
        decreases rows.len() - i,
    {
        assert(rows.deep_view()[i as int] == rows@[i as int].deep_view());
        let ghost before = out.deep_view();
        let row = rekey(&rows[i], keys, rows);
        out.push(row);
        assert(out.deep_view() == before.push(row.deep_view()));
        i = i + 1;
    }
    assert(out.deep_view() =~= Seq::new(
        rows@.len(),
        |i: int| rekeyed(rows.deep_view()[i], keys.deep_view(), rows.deep_view()),
    ));
    out
}

pub fn adopt_rows(rows: &Vec<ModelRow>, keys: &Vec<ModelKey>) -> (result: Vec<ModelRow>)
    ensures
        result.deep_view() == adopted(rows.deep_view(), keys.deep_view()),
{
    let mut out = rekey_all(rows, keys);
    assert(rows.deep_view().len() == rows@.len());
    let ghost start = out.deep_view();
    let mut i: usize = 0;
    while i < keys.len()
        invariant
            i <= keys.len(),
            joined(start, keys.deep_view(), 0) == joined(
                out.deep_view(),
                keys.deep_view(),
                i as int,
            ),
        decreases keys.len() - i,
    {
        assert(keys.deep_view()[i as int] == keys@[i as int].deep_view());
        if keys[i].occurrence == 0 && !is_keyed(&out, &keys[i]) {
            if let Some(place) = find_waiting(&out, &keys[i].wire) {
                let ghost before = out.deep_view();
                assert(before[place as int] == out@[place as int].deep_view());
                let mut row = out[place].duplicate();
                row.definition_key = Some(keys[i].duplicate());
                out.set(place, row);
                assert(out.deep_view() =~= before.update(
                    place as int,
                    with_key(before[place as int], Some(keys.deep_view()[i as int])),
                ));
            }
        }
        i = i + 1;
    }
    out
}

/// Whether a default was removed: it, or the only one of its name on the wire.
pub open spec fn is_removed(removed: Seq<KeyView>, key: KeyView, keys: Seq<KeyView>) -> bool {
    exists|i: int|
        0 <= i < removed.len() && (#[trigger] removed[i] == key || (removed[i].wire == key.wire
            && single(keys, key.wire)))
}

fn was_removed(removed: &Vec<ModelKey>, key: &ModelKey, keys: &Vec<ModelKey>) -> (result: bool)
    ensures
        result == is_removed(removed.deep_view(), key.deep_view(), keys.deep_view()),
{
    let alone = count_wire(keys, &key.wire) == 1;
    assert(alone == single(keys.deep_view(), key.wire@));
    let mut i: usize = 0;
    while i < removed.len()
        invariant
            i <= removed.len(),
            alone == single(keys.deep_view(), key.wire@),
            forall|k: int|
                0 <= k < i ==> !(#[trigger] removed.deep_view()[k] == key.deep_view() || (
                removed.deep_view()[k].wire == key.wire@ && single(keys.deep_view(), key.wire@))),
        decreases removed.len() - i,
    {
        assert(removed.deep_view()[i as int] == removed@[i as int].deep_view());
        if removed[i].same_content(key) || (alone && text::same(&removed[i].wire, &key.wire)) {
            return true;
        }
        i = i + 1;
    }
    false
}

/// The rows, with one for each default from the `i`th on that has none and was not
/// removed.
pub open spec fn completed(
    rows: Seq<RowView>,
    keys: Seq<KeyView>,
    removed: Seq<KeyView>,
    i: int,
) -> Seq<RowView>
    decreases keys.len() - i,
{
    if i < 0 || i >= keys.len() {
        rows
    } else if !is_removed(removed, keys[i], keys) && !keyed(rows, keys[i]) {
        completed(rows.push(default_row(keys[i])), keys, removed, i + 1)
    } else {
        completed(rows, keys, removed, i + 1)
    }
}

fn complete(rows: Vec<ModelRow>, keys: &Vec<ModelKey>, removed: &Vec<ModelKey>) -> (result: Vec<
    ModelRow,
>)
    ensures
        result.deep_view() == completed(
            rows.deep_view(),
            keys.deep_view(),
            removed.deep_view(),
            0,
        ),
{
    let ghost first = rows.deep_view();
    let mut out = rows;
    let mut i: usize = 0;
    while i < keys.len()
        invariant
            i <= keys.len(),
            completed(first, keys.deep_view(), removed.deep_view(), 0) == completed(
                out.deep_view(),
                keys.deep_view(),
                removed.deep_view(),
                i as int,
            ),
        decreases keys.len() - i,
    {
        assert(keys.deep_view()[i as int] == keys@[i as int].deep_view());
        if !was_removed(removed, &keys[i], keys) && !is_keyed(&out, &keys[i]) {
            out.push(row_of(&keys[i]));
        }
        i = i + 1;
    }
    out
}

/// The place of a row's own key among those with the name on the wire.
pub open spec fn own_place(keys: Seq<KeyView>, row: RowView, wire: Seq<char>) -> Option<int> {
    match row.definition_key {
        Some(key) => if key.wire == wire {
            key_place(keys, key, 0)
        } else {
            None
        },
        None => None,
    }
}

/// What a replacement is laid over: the default with its own key, or the only one
/// of its name on the wire, or what it started from.
pub open spec fn replaced_base(
    row: RowView,
    initial: ModelView,
    keys: Seq<KeyView>,
    models: Seq<ModelView>,
) -> ModelView {
    let wire = initial.request_model;
    match own_place(keys, row, wire) {
        Some(place) => models[place],
        None => if single(keys, wire) {
            match wire_place(keys, wire, 0) {
                Some(place) => models[place],
                None => initial,
            }
        } else {
            initial
        },
    }
}

/// What a row is laid over; nothing where its default has left.
pub open spec fn base_of(row: RowView, keys: Seq<KeyView>, models: Seq<ModelView>) -> Option<
    ModelView,
> {
    if row.replacement {
        match row.initial {
            Some(initial) => Some(replaced_base(row, initial, keys, models)),
            None => None,
        }
    } else {
        match row.definition_key {
            Some(key) => match key_place(keys, key, 0) {
                Some(place) => Some(models[place]),
                None => if row.observed {
                    row.initial
                } else {
                    None
                },
            },
            None => row.initial,
        }
    }
}

fn find_replaced_base<'a>(
    row: &ModelRow,
    initial: &'a ModelProfile,
    keys: &Vec<ModelKey>,
    models: &'a Vec<ModelProfile>,
) -> (base: &'a ModelProfile)
    requires
        keys.len() == models.len(),
    ensures
        base.deep_view() == replaced_base(
            row.deep_view(),
            initial.deep_view(),
            keys.deep_view(),
            models.deep_view(),
        ),
{
    let wire = initial.request_model.as_str();
    if let Some(key) = &row.definition_key {
        if text::same(&key.wire, wire) {
            if let Some(place) = find_key(keys, key) {
                assert(models.deep_view()[place as int] == models@[place as int].deep_view());
                return &models[place];
            }
        }
    }
    if count_wire(keys, wire) == 1 {
        if let Some(place) = find_wire(keys, wire) {
            assert(models.deep_view()[place as int] == models@[place as int].deep_view());
            return &models[place];
        }
    }
    initial
}

fn find_base<'a>(
    row: &'a ModelRow,
    keys: &Vec<ModelKey>,
    models: &'a Vec<ModelProfile>,
) -> (base: Option<&'a ModelProfile>)
    requires
        keys.len() == models.len(),
    ensures
        base.deep_view() == base_of(row.deep_view(), keys.deep_view(), models.deep_view()),
{
    if row.replacement {
        match &row.initial {
            Some(initial) => Some(find_replaced_base(row, initial, keys, models)),
            None => None,
        }
    } else {
        match &row.definition_key {
            Some(key) => match find_key(keys, key) {
                Some(place) => {
                    assert(models.deep_view()[place as int] == models@[place as int].deep_view());
                    Some(&models[place])
                },
                None => if row.observed {
                    row.initial.as_ref()
                } else {
                    None
                },
            },
            None => row.initial.as_ref(),
        }
    }
}

/// A value that was observed, else what was there.
pub open spec fn latest<T>(held: Option<T>, observed: Option<T>) -> Option<T> {
    match observed {
        Some(value) => Some(value),
        None => held,
    }
}

/// A model with what was observed of it.
pub open spec fn with_observation(model: ModelView, observation: Option<ObservationView>) -> ModelView {
    match observation {
        None => model,
        Some(seen) => ModelView {
            description: latest(model.description, seen.description),
            metadata: MetadataView {
                context_window_tokens: latest(
                    model.metadata.context_window_tokens,
                    seen.context_window,
                ),
                max_output_tokens: latest(
                    model.metadata.max_output_tokens,
                    seen.max_output_tokens,
                ),
                ..model.metadata
            },
            features: match seen.inference_features {
                Some(observed) => features::overlaid(model.features, observed),
                None => model.features,
            },
            ..model
        },
    }
}

fn observe(model: &ModelProfile, observation: Option<&Observation>) -> (result: ModelProfile)
    ensures
        result.deep_view() == with_observation(model.deep_view(), observation.deep_view()),
{
    let mut out = model.duplicate();
    if let Some(seen) = observation {
        if let Some(description) = &seen.description {
            out.description = Some(description.clone());
        }
        if seen.context_window.is_some() {
            out.metadata.context_window_tokens = seen.context_window;
        }
        if seen.max_output_tokens.is_some() {
            out.metadata.max_output_tokens = seen.max_output_tokens;
        }
        if let Some(observed) = &seen.inference_features {
            out.features.overlay(observed);
        }
    }
    out
}

/// A model as its connection has it.
pub open spec fn on_connection(model: ModelView, connection: ProviderView) -> ModelView {
    ModelView { features: features::on_connection(model.features, connection.features), ..model }
}

/// The row as it is shown: its base with what was observed and then what was set, as
/// the connection has it.
pub open spec fn configured(
    row: RowView,
    saved: SavedView,
    keys: Seq<KeyView>,
    models: Seq<ModelView>,
) -> Option<ConfiguredView> {
    match base_of(row, keys, models) {
        None => None,
        Some(base) => {
            let shown = on_connection(
                model::applied(
                    with_observation(
                        base,
                        sorted::found(saved.observations, base.request_model, 0),
                    ),
                    row.overrides,
                ),
                saved.connection,
            );
            Some(
                ConfiguredView {
                    row_id: row.id,
                    model: shown,
                    compatible: !saved.incompatible_models.contains(shown.request_model),
                },
            )
        },
    }
}

/// The rows from the `i`th on as they are shown, behind those before.
pub open spec fn configured_from(
    rows: Seq<RowView>,
    saved: SavedView,
    keys: Seq<KeyView>,
    models: Seq<ModelView>,
    i: int,
    before: Seq<ConfiguredView>,
) -> Seq<ConfiguredView>
    decreases rows.len() - i,
{
    if i < 0 || i >= rows.len() {
        before
    } else {
        configured_from(
            rows,
            saved,
            keys,
            models,
            i + 1,
            match configured(rows[i], saved, keys, models) {
                Some(shown) => before.push(shown),
                None => before,
            },
        )
    }
}

/// The definition of an account: the current one, else the one last seen.
pub open spec fn current_definition(saved: SavedView, definitions: DefinitionsView) -> ProviderView {
    match definition_of(definitions, saved.definition) {
        Some(definition) => definition,
        None => saved.fallback,
    }
}

/// The rows of an account, before they are laid over their bases.
pub open spec fn all_rows(saved: SavedView, keys: Seq<KeyView>) -> Seq<RowView> {
    let rows = adopted(saved.models, keys);
    if saved.replace_models {
        rows
    } else {
        completed(rows, keys, saved.removed_defaults, 0)
    }
}

/// The rows of an account.
pub open spec fn rows_of(saved: SavedView, definitions: DefinitionsView) -> Seq<ConfiguredView> {
    let models = current_definition(saved, definitions).models;
    let keys = keys_of(models);
    configured_from(all_rows(saved, keys), saved, keys, models, 0, Seq::empty())
}

/// Where the rows of an account are adopted by the current defaults.
pub open spec fn adopted_rows(saved: SavedView, definitions: DefinitionsView) -> Seq<RowView> {
    adopted(saved.models, keys_of(current_definition(saved, definitions).models))
}

/// The place of the row with the id, from the `i`th on.
pub open spec fn row_place(rows: Seq<RowView>, id: Seq<char>, i: int) -> Option<int>
    decreases rows.len() - i,
{
    if i < 0 || i >= rows.len() {
        None
    } else if rows[i].id == id {
        Some(i)
    } else {
        row_place(rows, id, i + 1)
    }
}

pub fn find_row(rows: &Vec<ModelRow>, id: &str) -> (result: Option<usize>)
    ensures
        match result {
            Some(place) => place < rows.len() && row_place(rows.deep_view(), id@, 0) == Some(
                place as int,
            ),
            None => row_place(rows.deep_view(), id@, 0) is None,
        },
{
    let mut i: usize = 0;
    while i < rows.len()
        invariant
            i <= rows.len(),
            row_place(rows.deep_view(), id@, 0) == row_place(rows.deep_view(), id@, i as int),
        decreases rows.len() - i,
    {
        assert(rows.deep_view()[i as int] == rows@[i as int].deep_view());
        if text::same(&rows[i].id, id) {
            return Some(i);
        }
        i = i + 1;
    }
    None
}

/// The first key whose row has the id, from the `i`th on.
pub open spec fn key_with_id(keys: Seq<KeyView>, id: Seq<char>, i: int) -> Option<KeyView>
    decreases keys.len() - i,
{
    if i < 0 || i >= keys.len() {
        None
    } else if id_of(keys[i]) == id {
        Some(keys[i])
    } else {
        key_with_id(keys, id, i + 1)
    }
}

fn find_key_with_id<'a>(keys: &'a Vec<ModelKey>, id: &str) -> (result: Option<&'a ModelKey>)
    ensures
        result.deep_view() == key_with_id(keys.deep_view(), id@, 0),
{
    let mut i: usize = 0;
    while i < keys.len()
        invariant
            i <= keys.len(),
            key_with_id(keys.deep_view(), id@, 0) == key_with_id(
                keys.deep_view(),
                id@,
                i as int,
            ),
        decreases keys.len() - i,
    {
        assert(keys.deep_view()[i as int] == keys@[i as int].deep_view());
        if text::same(&row_id(&keys[i]), id) {
            return Some(&keys[i]);
        }
        i = i + 1;
    }
    None
}

/// The account with a row of the id, or the refusal of an id that no row and no
/// default has.
pub open spec fn with_row(saved: SavedView, id: Seq<char>, definitions: DefinitionsView) -> Result<
    SavedView,
    StoreErrorView,
> {
    let rows = adopted_rows(saved, definitions);
    match row_place(rows, id, 0) {
        Some(_) => Ok(SavedView { models: rows, ..saved }),
        None => match key_with_id(
            keys_of(current_definition(saved, definitions).models),
            id,
            0,
        ) {
            Some(key) => Ok(
                SavedView { models: rows.push(RowView { id, ..default_row(key) }), ..saved },
            ),
            None => Err(
                StoreErrorView::UnknownModel {
                    profile_name: saved.connection.profile_name,
                    model: id,
                },
            ),
        },
    }
}

impl SavedProfile {
    pub fn inherited(profile: &ProviderProfile, definition: DefinitionRef) -> (saved: Self)
        ensures
            saved.deep_view() == inherited_of(profile.deep_view(), definition.deep_view()),
    {
        let mut connection = profile.duplicate();
        connection.models = Vec::new();
        match &definition {
            DefinitionRef::Builtin { .. } => {
                connection.images = ImageConfig { routes: Vec::new(), models: Vec::new() };
            },
            DefinitionRef::Caller { .. } => {},
        }
        let keys = keys(&profile.models);
        let mut models: Vec<ModelRow> = Vec::new();
        let mut i: usize = 0;
        while i < keys.len()
            invariant
                i <= keys.len(),
                models.len() == i,
                forall|k: int|
                    0 <= k < i ==> #[trigger] models.deep_view()[k] == default_row(
                        keys.deep_view()[k],
                    ),
            decreases keys.len() - i,
        {
            assert(keys.deep_view()[i as int] == keys@[i as int].deep_view());
            let ghost before = models.deep_view();
            let row = row_of(&keys[i]);
            models.push(row);
            assert(models.deep_view() == before.push(row.deep_view()));
            i = i + 1;
        }
        let saved = SavedProfile {
            definition,
            connection,
            fallback: profile.duplicate(),
            replace_models: false,
            removed_defaults: Vec::new(),
            models,
            observations: Vec::new(),
            incompatible_models: Vec::new(),
        };
        proof {
            let wanted = inherited_of(profile.deep_view(), definition.deep_view());
            assert(saved.deep_view().models =~= wanted.models);
            assert(saved.deep_view().connection.models =~= wanted.connection.models);
            assert(saved.deep_view().connection.images.routes
                =~= wanted.connection.images.routes);
            assert(saved.deep_view().connection.images.models
                =~= wanted.connection.images.models);
            assert(saved.deep_view().removed_defaults =~= wanted.removed_defaults);
            assert(saved.deep_view().observations =~= wanted.observations);
            assert(saved.deep_view().incompatible_models =~= wanted.incompatible_models);
        }
        saved
    }

    pub fn replacement(profile: &ProviderProfile, definition: DefinitionRef) -> (saved: Self)
        ensures
            saved.deep_view() == replacement_of(profile.deep_view(), definition.deep_view()),
    {
        let keys = keys(&profile.models);
        let mut saved = SavedProfile::inherited(profile, definition);
        let mut models: Vec<ModelRow> = Vec::new();
        let mut i: usize = 0;
        assert(keys.deep_view().len() == keys@.len());
        assert(profile.models.deep_view().len() == profile.models@.len());
        while i < profile.models.len()
            invariant
                i <= profile.models.len(),
                keys.len() == profile.models.len(),
                keys.deep_view() == keys_of(profile.models.deep_view()),
                models.len() == i,
                forall|k: int|
                    0 <= k < i ==> #[trigger] models.deep_view()[k] == replacement_row(
                        key_at(profile.models.deep_view(), k),
                        profile.models.deep_view()[k],
                    ),
            decreases profile.models.len() - i,
        {
            assert(keys.deep_view()[i as int] == keys@[i as int].deep_view());
            assert(profile.models.deep_view()[i as int] == profile.models@[i as int].deep_view());
            let mut row = row_of(&keys[i]);
            row.replacement = true;
            row.initial = Some(model::empty_model(&profile.models[i].request_model));
            row.overrides = model::values(&profile.models[i]);
            let ghost before = models.deep_view();
            models.push(row);
            assert(models.deep_view() == before.push(row.deep_view()));
            i = i + 1;
        }
        saved.connection.images = profile.images.duplicate();
        saved.replace_models = true;
        saved.models = models;
        proof {
            let wanted = replacement_of(profile.deep_view(), definition.deep_view());
            assert(saved.deep_view().models =~= wanted.models);
        }
        saved
    }

    /// The rows of the account.
    pub fn rows(&self, definitions: &Definitions) -> (rows: Vec<ConfiguredModel>)
        ensures
            rows.deep_view() == rows_of(self.deep_view(), definitions.deep_view()),
    {
        let definition = match definitions.get(&self.definition) {
            Some(definition) => definition,
            None => &self.fallback,
        };
        let keys = keys(&definition.models);
        assert(keys.deep_view().len() == keys@.len());
        assert(definition.models.deep_view().len() == definition.models@.len());
        let mut rows = adopt_rows(&self.models, &keys);
        if !self.replace_models {
            rows = complete(rows, &keys, &self.removed_defaults);
        }
        configure(&rows, self, &keys, &definition.models)
    }

    /// Lets the current defaults adopt the account's rows.
    pub fn adopt_observed(&mut self, definitions: &Definitions)
        ensures
            final(self).deep_view() == (SavedView {
                models: adopted_rows(old(self).deep_view(), definitions.deep_view()),
                ..old(self).deep_view()
            }),
    {
        let rows = {
            let definition = match definitions.get(&self.definition) {
                Some(definition) => definition,
                None => &self.fallback,
            };
            adopt_rows(&self.models, &keys(&definition.models))
        };
        self.models = rows;
    }

    /// Makes sure that the account has a row of the id, and says where. An account
    /// whose row is refused keeps the rows that were adopted.
    pub fn ensure_row(&mut self, id: &str, definitions: &Definitions) -> (result: Result<
        usize,
        ProviderStoreError,
    >)
        ensures
            match with_row(old(self).deep_view(), id@, definitions.deep_view()) {
                Ok(saved) => {
                    &&& final(self).deep_view() == saved
                    &&& result is Ok
                    &&& result->Ok_0 < final(self).models@.len()
                    &&& row_place(saved.models, id@, 0) == Some(result->Ok_0 as int)
                },
                Err(error) => {
                    &&& final(self).deep_view() == (SavedView {
                        models: adopted_rows(old(self).deep_view(), definitions.deep_view()),
                        ..old(self).deep_view()
                    })
                    &&& result is Err
                    &&& result->Err_0.deep_view() == error
                },
            },
    {
        self.adopt_observed(definitions);
        if let Some(place) = find_row(&self.models, id) {
            return Ok(place);
        }
        let keys = {
            let definition = match definitions.get(&self.definition) {
                Some(definition) => definition,
                None => &self.fallback,
            };
            keys(&definition.models)
        };
        match find_key_with_id(&keys, id) {
            Some(key) => {
                let place = self.models.len();
                let mut row = row_of(key);
                row.id = id.to_owned();
                let ghost rows = self.models.deep_view();
                self.models.push(row);
                proof {
                    assert(self.models.deep_view() == rows.push(row.deep_view()));
                    lemma_row_place_push(rows, row.deep_view(), id@, 0);
                }
                Ok(place)
            },
            None => Err(
                ProviderStoreError::UnknownModel {
                    profile_name: self.connection.profile_name.clone(),
                    model: id.to_owned(),
                },
            ),
        }
    }
}

proof fn lemma_row_place_push(rows: Seq<RowView>, row: RowView, id: Seq<char>, i: int)
    requires
        0 <= i <= rows.len(),
        row_place(rows, id, i) is None,
        row.id == id,
    ensures
        row_place(rows.push(row), id, i) == Some(rows.len() as int),
    decreases rows.len() - i,
{
    if i < rows.len() {
        assert(rows.push(row)[i] == rows[i]);
        lemma_row_place_push(rows, row, id, i + 1);
    } else {
        assert(rows.push(row)[i] == row);
    }
}

fn configure(
    rows: &Vec<ModelRow>,
    saved: &SavedProfile,
    keys: &Vec<ModelKey>,
    models: &Vec<ModelProfile>,
) -> (result: Vec<ConfiguredModel>)
    requires
        keys.len() == models.len(),
    ensures
        result.deep_view() == configured_from(
            rows.deep_view(),
            saved.deep_view(),
            keys.deep_view(),
            models.deep_view(),
            0,
            Seq::empty(),
        ),
{
    let mut out: Vec<ConfiguredModel> = Vec::new();
    let mut i: usize = 0;
    while i < rows.len()
        invariant
            i <= rows.len(),
            keys.len() == models.len(),
            configured_from(
                rows.deep_view(),
                saved.deep_view(),
                keys.deep_view(),
                models.deep_view(),
                0,
                Seq::empty(),
            ) == configured_from(
                rows.deep_view(),
                saved.deep_view(),
                keys.deep_view(),
                models.deep_view(),
                i as int,
                out.deep_view(),
            ),
        decreases rows.len() - i,
    {
        assert(rows.deep_view()[i as int] == rows@[i as int].deep_view());
        if let Some(base) = find_base(&rows[i], keys, models) {
            let observed = observe(base, sorted::find(&saved.observations, &base.request_model));
            let mut shown = model::apply(&observed, &rows[i].overrides);
            shown.features = shown.features.on_connection(&saved.connection.features);
            let compatible = !sorted::holds(&saved.incompatible_models, &shown.request_model);
            out.push(ConfiguredModel { row_id: rows[i].id.clone(), model: shown, compatible });
        }
        i = i + 1;
    }
    out
}

} // verus!
