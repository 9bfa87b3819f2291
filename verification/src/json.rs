//! JSON values: the tree, its accessors and its text form.
//!
//! An object is a list of entries ordered by key, as the text form orders them.

use crate::text;
use crate::views;
use serde_json::Value;
use vstd::prelude::*;
use vstd::utf8::encode_utf8;

verus! {

broadcast use crate::views::group_views;

/// A JSON number: an integer, or the shortest decimal text of any other number.
#[derive(Debug, Clone, PartialEq, Eq)]
pub enum Number {
    PosInt(u64),
    NegInt(i64),
    Float(String),
}

#[derive(Debug, PartialEq, Eq)]
pub enum Json {
    Null,
    Bool(bool),
    Number(Number),
    Str(String),
    Array(Vec<Json>),
    Object(Vec<(String, Json)>),
}

pub enum NumberView {
    PosInt(u64),
    NegInt(i64),
    Float(Seq<char>),
}

pub type Entries = Seq<(Seq<char>, JsonView)>;

pub enum JsonView {
    Null,
    Bool(bool),
    Number(NumberView),
    Str(Seq<char>),
    Array(Seq<JsonView>),
    Object(Seq<(Seq<char>, JsonView)>),
}

impl View for Number {
    type V = NumberView;

    open spec fn view(&self) -> NumberView {
        match self {
            Number::PosInt(n) => NumberView::PosInt(*n),
            Number::NegInt(n) => NumberView::NegInt(*n),
            Number::Float(t) => NumberView::Float(t@),
        }
    }
}

impl DeepView for Number {
    type V = NumberView;

    open spec fn deep_view(&self) -> NumberView {
        self@
    }
}

pub open spec fn json_view(json: Json) -> JsonView
    decreases json,
{
    match json {
        Json::Null => JsonView::Null,
        Json::Bool(b) => JsonView::Bool(b),
        Json::Number(n) => JsonView::Number(n@),
        Json::Str(s) => JsonView::Str(s@),
        Json::Array(items) => JsonView::Array(
            Seq::new(
                items@.len(),
                |i: int|
                    if 0 <= i < items@.len() {
                        json_view(items@[i])
                    } else {
                        JsonView::Null
                    },
            ),
        ),
        Json::Object(entries) => JsonView::Object(
            Seq::new(
                entries@.len(),
                |i: int|
                    if 0 <= i < entries@.len() {
                        (entries@[i].0@, json_view(entries@[i].1))
                    } else {
                        (Seq::empty(), JsonView::Null)
                    },
            ),
        ),
    }
}

impl View for Json {
    type V = JsonView;

    open spec fn view(&self) -> JsonView {
        json_view(*self)
    }
}

impl DeepView for Json {
    type V = JsonView;

    open spec fn deep_view(&self) -> JsonView {
        json_view(*self)
    }
}

pub broadcast proof fn lemma_array_view(items: Vec<Json>)
    ensures
        #[trigger] json_view(Json::Array(items)) == JsonView::Array(items.deep_view()),
{
    assert(json_view(Json::Array(items))->Array_0 =~= items.deep_view());
}

pub broadcast proof fn lemma_object_view(entries: Vec<(String, Json)>)
    ensures
        #[trigger] json_view(Json::Object(entries)) == JsonView::Object(entries.deep_view()),
{
    assert(json_view(Json::Object(entries))->Object_0 =~= entries.deep_view());
}

pub broadcast group group_json {
    lemma_array_view,
    lemma_object_view,
}

/// The value of the entry with the key.
pub open spec fn entry(entries: Entries, key: Seq<char>) -> Option<JsonView>
    decreases entries.len(),
{
    if entries.len() == 0 {
        None
    } else if entries[0].0 == key {
        Some(entries[0].1)
    } else {
        entry(entries.skip(1), key)
    }
}

/// The entries with `key` set to `value`: in place where the key is there, else
/// before the first greater key.
pub open spec fn put(entries: Entries, key: Seq<char>, value: JsonView) -> Entries
    decreases entries.len(),
{
    if entries.len() == 0 {
        seq![(key, value)]
    } else if entries[0].0 == key {
        entries.update(0, (key, value))
    } else if text::less(key, entries[0].0) {
        seq![(key, value)] + entries
    } else {
        seq![entries[0]] + put(entries.skip(1), key, value)
    }
}

/// The entries without the one with the key.
pub open spec fn without(entries: Entries, key: Seq<char>) -> Entries
    decreases entries.len(),
{
    if entries.len() == 0 {
        seq![]
    } else if entries[0].0 == key {
        entries.skip(1)
    } else {
        seq![entries[0]] + without(entries.skip(1), key)
    }
}

/// Keys in order, none twice: what every object read from text satisfies.
pub open spec fn ordered(entries: Entries) -> bool {
    forall|i: int, j: int|
        0 <= i < j < entries.len() ==> text::less(#[trigger] entries[i].0, #[trigger] entries[j].0)
}

/// The member of an object.
pub open spec fn member(json: JsonView, key: Seq<char>) -> Option<JsonView> {
    match json {
        JsonView::Object(entries) => entry(entries, key),
        _ => None,
    }
}

/// The member of an object, or null.
pub open spec fn at(json: JsonView, key: Seq<char>) -> JsonView {
    match member(json, key) {
        Some(value) => value,
        None => JsonView::Null,
    }
}

/// The element of an array.
pub open spec fn element(json: JsonView, i: int) -> Option<JsonView> {
    match json {
        JsonView::Array(items) => if 0 <= i < items.len() {
            Some(items[i])
        } else {
            None
        },
        _ => None,
    }
}

pub open spec fn str_of(json: JsonView) -> Option<Seq<char>> {
    match json {
        JsonView::Str(s) => Some(s),
        _ => None,
    }
}

pub open spec fn u64_of(json: JsonView) -> Option<u64> {
    match json {
        JsonView::Number(NumberView::PosInt(n)) => Some(n),
        _ => None,
    }
}

pub open spec fn bool_of(json: JsonView) -> Option<bool> {
    match json {
        JsonView::Bool(b) => Some(b),
        _ => None,
    }
}

pub open spec fn array_of(json: JsonView) -> Option<Seq<JsonView>> {
    match json {
        JsonView::Array(items) => Some(items),
        _ => None,
    }
}

pub open spec fn entries_of(json: JsonView) -> Option<Entries> {
    match json {
        JsonView::Object(entries) => Some(entries),
        _ => None,
    }
}

/// The text member of an object.
pub open spec fn str_at(json: JsonView, key: Seq<char>) -> Option<Seq<char>> {
    str_of(at(json, key))
}

/// The non-negative integer member of an object.
pub open spec fn u64_at(json: JsonView, key: Seq<char>) -> Option<u64> {
    u64_of(at(json, key))
}

pub open spec fn bool_at(json: JsonView, key: Seq<char>) -> Option<bool> {
    match member(json, key) {
        Some(value) => bool_of(value),
        None => None,
    }
}

/// The member of a member.
pub open spec fn member2(json: JsonView, a: Seq<char>, b: Seq<char>) -> Option<JsonView> {
    match member(json, a) {
        Some(value) => member(value, b),
        None => None,
    }
}

/// The member called `a`, or else the one called `b`.
pub open spec fn either(json: JsonView, a: Seq<char>, b: Seq<char>) -> Option<JsonView> {
    match member(json, a) {
        Some(value) => Some(value),
        None => member(json, b),
    }
}

/// The first member that is there of those called `a`, `b` and `c`.
pub open spec fn either3(json: JsonView, a: Seq<char>, b: Seq<char>, c: Seq<char>) -> Option<
    JsonView,
> {
    match either(json, a, b) {
        Some(value) => Some(value),
        None => member(json, c),
    }
}

/// The text in a value that may be there.
pub open spec fn str_in(json: Option<JsonView>) -> Option<Seq<char>> {
    match json {
        Some(value) => str_of(value),
        None => None,
    }
}

/// The elements of a value that may be there; none where it is no array.
pub open spec fn items_in(json: Option<JsonView>) -> Seq<JsonView> {
    match json {
        Some(JsonView::Array(items)) => items,
        _ => seq![],
    }
}

pub open spec fn i64_of(json: JsonView) -> Option<i64> {
    match json {
        JsonView::Number(NumberView::PosInt(n)) => if n <= i64::MAX {
            Some(n as i64)
        } else {
            None
        },
        JsonView::Number(NumberView::NegInt(n)) => Some(n),
        _ => None,
    }
}

proof fn lemma_entry_step(entries: Entries, i: int, key: Seq<char>)
    requires
        0 <= i < entries.len(),
    ensures
        entry(entries.skip(i), key) == (if entries[i].0 == key {
            Some(entries[i].1)
        } else {
            entry(entries.skip(i + 1), key)
        }),
{
    assert(entries.skip(i).skip(1) =~= entries.skip(i + 1));
}

/// The entry with the key.
pub fn find<'a>(entries: &'a Vec<(String, Json)>, key: &str) -> (result: Option<&'a Json>)
    ensures
        result.deep_view() == entry(entries.deep_view(), key@),
{
    let ghost all = entries.deep_view();
    let mut i: usize = 0;
    assert(all.skip(0) =~= all);
    while i < entries.len()
        invariant
            i <= entries.len(),
            all == entries.deep_view(),
            entry(all, key@) == entry(all.skip(i as int), key@),
        decreases entries.len() - i,
    {
        proof {
            lemma_entry_step(all, i as int, key@);
            assert(all[i as int] == entries@[i as int].deep_view());
        }
        if text::same(entries[i].0.as_str(), key) {
            return Some(&entries[i].1);
        }
        i = i + 1;
    }
    None
}

/// Sets `key` to `value`.
pub fn set(entries: &mut Vec<(String, Json)>, key: &str, value: Json)
    ensures
        final(entries).deep_view() == put(old(entries).deep_view(), key@, value@),
{
    let ghost all = entries.deep_view();
    let ghost wanted = put(all, key@, value@);
    let mut i: usize = 0;
    assert(all.skip(0) =~= all);
    assert(all.take(0) + put(all.skip(0), key@, value@) =~= wanted);
    while i < entries.len()
        invariant
            i <= entries.len(),
            all == entries.deep_view(),
            *entries == *old(entries),
            wanted == put(all, key@, value@),
            wanted == all.take(i as int) + put(all.skip(i as int), key@, value@),
        decreases entries.len() - i,
    {
        let ghost rest = all.skip(i as int);
        proof {
            assert(all[i as int] == entries@[i as int].deep_view());
            assert(rest[0] == all[i as int]);
            assert(rest.skip(1) =~= all.skip(i + 1));
        }
        if text::same(entries[i].0.as_str(), key) {
            let ghost before = entries@;
            let name = entries[i].0.clone();
            entries[i] = (name, value);
            proof {
                assert(entries@ =~= before.update(i as int, (name, value)));
                assert(entries.deep_view() =~= all.update(i as int, (key@, value@)));
                assert(entries.deep_view() =~= all.take(i as int) + rest.update(0, (key@, value@)));
            }
            return ;
        }
        if text::is_less(key, entries[i].0.as_str()) {
            entries.insert(i, (key.to_owned(), value));
            proof {
                assert(entries.deep_view() =~= all.take(i as int) + (seq![(key@, value@)] + rest));
            }
            return ;
        }
        proof {
            assert(all.take(i as int) + (seq![rest[0]] + put(rest.skip(1), key@, value@)) =~= all.take(
                i + 1,
            ) + put(all.skip(i + 1), key@, value@));
        }
        i = i + 1;
    }
    entries.push((key.to_owned(), value));
    proof {
        assert(all.skip(i as int) =~= seq![]);
        assert(entries.deep_view() =~= all.take(i as int) + seq![(key@, value@)]);
    }
}

/// Takes the entry with the key out.
pub fn unset(entries: &mut Vec<(String, Json)>, key: &str) -> (result: Option<Json>)
    ensures
        final(entries).deep_view() == without(old(entries).deep_view(), key@),
        result.deep_view() == entry(old(entries).deep_view(), key@),
{
    let ghost all = entries.deep_view();
    let mut i: usize = 0;
    assert(all.skip(0) =~= all);
    assert(all.take(0) + without(all, key@) =~= without(all, key@));
    while i < entries.len()
        invariant
            i <= entries.len(),
            all == entries.deep_view(),
            *entries == *old(entries),
            entry(all, key@) == entry(all.skip(i as int), key@),
            without(all, key@) == all.take(i as int) + without(all.skip(i as int), key@),
        decreases entries.len() - i,
    {
        let ghost rest = all.skip(i as int);
        proof {
            lemma_entry_step(all, i as int, key@);
            assert(all[i as int] == entries@[i as int].deep_view());
            assert(rest.skip(1) =~= all.skip(i + 1));
        }
        if text::same(entries[i].0.as_str(), key) {
            let (_, value) = entries.remove(i);
            assert(entries.deep_view() =~= all.take(i as int) + all.skip(i + 1));
            return Some(value);
        }
        proof {
            assert(all.take(i as int) + (seq![rest[0]] + without(rest.skip(1), key@)) =~= all.take(
                i + 1,
            ) + without(all.skip(i + 1), key@));
        }
        i = i + 1;
    }
    assert(all.take(i as int) + seq![] =~= all);
    assert(all.skip(i as int) =~= seq![]);
    None
}

impl Number {
    pub fn dup(&self) -> (result: Number)
        ensures
            result@ == self@,
    {
        match self {
            Number::PosInt(n) => Number::PosInt(*n),
            Number::NegInt(n) => Number::NegInt(*n),
            Number::Float(t) => Number::Float(t.clone()),
        }
    }
}

impl Json {
    pub fn dup(&self) -> (result: Json)
        ensures
            result@ == self@,
        decreases self,
    {
        broadcast use group_json;

        match self {
            Json::Null => Json::Null,
            Json::Bool(b) => Json::Bool(*b),
            Json::Number(n) => Json::Number(n.dup()),
            Json::Str(s) => Json::Str(s.clone()),
            Json::Array(items) => {
                let mut out: Vec<Json> = Vec::new();
                let mut i: usize = 0;
                while i < items.len()
                    invariant
                        i <= items.len(),
                        *self == Json::Array(*items),
                        out@.len() == i,
                        forall|k: int| 0 <= k < i ==> (#[trigger] out@[k])@ == items@[k]@,
                    decreases items.len() - i,
                {
                    assert(decreases_to!(self->Array_0@ => self->Array_0@[i as int]));
                    let item = items[i].dup();
                    out.push(item);
                    i = i + 1;
                }
                assert(out.deep_view() =~= items.deep_view());
                Json::Array(out)
            },
            Json::Object(entries) => {
                let mut out: Vec<(String, Json)> = Vec::new();
                let mut i: usize = 0;
                while i < entries.len()
                    invariant
                        i <= entries.len(),
                        *self == Json::Object(*entries),
                        out@.len() == i,
                        forall|k: int|
                            0 <= k < i ==> (#[trigger] out@[k]).0@ == entries@[k].0@ && out@[k].1@
                                == entries@[k].1@,
                    decreases entries.len() - i,
                {
                    assert(decreases_to!(self->Object_0@ => self->Object_0@[i as int].1));
                    let value = entries[i].1.dup();
                    out.push((entries[i].0.clone(), value));
                    i = i + 1;
                }
                assert(out.deep_view() =~= entries.deep_view());
                Json::Object(out)
            },
        }
    }

    /// The member of an object.
    pub fn get(&self, key: &str) -> (result: Option<&Json>)
        ensures
            result.deep_view() == member(self@, key@),
    {
        broadcast use group_json;

        match self {
            Json::Object(entries) => find(entries, key),
            _ => None,
        }
    }

    /// The element of an array.
    pub fn get_index(&self, i: usize) -> (result: Option<&Json>)
        ensures
            result.deep_view() == element(self@, i as int),
    {
        broadcast use group_json;

        match self {
            Json::Array(items) => if i < items.len() {
                Some(&items[i])
            } else {
                None
            },
            _ => None,
        }
    }

    pub fn as_str(&self) -> (result: Option<&str>)
        ensures
            result.deep_view() == str_of(self@),
    {
        match self {
            Json::Str(s) => Some(s.as_str()),
            _ => None,
        }
    }

    pub fn as_u64(&self) -> (result: Option<u64>)
        ensures
            result == u64_of(self@),
    {
        match self {
            Json::Number(Number::PosInt(n)) => Some(*n),
            _ => None,
        }
    }

    pub fn as_bool(&self) -> (result: Option<bool>)
        ensures
            result == bool_of(self@),
    {
        match self {
            Json::Bool(b) => Some(*b),
            _ => None,
        }
    }

    pub fn as_array(&self) -> (result: Option<&Vec<Json>>)
        ensures
            result.deep_view() == array_of(self@),
    {
        broadcast use group_json;

        match self {
            Json::Array(items) => Some(items),
            _ => None,
        }
    }

    pub fn as_object(&self) -> (result: Option<&Vec<(String, Json)>>)
        ensures
            result.deep_view() == entries_of(self@),
    {
        broadcast use group_json;

        match self {
            Json::Object(entries) => Some(entries),
            _ => None,
        }
    }

    pub fn as_i64(&self) -> (result: Option<i64>)
        ensures
            result == i64_of(self@),
    {
        match self {
            Json::Number(Number::PosInt(n)) => if *n <= 0x7FFF_FFFF_FFFF_FFFFu64 {
                Some(*n as i64)
            } else {
                None
            },
            Json::Number(Number::NegInt(n)) => Some(*n),
            _ => None,
        }
    }

    /// The member of a member.
    pub fn get2(&self, a: &str, b: &str) -> (result: Option<&Json>)
        ensures
            result.deep_view() == member2(self@, a@, b@),
    {
        match self.get(a) {
            Some(value) => value.get(b),
            None => None,
        }
    }

    /// The member called `a`, or else the one called `b`.
    pub fn get_either(&self, a: &str, b: &str) -> (result: Option<&Json>)
        ensures
            result.deep_view() == either(self@, a@, b@),
    {
        match self.get(a) {
            Some(value) => Some(value),
            None => self.get(b),
        }
    }

    /// The first member that is there of those called `a`, `b` and `c`.
    pub fn get_either3(&self, a: &str, b: &str, c: &str) -> (result: Option<&Json>)
        ensures
            result.deep_view() == either3(self@, a@, b@, c@),
    {
        match self.get_either(a, b) {
            Some(value) => Some(value),
            None => self.get(c),
        }
    }

    /// The boolean member of an object.
    pub fn bool_at(&self, key: &str) -> (result: Option<bool>)
        ensures
            result == bool_at(self@, key@),
    {
        match self.get(key) {
            Some(value) => value.as_bool(),
            None => None,
        }
    }

    /// The text member of an object.
    pub fn str_at(&self, key: &str) -> (result: Option<&str>)
        ensures
            result.deep_view() == str_at(self@, key@),
    {
        match self.get(key) {
            Some(value) => value.as_str(),
            None => None,
        }
    }

    /// The non-negative integer member of an object.
    pub fn u64_at(&self, key: &str) -> (result: Option<u64>)
        ensures
            result == u64_at(self@, key@),
    {
        match self.get(key) {
            Some(value) => value.as_u64(),
            None => None,
        }
    }
}

impl Clone for Json {
    fn clone(&self) -> (result: Self)
        ensures
            result@ == self@,
    {
        self.dup()
    }
}

/// A number as a `\u` escape.
pub open spec fn hex_escape(n: nat) -> Seq<char> {
    "\\u"@ + text::lower_hex_text(n, 4)
}

/// A character in a JSON string.
pub open spec fn escape_of(c: char) -> Seq<char> {
    if c == '"' {
        seq!['\\', '"']
    } else if c == '\\' {
        seq!['\\', '\\']
    } else if c as u32 == 8 {
        seq!['\\', 'b']
    } else if c as u32 == 12 {
        seq!['\\', 'f']
    } else if c == '\n' {
        seq!['\\', 'n']
    } else if c == '\r' {
        seq!['\\', 'r']
    } else if c == '\t' {
        seq!['\\', 't']
    } else if c as u32 <= 0x1F {
        hex_escape(c as nat)
    } else {
        seq![c]
    }
}

/// The text as it stands in a JSON string.
pub open spec fn escaped(s: Seq<char>) -> Seq<char>
    decreases s.len(),
{
    if s.len() == 0 {
        Seq::empty()
    } else {
        escape_of(s[0]) + escaped(s.skip(1))
    }
}

/// The JSON string of a text.
pub open spec fn quoted(s: Seq<char>) -> Seq<char> {
    seq!['"'] + escaped(s) + seq!['"']
}

/// Whether the keys of every object in a value are in order, none twice.
pub open spec fn tidy(json: JsonView) -> bool
    decreases json, 0nat,
{
    match json {
        JsonView::Array(items) => tidy_items(items, 0),
        JsonView::Object(entries) => ordered(entries) && tidy_entries(entries, 0),
        _ => true,
    }
}

pub open spec fn tidy_items(items: Seq<JsonView>, i: int) -> bool
    decreases items, items.len() - i,
{
    if i < 0 || i >= items.len() {
        true
    } else {
        tidy(items[i]) && tidy_items(items, i + 1)
    }
}

pub open spec fn tidy_entries(entries: Entries, i: int) -> bool
    decreases entries, entries.len() - i,
{
    if i < 0 || i >= entries.len() {
        true
    } else {
        proof {
            assert(decreases_to!(entries => entries[i]));
            assert(decreases_to!(entries[i] => entries[i].1));
        }
        tidy(entries[i].1) && tidy_entries(entries, i + 1)
    }
}

/// A comma, but in front of the first.
pub open spec fn comma(i: int) -> Seq<u8> {
    if i > 0 {
        seq![44u8]
    } else {
        Seq::empty()
    }
}

/// The compact JSON of a value: no space between its tokens. How null, a truth value
/// or a number is written is left to its name.
pub open spec fn compact(json: JsonView) -> Seq<u8>
    decreases json, 0nat,
{
    match json {
        JsonView::Str(s) => encode_utf8(quoted(s)),
        JsonView::Array(items) => seq![91u8] + compact_items(items, 0) + seq![93u8],
        JsonView::Object(entries) => seq![123u8] + compact_entries(entries, 0) + seq![125u8],
        _ => bytes_of(json),
    }
}

pub open spec fn compact_items(items: Seq<JsonView>, i: int) -> Seq<u8>
    decreases items, items.len() - i,
{
    if i < 0 || i >= items.len() {
        Seq::empty()
    } else {
        comma(i) + compact(items[i]) + compact_items(items, i + 1)
    }
}

pub open spec fn compact_entries(entries: Entries, i: int) -> Seq<u8>
    decreases entries, entries.len() - i,
{
    if i < 0 || i >= entries.len() {
        Seq::empty()
    } else {
        proof {
            assert(decreases_to!(entries => entries[i]));
            assert(decreases_to!(entries[i] => entries[i].1));
        }
        comma(i) + encode_utf8(quoted(entries[i].0)) + seq![58u8] + compact(entries[i].1)
            + compact_entries(entries, i + 1)
    }
}

/// The value that the text of a JSON document denotes, or the parser's error text.
pub uninterp spec fn parsed(bytes: Seq<u8>) -> Result<JsonView, Seq<char>>;

/// The bytes of the JSON text of a value.
pub uninterp spec fn bytes_of(json: JsonView) -> Seq<u8>;

/// The JSON text of a value.
pub uninterp spec fn text_of(json: JsonView) -> Seq<char>;

/// What a JSON pointer finds in a value.
pub uninterp spec fn pointed(json: JsonView, pointer: Seq<char>) -> Option<JsonView>;

/// The token with every tilde that the mark follows, and the mark, replaced.
pub open spec fn unmarked(token: Seq<char>, mark: char, to: char) -> Seq<char>
    decreases token.len(),
{
    if token.len() < 2 {
        token
    } else if token[0] == '~' && token[1] == mark {
        seq![to] + unmarked(token.skip(2), mark, to)
    } else {
        seq![token[0]] + unmarked(token.skip(1), mark, to)
    }
}

/// What a token of a pointer finds in a value: a member by its key, or an item by its
/// index, which has no sign and no leading zero.
pub open spec fn stepped(json: JsonView, token: Seq<char>) -> Option<JsonView> {
    match json {
        JsonView::Object(entries) => entry(entries, token),
        JsonView::Array(items) => if token.len() == 0 || (token[0] == '0' && token.len() > 1) {
            None
        } else {
            match text::digits_value(token, 0, 0) {
                Some(n) => if n < items.len() {
                    Some(items[n as int])
                } else {
                    None
                },
                None => None,
            }
        },
        _ => None,
    }
}

/// What the tokens from the `i`th on lead to.
pub open spec fn walked(json: JsonView, tokens: Seq<Seq<char>>, i: int) -> Option<JsonView>
    decreases tokens.len() - i,
{
    if i < 0 || i >= tokens.len() {
        Some(json)
    } else {
        match stepped(json, unmarked(unmarked(tokens[i], '1', '/'), '0', '~')) {
            Some(next) => walked(next, tokens, i + 1),
            None => None,
        }
    }
}

/// What a JSON pointer leads to. The empty pointer leads to the value itself; any
/// other is a slash and tokens with slashes between them.
pub open spec fn led_to(json: JsonView, pointer: Seq<char>) -> Option<JsonView> {
    if pointer.len() == 0 {
        Some(json)
    } else if pointer[0] != '/' {
        None
    } else {
        walked(json, text::parts(pointer, '/'), 1)
    }
}

/// The string that a JSON pointer leads to.
pub open spec fn string_led_to(json: JsonView, pointer: Seq<char>) -> Option<Seq<char>> {
    string_found(led_to(json, pointer))
}

/// The string, if that is what was found.
pub open spec fn string_found(found: Option<JsonView>) -> Option<Seq<char>> {
    match found {
        Some(JsonView::Str(s)) => Some(s),
        _ => None,
    }
}

#[verifier::external_type_specification]
#[verifier::external_body]
pub struct ExValue(serde_json::Value);

/// Converts a `serde_json::Value` one for one. A number that is no integer is
/// kept as the decimal text that `serde_json::Number` displays.
#[verifier::external_body]
fn from_value(value: Value) -> (json: Json) {
    match value {
        Value::Null => Json::Null,
        Value::Bool(b) => Json::Bool(b),
        Value::Number(n) => Json::Number(match (n.as_u64(), n.as_i64()) {
            (Some(n), _) => Number::PosInt(n),
            (None, Some(n)) => Number::NegInt(n),
            (None, None) => Number::Float(n.to_string()),
        }),
        Value::String(s) => Json::Str(s),
        Value::Array(items) => Json::Array(items.into_iter().map(from_value).collect()),
        Value::Object(map) => Json::Object(
            map.into_iter().map(|(key, value)| (key, from_value(value))).collect()),
    }
}

/// Converts to a `serde_json::Value` one for one. The decimal text of a number
/// that is no integer is read back by `str::parse`.
#[verifier::external_body]
fn to_value(json: &Json) -> (value: Value) {
    match json {
        Json::Null => Value::Null,
        Json::Bool(b) => Value::Bool(*b),
        Json::Number(Number::PosInt(n)) => Value::from(*n),
        Json::Number(Number::NegInt(n)) => Value::from(*n),
        Json::Number(Number::Float(t)) => t.parse().ok().and_then(serde_json::Number::from_f64)
            .map_or(Value::Null, Value::Number),
        Json::Str(s) => Value::String(s.clone()),
        Json::Array(items) => items.iter().map(to_value).collect(),
        Json::Object(entries) => entries.iter().map(|e| (e.0.clone(), to_value(&e.1))).collect(),
    }
}

/// `serde_json::from_slice`: the value of the document, or the displayed error.
/// Both depend on the bytes alone.
#[verifier::external_body]
pub(crate) fn parse(bytes: &[u8]) -> (result: Result<Json, String>)
    ensures
        views::res(result) == parsed(bytes@),
{
    serde_json::from_slice(bytes).map(from_value).map_err(|e| e.to_string())
}

/// `serde_json::to_vec` of the value, which cannot fail: every key is a string. It
/// writes compact JSON, the entries of an object in the order of their keys.
#[verifier::external_body]
pub(crate) fn to_bytes(json: &Json) -> (bytes: Vec<u8>)
    ensures
        bytes@ == bytes_of(json@),
        tidy(json@) ==> bytes@ == compact(json@),
{
    serde_json::to_vec(&to_value(json)).unwrap_or_default()
}

/// `serde_json::Value::pointer`: what the pointer finds, if it finds anything. It
/// depends on the value and the pointer alone. In a value whose keys are in order it
/// finds a string just where the pointer leads to that string: tokens stand between
/// slashes, `~1` in one is a slash and `~0` a tilde, and an array is indexed by
/// decimal digits without a leading zero.
#[verifier::external_body]
pub(crate) fn follow(json: &Json, pointer: &str) -> (result: Option<Json>)
    ensures
        result.deep_view() == pointed(json@, pointer@),
        tidy(json@) ==> string_found(result.deep_view()) == string_led_to(json@, pointer@),
{
    to_value(json).pointer(pointer).map(|found| from_value(found.clone()))
}

/// `serde_json::Value::to_string`: the compact JSON text of the value.
#[verifier::external_body]
pub(crate) fn to_text(json: &Json) -> (text: String)
    ensures
        text@ == text_of(json@),
{
    to_value(json).to_string()
}

pub fn string(s: &str) -> (json: Json)
    ensures
        json@ == JsonView::Str(s@),
{
    Json::Str(s.to_owned())
}

pub open spec fn uint_view(n: u64) -> JsonView {
    JsonView::Number(NumberView::PosInt(n))
}

pub fn uint(n: u64) -> (json: Json)
    ensures
        json@ == uint_view(n),
{
    Json::Number(Number::PosInt(n))
}

/// An array of one.
pub fn array1(item: Json) -> (json: Json)
    ensures
        json@ == JsonView::Array(seq![item@]),
{
    broadcast use group_json;

    let mut items: Vec<Json> = Vec::new();
    items.push(item);
    assert(items.deep_view() =~= seq![item@]);
    Json::Array(items)
}

pub open spec fn obj0() -> JsonView {
    JsonView::Object(seq![])
}

pub open spec fn obj1(k1: Seq<char>, v1: JsonView) -> JsonView {
    JsonView::Object(put(seq![], k1, v1))
}

pub open spec fn obj2(k1: Seq<char>, v1: JsonView, k2: Seq<char>, v2: JsonView) -> JsonView {
    JsonView::Object(put(put(seq![], k1, v1), k2, v2))
}

pub open spec fn obj3(
    k1: Seq<char>,
    v1: JsonView,
    k2: Seq<char>,
    v2: JsonView,
    k3: Seq<char>,
    v3: JsonView,
) -> JsonView {
    JsonView::Object(put(put(put(seq![], k1, v1), k2, v2), k3, v3))
}

pub open spec fn obj4(
    k1: Seq<char>,
    v1: JsonView,
    k2: Seq<char>,
    v2: JsonView,
    k3: Seq<char>,
    v3: JsonView,
    k4: Seq<char>,
    v4: JsonView,
) -> JsonView {
    JsonView::Object(put(put(put(put(seq![], k1, v1), k2, v2), k3, v3), k4, v4))
}

pub fn fields() -> (entries: Vec<(String, Json)>)
    ensures
        entries.deep_view() == Seq::<(Seq<char>, JsonView)>::empty(),
{
    let entries: Vec<(String, Json)> = Vec::new();
    assert(entries.deep_view() =~= Seq::<(Seq<char>, JsonView)>::empty());
    entries
}

pub fn object0() -> (json: Json)
    ensures
        json@ == obj0(),
{
    broadcast use group_json;

    Json::Object(fields())
}

pub fn object1(k1: &str, v1: Json) -> (json: Json)
    ensures
        json@ == obj1(k1@, v1@),
{
    broadcast use group_json;

    let mut entries = fields();
    set(&mut entries, k1, v1);
    Json::Object(entries)
}

pub fn object2(k1: &str, v1: Json, k2: &str, v2: Json) -> (json: Json)
    ensures
        json@ == obj2(k1@, v1@, k2@, v2@),
{
    broadcast use group_json;

    let mut entries = fields();
    set(&mut entries, k1, v1);
    set(&mut entries, k2, v2);
    Json::Object(entries)
}

pub fn object3(k1: &str, v1: Json, k2: &str, v2: Json, k3: &str, v3: Json) -> (json: Json)
    ensures
        json@ == obj3(k1@, v1@, k2@, v2@, k3@, v3@),
{
    broadcast use group_json;

    let mut entries = fields();
    set(&mut entries, k1, v1);
    set(&mut entries, k2, v2);
    set(&mut entries, k3, v3);
    Json::Object(entries)
}

pub fn object4(
    k1: &str,
    v1: Json,
    k2: &str,
    v2: Json,
    k3: &str,
    v3: Json,
    k4: &str,
    v4: Json,
) -> (json: Json)
    ensures
        json@ == obj4(k1@, v1@, k2@, v2@, k3@, v3@, k4@, v4@),
{
    broadcast use group_json;

    let mut entries = fields();
    set(&mut entries, k1, v1);
    set(&mut entries, k2, v2);
    set(&mut entries, k3, v3);
    set(&mut entries, k4, v4);
    Json::Object(entries)
}

/// Reading gives back what was set, and other keys keep their values.
pub proof fn put_then_entry(entries: Entries, key: Seq<char>, value: JsonView, other: Seq<char>)
    ensures
        entry(put(entries, key, value), key) == Some(value),
        other != key ==> entry(put(entries, key, value), other) == entry(entries, other),
    decreases entries.len(),
{
    if entries.len() == 0 {
        assert(seq![(key, value)].skip(1) =~= entries);
    } else if entries[0].0 == key {
        assert(entries.update(0, (key, value)).skip(1) =~= entries.skip(1));
    } else if text::less(key, entries[0].0) {
        assert((seq![(key, value)] + entries).skip(1) =~= entries);
    } else {
        put_then_entry(entries.skip(1), key, value, other);
        let rest = put(entries.skip(1), key, value);
        assert((seq![entries[0]] + rest).skip(1) =~= rest);
    }
}

/// Reading after setting a key, as one equation.
pub broadcast proof fn entry_after_put(entries: Entries, key: Seq<char>, value: JsonView, other: Seq<char>)
    ensures
        #[trigger] entry(put(entries, key, value), other) == if other == key {
            Some(value)
        } else {
            entry(entries, other)
        },
{
    put_then_entry(entries, key, value, other);
}

/// Each key of the entries is found.
pub proof fn a_key_is_found(entries: Entries, j: int)
    requires
        0 <= j < entries.len(),
    ensures
        entry(entries, entries[j].0) is Some,
    decreases entries.len(),
{
    if entries[0].0 != entries[j].0 {
        assert(entries.skip(1)[j - 1] == entries[j]);
        a_key_is_found(entries.skip(1), j - 1);
    }
}

/// Setting many keys leaves a key alone that is none of them.
pub proof fn put_all_keeps_other_keys(entries: Entries, more: Entries, i: int, other: Seq<char>)
    requires
        entry(more, other) is None,
    ensures
        entry(put_all(entries, more, i), other) == entry(entries, other),
    decreases more.len() - i,
{
    if 0 <= i < more.len() {
        a_key_is_found(more, i);
        put_then_entry(entries, more[i].0, more[i].1, other);
        put_all_keeps_other_keys(put(entries, more[i].0, more[i].1), more, i + 1, other);
    }
}

/// Taking a key out leaves the others as they are.
pub proof fn without_keeps_other_keys(entries: Entries, key: Seq<char>, other: Seq<char>)
    requires
        other != key,
    ensures
        entry(without(entries, key), other) == entry(entries, other),
    decreases entries.len(),
{
    if entries.len() > 0 && entries[0].0 != key {
        let rest = without(entries.skip(1), key);
        without_keeps_other_keys(entries.skip(1), key, other);
        assert((seq![entries[0]] + rest).skip(1) =~= rest);
    }
}

/// Setting a key keeps the keys in order.
pub proof fn put_keeps_order(entries: Entries, key: Seq<char>, value: JsonView)
    requires
        ordered(entries),
    ensures
        ordered(put(entries, key, value)),
        put(entries, key, value).len() > 0,
        put(entries, key, value)[0].0 == key || (entries.len() > 0 && put(
            entries,
            key,
            value,
        )[0].0 == entries[0].0),
    decreases entries.len(),
{
    if entries.len() > 0 {
        text::less_is_total(key, entries[0].0);
        if entries[0].0 == key {
        } else if text::less(key, entries[0].0) {
            assert forall|i: int, j: int|
                0 <= i < j < (seq![(key, value)] + entries).len() implies text::less(
                #[trigger] (seq![(key, value)] + entries)[i].0,
                #[trigger] (seq![(key, value)] + entries)[j].0,
            ) by {
                if i == 0 && j > 1 {
                    text::less_is_transitive(key, entries[0].0, entries[j - 1].0);
                }
            }
        } else {
            let tail = entries.skip(1);
            put_keeps_order(tail, key, value);
            let rest = put(tail, key, value);
            assert forall|j: int| 0 <= j < rest.len() implies text::less(
                entries[0].0,
                #[trigger] rest[j].0,
            ) by {
                if j > 0 {
                    assert(text::less(entries[0].0, rest[0].0));
                    text::less_is_transitive(entries[0].0, rest[0].0, rest[j].0);
                }
            }
        }
    }
}

/// `key` set to `value`, where there is one.
pub open spec fn put_some(entries: Entries, key: Seq<char>, value: Option<JsonView>) -> Entries {
    match value {
        Some(value) => put(entries, key, value),
        None => entries,
    }
}

/// The entries with every one of `more` set, from the `i`th on.
pub open spec fn put_all(entries: Entries, more: Entries, i: int) -> Entries
    decreases more.len() - i,
{
    if i < 0 || i >= more.len() {
        entries
    } else {
        put_all(put(entries, more[i].0, more[i].1), more, i + 1)
    }
}

/// Sets every one of `more`.
pub fn set_all(entries: &mut Vec<(String, Json)>, more: &Vec<(String, Json)>)
    ensures
        final(entries).deep_view() == put_all(old(entries).deep_view(), more.deep_view(), 0),
{
    let mut i: usize = 0;
    while i < more.len()
        invariant
            i <= more.len(),
            put_all(old(entries).deep_view(), more.deep_view(), 0) == put_all(
                entries.deep_view(),
                more.deep_view(),
                i as int,
            ),
        decreases more.len() - i,
    {
        assert(more.deep_view()[i as int] == more@[i as int].deep_view());
        set(entries, more[i].0.as_str(), more[i].1.dup());
        i = i + 1;
    }
}

/// A copy of the entries.
pub fn dup_entries(entries: &Vec<(String, Json)>) -> (result: Vec<(String, Json)>)
    ensures
        result.deep_view() == entries.deep_view(),
{
    let mut out: Vec<(String, Json)> = Vec::new();
    let mut i: usize = 0;
    while i < entries.len()
        invariant
            i <= entries.len(),
            out@.len() == i,
            forall|k: int|
                0 <= k < i ==> (#[trigger] out@[k]).0@ == entries@[k].0@ && out@[k].1@
                    == entries@[k].1@,
        decreases entries.len() - i,
    {
        out.push((entries[i].0.clone(), entries[i].1.dup()));
        i = i + 1;
    }
    assert(out.deep_view() =~= entries.deep_view());
    out
}

/// The text in a value that may be there.
pub fn text_in<'a>(json: Option<&'a Json>) -> (result: Option<&'a str>)
    ensures
        result.deep_view() == str_in(json.deep_view()),
{
    match json {
        Some(value) => value.as_str(),
        None => None,
    }
}

/// A copy of the text in a value that may be there.
pub fn owned_text_in(json: Option<&Json>) -> (result: Option<String>)
    ensures
        result.deep_view() == str_in(json.deep_view()),
{
    match text_in(json) {
        Some(s) => Some(s.to_owned()),
        None => None,
    }
}

/// A copy of a value that may be there.
pub fn dup_some(json: Option<&Json>) -> (result: Option<Json>)
    ensures
        result.deep_view() == json.deep_view(),
{
    match json {
        Some(value) => Some(value.dup()),
        None => None,
    }
}

/// A copy of the items.
pub fn dup_items(items: &Vec<Json>) -> (result: Vec<Json>)
    ensures
        result.deep_view() == items.deep_view(),
{
    let mut out: Vec<Json> = Vec::new();
    let mut i: usize = 0;
    while i < items.len()
        invariant
            i <= items.len(),
            out@.len() == i,
            forall|k: int| 0 <= k < i ==> (#[trigger] out@[k])@ == items@[k]@,
        decreases items.len() - i,
    {
        out.push(items[i].dup());
        i = i + 1;
    }
    assert(out.deep_view() =~= items.deep_view());
    out
}

/// Equality of numbers: that of the integers, and of the decimal texts but for
/// the two zeros.
pub open spec fn number_equal(a: NumberView, b: NumberView) -> bool {
    match (a, b) {
        (NumberView::Float(a), NumberView::Float(b)) => a == b || (zero_text(a) && zero_text(b)),
        _ => a == b,
    }
}

pub open spec fn zero_text(s: Seq<char>) -> bool {
    s == "0.0"@ || s == "-0.0"@
}

/// Equality of JSON values.
pub open spec fn equal(a: JsonView, b: JsonView) -> bool
    decreases a, 0nat,
{
    match (a, b) {
        (JsonView::Number(x), JsonView::Number(y)) => number_equal(x, y),
        (JsonView::Array(x), JsonView::Array(y)) => x.len() == y.len() && items_equal(x, y, 0),
        (JsonView::Object(x), JsonView::Object(y)) => x.len() == y.len() && entries_equal(x, y, 0),
        (JsonView::Null, JsonView::Null) => true,
        (JsonView::Bool(x), JsonView::Bool(y)) => x == y,
        (JsonView::Str(x), JsonView::Str(y)) => x == y,
        _ => false,
    }
}

pub open spec fn items_equal(x: Seq<JsonView>, y: Seq<JsonView>, i: int) -> bool
    decreases x, x.len() - i,
{
    if i < 0 || i >= x.len() {
        true
    } else {
        equal(x[i], y[i]) && items_equal(x, y, i + 1)
    }
}

pub open spec fn entries_equal(x: Entries, y: Entries, i: int) -> bool
    decreases x, x.len() - i,
{
    if i < 0 || i >= x.len() {
        true
    } else {
        proof {
            assert(decreases_to!(x => x[i]));
            assert(decreases_to!(x[i] => x[i].1));
        }
        x[i].0 == y[i].0 && equal(x[i].1, y[i].1) && entries_equal(x, y, i + 1)
    }
}

/// An entry that is taken out is gone where keys are in order, and the others keep
/// their values and their order.
pub proof fn without_then_entry(entries: Entries, key: Seq<char>, other: Seq<char>)
    requires
        ordered(entries),
    ensures
        entry(without(entries, key), key) is None,
        other != key ==> entry(without(entries, key), other) == entry(entries, other),
        ordered(without(entries, key)),
        forall|k: int|
            0 <= k < without(entries, key).len() ==> exists|n: int|
                0 <= n < entries.len() && entries[n] == #[trigger] without(entries, key)[k],
    decreases entries.len(),
{
    if entries.len() > 0 {
        let tail = entries.skip(1);
        assert(ordered(tail)) by {
            assert forall|i: int, j: int| 0 <= i < j < tail.len() implies text::less(
                #[trigger] tail[i].0,
                #[trigger] tail[j].0,
            ) by {
                assert(text::less(entries[i + 1].0, entries[j + 1].0));
            }
        }
        if entries[0].0 == key {
            lemma_greater_keys_miss(tail, key);
            assert forall|k: int| 0 <= k < tail.len() implies exists|n: int|
                0 <= n < entries.len() && entries[n] == #[trigger] tail[k] by {
                assert(entries[k + 1] == tail[k]);
            }
        } else {
            without_then_entry(tail, key, other);
            let rest = without(tail, key);
            let all = seq![entries[0]] + rest;
            assert(all.skip(1) =~= rest);
            assert forall|k: int| 0 <= k < all.len() implies exists|n: int|
                0 <= n < entries.len() && entries[n] == #[trigger] all[k] by {
                if k == 0 {
                    assert(entries[0] == all[0]);
                } else {
                    let n = choose|n: int| 0 <= n < tail.len() && tail[n] == rest[k - 1];
                    assert(entries[n + 1] == all[k]);
                }
            }
            assert forall|i: int, j: int| 0 <= i < j < all.len() implies text::less(
                #[trigger] all[i].0,
                #[trigger] all[j].0,
            ) by {
                if i == 0 {
                    let n = choose|n: int| 0 <= n < tail.len() && tail[n] == rest[j - 1];
                    assert(text::less(entries[0].0, entries[n + 1].0));
                } else {
                    assert(text::less(rest[i - 1].0, rest[j - 1].0));
                }
            }
        }
    }
}

/// A key before all others is none of them.
proof fn lemma_greater_keys_miss(entries: Entries, key: Seq<char>)
    requires
        forall|i: int| 0 <= i < entries.len() ==> text::less(key, #[trigger] entries[i].0),
    ensures
        entry(entries, key) is None,
    decreases entries.len(),
{
    if entries.len() > 0 {
        assert(text::less(key, entries[0].0));
        text::less_is_total(key, entries[0].0);
        assert forall|i: int| 0 <= i < entries.skip(1).len() implies text::less(
            key,
            #[trigger] entries.skip(1)[i].0,
        ) by {
            assert(text::less(key, entries[i + 1].0));
        }
        lemma_greater_keys_miss(entries.skip(1), key);
    }
}

/// Every key of the entries is one that was there or the one that was set.
pub proof fn put_adds_one_key(entries: Entries, key: Seq<char>, value: JsonView, k: int)
    requires
        0 <= k < put(entries, key, value).len(),
    ensures
        put(entries, key, value)[k].0 == key || exists|n: int|
            0 <= n < entries.len() && entries[n] == put(entries, key, value)[k],
    decreases entries.len(),
{
    if entries.len() == 0 {
    } else if entries[0].0 == key {
        if k > 0 {
            assert(entries[k] == put(entries, key, value)[k]);
        }
    } else if text::less(key, entries[0].0) {
        if k > 0 {
            assert(entries[k - 1] == put(entries, key, value)[k]);
        }
    } else if k == 0 {
        assert(entries[0] == put(entries, key, value)[0]);
    } else {
        let rest = put(entries.skip(1), key, value);
        put_adds_one_key(entries.skip(1), key, value, k - 1);
        assert(put(entries, key, value)[k] == rest[k - 1]);
        if rest[k - 1].0 != key {
            let n = choose|n: int| 0 <= n < entries.skip(1).len() && entries.skip(1)[n] == rest[k
                - 1];
            assert(entries[n + 1] == rest[k - 1]);
        }
    }
}

/// A value equals itself.
pub proof fn a_value_equals_itself(a: JsonView)
    ensures
        equal(a, a),
    decreases a, 0nat,
{
    match a {
        JsonView::Array(items) => {
            items_equal_themselves(items, 0);
        },
        JsonView::Object(entries) => {
            entries_equal_themselves(entries, 0);
        },
        _ => {},
    }
}

proof fn items_equal_themselves(x: Seq<JsonView>, i: int)
    ensures
        items_equal(x, x, i),
    decreases x, x.len() - i,
{
    if 0 <= i < x.len() {
        a_value_equals_itself(x[i]);
        items_equal_themselves(x, i + 1);
    }
}

proof fn entries_equal_themselves(x: Entries, i: int)
    ensures
        entries_equal(x, x, i),
    decreases x, x.len() - i,
{
    if 0 <= i < x.len() {
        assert(decreases_to!(x => x[i]));
        assert(decreases_to!(x[i] => x[i].1));
        a_value_equals_itself(x[i].1);
        entries_equal_themselves(x, i + 1);
    }
}

/// Equality of values goes both ways.
pub proof fn equality_goes_both_ways(a: JsonView, b: JsonView)
    ensures
        equal(a, b) == equal(b, a),
    decreases a, 0nat,
{
    match (a, b) {
        (JsonView::Array(x), JsonView::Array(y)) => {
            if x.len() == y.len() {
                items_equal_both_ways(x, y, 0);
            }
        },
        (JsonView::Object(x), JsonView::Object(y)) => {
            if x.len() == y.len() {
                entries_equal_both_ways(x, y, 0);
            }
        },
        _ => {},
    }
}

proof fn items_equal_both_ways(x: Seq<JsonView>, y: Seq<JsonView>, i: int)
    requires
        x.len() == y.len(),
    ensures
        items_equal(x, y, i) == items_equal(y, x, i),
    decreases x, x.len() - i,
{
    if 0 <= i < x.len() {
        equality_goes_both_ways(x[i], y[i]);
        items_equal_both_ways(x, y, i + 1);
    }
}

proof fn entries_equal_both_ways(x: Entries, y: Entries, i: int)
    requires
        x.len() == y.len(),
    ensures
        entries_equal(x, y, i) == entries_equal(y, x, i),
    decreases x, x.len() - i,
{
    if 0 <= i < x.len() {
        assert(decreases_to!(x => x[i]));
        assert(decreases_to!(x[i] => x[i].1));
        equality_goes_both_ways(x[i].1, y[i].1);
        entries_equal_both_ways(x, y, i + 1);
    }
}

fn is_zero_text(s: &str) -> (result: bool)
    ensures
        result == zero_text(s@),
{
    text::same(s, "0.0") || text::same(s, "-0.0")
}

impl Number {
    pub fn same(&self, other: &Number) -> (result: bool)
        ensures
            result == number_equal(self@, other@),
    {
        match (self, other) {
            (Number::PosInt(a), Number::PosInt(b)) => *a == *b,
            (Number::NegInt(a), Number::NegInt(b)) => *a == *b,
            (Number::Float(a), Number::Float(b)) => text::same(a, b) || (is_zero_text(a)
                && is_zero_text(b)),
            _ => false,
        }
    }
}

/// Whether two values are equal.
pub fn same(a: &Json, b: &Json) -> (result: bool)
    ensures
        result == equal(a@, b@),
    decreases a,
{
    broadcast use group_json;

    match (a, b) {
        (Json::Null, Json::Null) => true,
        (Json::Bool(x), Json::Bool(y)) => *x == *y,
        (Json::Number(x), Json::Number(y)) => x.same(y),
        (Json::Str(x), Json::Str(y)) => text::same(x, y),
        (Json::Array(x), Json::Array(y)) => {
            if x.len() != y.len() {
                return false;
            }
            let mut i: usize = 0;
            while i < x.len()
                invariant
                    i <= x.len(),
                    x.len() == y.len(),
                    decreases_to!(a => x@),
                    a@ == JsonView::Array(x.deep_view()),
                    b@ == JsonView::Array(y.deep_view()),
                    items_equal(x.deep_view(), y.deep_view(), 0) == items_equal(
                        x.deep_view(),
                        y.deep_view(),
                        i as int,
                    ),
                decreases x.len() - i,
            {
                assert(decreases_to!(x@ => x@[i as int]));
                assert(x.deep_view()[i as int] == x@[i as int]@);
                assert(y.deep_view()[i as int] == y@[i as int]@);
                if !same(&x[i], &y[i]) {
                    return false;
                }
                i = i + 1;
            }
            true
        },
        (Json::Object(x), Json::Object(y)) => {
            if x.len() != y.len() {
                return false;
            }
            let mut i: usize = 0;
            while i < x.len()
                invariant
                    i <= x.len(),
                    x.len() == y.len(),
                    decreases_to!(a => x@),
                    a@ == JsonView::Object(x.deep_view()),
                    b@ == JsonView::Object(y.deep_view()),
                    entries_equal(x.deep_view(), y.deep_view(), 0) == entries_equal(
                        x.deep_view(),
                        y.deep_view(),
                        i as int,
                    ),
                decreases x.len() - i,
            {
                assert(decreases_to!(x@ => x@[i as int]));
                assert(decreases_to!(x@[i as int] => x@[i as int].1));
                assert(x.deep_view()[i as int] == x@[i as int].deep_view());
                assert(y.deep_view()[i as int] == y@[i as int].deep_view());
                if !text::same(&x[i].0, &y[i].0) || !same(&x[i].1, &y[i].1) {
                    return false;
                }
                i = i + 1;
            }
            true
        },
        _ => false,
    }
}

/// The value, or null where there is none.
pub open spec fn or_null(json: Option<JsonView>) -> JsonView {
    match json {
        Some(value) => value,
        None => JsonView::Null,
    }
}

/// A member of a value that may be there.
pub fn get_in<'a>(json: Option<&'a Json>, key: &str) -> (result: Option<&'a Json>)
    ensures
        or_null(result.deep_view()) == at(or_null(json.deep_view()), key@),
        result.deep_view() == member(or_null(json.deep_view()), key@),
{
    match json {
        Some(value) => value.get(key),
        None => None,
    }
}

/// Null, or no value at all.
pub fn is_null(json: Option<&Json>) -> (result: bool)
    ensures
        result == (or_null(json.deep_view()) == JsonView::Null),
{
    match json {
        Some(Json::Null) => true,
        Some(_) => false,
        None => true,
    }
}

/// An array of texts.
pub open spec fn text_array(texts: Seq<Seq<char>>) -> JsonView {
    JsonView::Array(Seq::new(texts.len(), |i: int| JsonView::Str(texts[i])))
}

pub fn strings(texts: &Vec<String>) -> (json: Json)
    ensures
        json@ == text_array(texts.deep_view()),
{
    broadcast use group_json;

    let mut items: Vec<Json> = Vec::new();
    let mut i: usize = 0;
    while i < texts.len()
        invariant
            i <= texts.len(),
            items@.len() == i,
            forall|k: int| 0 <= k < i ==> (#[trigger] items@[k])@ == JsonView::Str(texts@[k]@),
        decreases texts.len() - i,
    {
        items.push(Json::Str(texts[i].clone()));
        i = i + 1;
    }
    let json = Json::Array(items);
    assert(json@->Array_0 =~= text_array(texts.deep_view())->Array_0);
    json
}

/// A boolean that may be there, or null.
pub open spec fn bool_or_null(b: Option<bool>) -> JsonView {
    match b {
        Some(b) => JsonView::Bool(b),
        None => JsonView::Null,
    }
}

pub fn optional_bool(b: Option<bool>) -> (json: Json)
    ensures
        json@ == bool_or_null(b),
{
    match b {
        Some(b) => Json::Bool(b),
        None => Json::Null,
    }
}

/// The elements of an array under a key; none where it is no array.
pub open spec fn items_at(entries: Entries, key: Seq<char>) -> Seq<JsonView> {
    items_in(entry(entries, key))
}

/// The entries with an item pushed on the array under a key.
pub open spec fn pushed(entries: Entries, key: Seq<char>, item: JsonView) -> Entries {
    put(entries, key, JsonView::Array(items_at(entries, key).push(item)))
}

/// Pushes an item on the array under a key, which is made where it is missing.
pub fn push_at(entries: &mut Vec<(String, Json)>, key: &str, item: Json)
    ensures
        final(entries).deep_view() == pushed(old(entries).deep_view(), key@, item@),
{
    broadcast use group_json;

    let mut items = match find(entries, key) {
        Some(Json::Array(items)) => dup_items(items),
        _ => Vec::new(),
    };
    assert(items.deep_view() =~= items_at(entries.deep_view(), key@));
    items.push(item);
    set(entries, key, Json::Array(items));
}

/// The entries of an object under a key; none where it is no object.
pub open spec fn fields_at(entries: Entries, key: Seq<char>) -> Entries {
    match entry(entries, key) {
        Some(JsonView::Object(fields)) => fields,
        _ => Seq::empty(),
    }
}

/// The entries with a member set in the object under a key.
pub open spec fn put_in(entries: Entries, outer: Seq<char>, key: Seq<char>, value: JsonView) -> Entries {
    put(entries, outer, JsonView::Object(put(fields_at(entries, outer), key, value)))
}

/// Sets a member of the object under a key, which is made where it is missing.
pub fn set_in(entries: &mut Vec<(String, Json)>, outer: &str, key: &str, value: Json)
    ensures
        final(entries).deep_view() == put_in(old(entries).deep_view(), outer@, key@, value@),
{
    broadcast use group_json;

    let mut inner = match find(entries, outer) {
        Some(Json::Object(fields)) => dup_entries(fields),
        _ => fields(),
    };
    set(&mut inner, key, value);
    set(entries, outer, Json::Object(inner));
}

/// One list behind the other.
pub fn concat(front: Vec<Json>, back: Vec<Json>) -> (result: Vec<Json>)
    ensures
        result.deep_view() == front.deep_view() + back.deep_view(),
{
    let ghost first = front@;
    let ghost second = back@;
    let mut out = front;
    let mut back = back;
    out.append(&mut back);
    assert(views::each(first + second) =~= views::each(first) + views::each(second));
    out
}

/// What a JSON text denotes, or null where it is none.
pub open spec fn text_value(s: Seq<char>) -> JsonView {
    match parsed(vstd::utf8::encode_utf8(s)) {
        Ok(value) => value,
        Err(_) => JsonView::Null,
    }
}

pub fn value_of_text(s: &str) -> (json: Json)
    ensures
        json@ == text_value(s@),
{
    match parse(s.as_bytes()) {
        Ok(value) => value,
        Err(_) => Json::Null,
    }
}

/// The value that bytes denote, or null.
pub open spec fn bytes_value(bytes: Seq<u8>) -> JsonView {
    match parsed(bytes) {
        Ok(value) => value,
        Err(_) => JsonView::Null,
    }
}

pub fn value_of_bytes(bytes: &[u8]) -> (json: Json)
    ensures
        json@ == bytes_value(bytes@),
{
    match parse(bytes) {
        Ok(value) => value,
        Err(_) => Json::Null,
    }
}

/// A text member, or nothing.
pub open spec fn text_or_empty(json: JsonView, key: Seq<char>) -> Seq<char> {
    match str_at(json, key) {
        Some(s) => s,
        None => Seq::empty(),
    }
}

pub fn text_at(json: &Json, key: &str) -> (result: String)
    ensures
        result@ == text_or_empty(json@, key@),
{
    match json.str_at(key) {
        Some(s) => s.to_owned(),
        None => String::new(),
    }
}

/// A count, or zero.
pub open spec fn count_in(json: Option<JsonView>) -> u64 {
    match json {
        Some(value) => match u64_of(value) {
            Some(n) => n,
            None => 0,
        },
        None => 0,
    }
}

pub fn count(json: Option<&Json>) -> (n: u64)
    ensures
        n == count_in(json.deep_view()),
{
    match json {
        Some(value) => match value.as_u64() {
            Some(n) => n,
            None => 0,
        },
        None => 0,
    }
}

/// The type that an object states is the given one.
pub open spec fn is_kind(json: JsonView, kind: Seq<char>) -> bool {
    str_at(json, "type"@) == Some(kind)
}

pub fn kind_is(json: &Json, kind: &str) -> (result: bool)
    ensures
        result == is_kind(json@, kind@),
{
    match json.str_at("type") {
        Some(found) => text::same(found, kind),
        None => false,
    }
}

/// The member of an object, or the null that stands in for it.
pub fn member_or<'a>(json: &'a Json, key: &str, null: &'a Json) -> (result: &'a Json)
    requires
        null@ == JsonView::Null,
    ensures
        result@ == at(json@, key@),
{
    match json.get(key) {
        Some(value) => value,
        None => null,
    }
}

/// The member, or null.
pub fn member_or_null(json: &Json, key: &str) -> (value: Json)
    ensures
        value@ == at(json@, key@),
{
    match json.get(key) {
        Some(value) => value.dup(),
        None => Json::Null,
    }
}

/// The value of a hexadecimal digit.
pub open spec fn digit_value(c: char) -> nat {
    if '0' <= c <= '9' {
        (c as nat - 48) as nat
    } else {
        (c as nat - 87) as nat
    }
}

/// The character that stands in a JSON string for itself or behind a backslash.
pub open spec fn stands_for(s: Seq<char>) -> Option<char> {
    if s.len() == 1 && s[0] != '"' && s[0] != '\\' && s[0] as u32 > 0x1F {
        Some(s[0])
    } else if s.len() == 2 && s[0] == '\\' && (s[1] == '"' || s[1] == '\\') {
        Some(s[1])
    } else if s.len() == 2 && s[0] == '\\' && s[1] == 'n' {
        Some('\n')
    } else if s.len() == 2 && s[0] == '\\' && s[1] == 'r' {
        Some('\r')
    } else if s.len() == 2 && s[0] == '\\' && s[1] == 't' {
        Some('\t')
    } else if s.len() == 2 && s[0] == '\\' && s[1] == 'b' {
        Some(8u32 as char)
    } else if s.len() == 2 && s[0] == '\\' && s[1] == 'f' {
        Some(12u32 as char)
    } else if s.len() == 6 && s[0] == '\\' && s[1] == 'u' {
        Some(
            (digit_value(s[2]) * 4096 + digit_value(s[3]) * 256 + digit_value(s[4]) * 16
                + digit_value(s[5])) as char,
        )
    } else {
        None
    }
}

/// What stands in a JSON string for a character is read as that character.
pub proof fn an_escape_is_read_back(c: char)
    ensures
        stands_for(escape_of(c)) == Some(c),
{
    reveal_strlit("\\u");
    reveal_with_fuel(text::lower_hex_text, 5);
    if c as u32 <= 0x1F {
        let n = c as nat;
        let s = text::lower_hex_text(n, 4);
        assert(n / 16 / 16 == 0 && n / 16 <= 1);
        assert(s.len() == 4);
        assert(s[0] == '0' && s[1] == '0');
        assert(s[2] == text::lower_hex_digit(n / 16));
        assert(s[3] == text::lower_hex_digit(n % 16));
        assert(n == (n / 16) * 16 + n % 16);
        let e = hex_escape(n);
        assert(e.len() == 6);
        assert(e[0] == '\\' && e[1] == 'u' && e[2] == s[0] && e[3] == s[1] && e[4] == s[2] && e[5]
            == s[3]);
        assert(digit_value(e[4]) == n / 16);
        assert(digit_value(e[5]) == n % 16);
        assert(digit_value(e[2]) == 0 && digit_value(e[3]) == 0);
    }
}

proof fn lemma_items_alike(x: Seq<JsonView>, y: Seq<JsonView>, i: int, k: int)
    requires
        0 <= i <= k < x.len(),
        items_equal(x, y, i),
    ensures
        equal(x[k], y[k]),
    decreases k - i,
{
    if i < k {
        lemma_items_alike(x, y, i + 1, k);
    }
}

proof fn lemma_entries_alike(x: Entries, y: Entries, i: int, k: int)
    requires
        0 <= i <= k < x.len(),
        entries_equal(x, y, i),
    ensures
        x[k].0 == y[k].0,
        equal(x[k].1, y[k].1),
    decreases k - i,
{
    if i < k {
        lemma_entries_alike(x, y, i + 1, k);
    }
}

/// Values that are equal are of the same kind and hold the same: the same text, the same
/// number, and one for one the same items and members.
pub proof fn equal_values_hold_the_same(a: JsonView, b: JsonView, k: int)
    requires
        equal(a, b),
    ensures
        a is Str ==> a == b,
        a is Bool ==> a == b,
        a is Null ==> a == b,
        a matches JsonView::Number(NumberView::PosInt(_)) ==> a == b,
        a matches JsonView::Array(x) ==> (b matches JsonView::Array(y) && x.len() == y.len() && (0 <= k
            < x.len() ==> equal(x[k], y[k]))),
        a matches JsonView::Object(x) ==> (b matches JsonView::Object(y) && x.len() == y.len() && (0
            <= k < x.len() ==> x[k].0 == y[k].0 && equal(x[k].1, y[k].1))),
{
    match (a, b) {
        (JsonView::Array(x), JsonView::Array(y)) => {
            if 0 <= k < x.len() {
                lemma_items_alike(x, y, 0, k);
            }
        },
        (JsonView::Object(x), JsonView::Object(y)) => {
            if 0 <= k < x.len() {
                lemma_entries_alike(x, y, 0, k);
            }
        },
        _ => {},
    }
}

} // verus!
