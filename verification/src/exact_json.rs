//! Exact JSON serialization for callers that keep JavaScript's UTF-16 text.

use crate::json::{self, Entries, Json, JsonView};
use crate::protocol::error;
use crate::protocol::{LlmError, LlmErrorView};
use crate::text;
use crate::views;
use vstd::prelude::*;
use vstd::utf8::encode_utf8;

verus! {

broadcast use {crate::views::group_views, crate::json::group_json};

/// String leaves with the UTF-16 code units that stand for them, by their JSON
/// pointers, in the order of these.
pub struct TextOverrides {
    entries: Vec<(String, Vec<u16>)>,
}

/// The overrides of each pointer, in the order of the pointers.
pub type OverrideViews = Seq<(Seq<char>, Seq<u16>)>;

impl View for TextOverrides {
    type V = OverrideViews;

    closed spec fn view(&self) -> OverrideViews {
        self.entries.deep_view()
    }
}

/// The overrides with one more, in place of an earlier one of the pointer.
pub open spec fn with_override(all: OverrideViews, pointer: Seq<char>, units: Seq<u16>, i: int) -> OverrideViews
    decreases all.len() - i,
{
    if i < 0 || i >= all.len() {
        all.push((pointer, units))
    } else if all[i].0 == pointer {
        all.update(i, (pointer, units))
    } else if text::less(pointer, all[i].0) {
        all.insert(i, (pointer, units))
    } else {
        with_override(all, pointer, units, i + 1)
    }
}

/// The override of a pointer, from the `i`th on.
pub open spec fn override_of(all: OverrideViews, pointer: Seq<char>, i: int) -> Option<Seq<u16>>
    decreases all.len() - i,
{
    if i < 0 || i >= all.len() {
        None
    } else if all[i].0 == pointer {
        Some(all[i].1)
    } else {
        override_of(all, pointer, i + 1)
    }
}

impl TextOverrides {
    pub fn new() -> (overrides: Self)
        ensures
            overrides@ == Seq::<(Seq<char>, Seq<u16>)>::empty(),
    {
        let overrides = TextOverrides { entries: Vec::new() };
        assert(overrides@ =~= Seq::empty());
        overrides
    }

    pub fn insert(&mut self, pointer: &str, units: Vec<u16>)
        ensures
            final(self)@ == with_override(old(self)@, pointer@, units@, 0),
    {
        let ghost before = self@;
        let ghost added = (pointer@, units@);
        let mut i: usize = 0;
        while i < self.entries.len() && !text::same(&self.entries[i].0, pointer) && !text::is_less(
            pointer,
            &self.entries[i].0,
        )
            invariant
                i <= self.entries.len(),
                self@ == before,
                before.len() == self.entries@.len(),
                with_override(before, pointer@, added.1, 0) == with_override(
                    before,
                    pointer@,
                    added.1,
                    i as int,
                ),
            decreases self.entries.len() - i,
        {
            assert(before[i as int] == self.entries@[i as int].deep_view());
            i = i + 1;
        }
        let entry = (pointer.to_owned(), units);
        assert(entry.deep_view().1 =~= added.1);
        if i >= self.entries.len() {
            self.entries.push(entry);
        } else {
            assert(before[i as int] == self.entries@[i as int].deep_view());
            if text::same(&self.entries[i].0, pointer) {
                self.entries.set(i, entry);
                assert(self@ =~= before.update(i as int, added));
            } else {
                self.entries.insert(i, entry);
                assert(self@ =~= before.insert(i as int, added));
            }
        }
    }

    fn find(&self, pointer: &str) -> (result: Option<&Vec<u16>>)
        ensures
            match result {
                Some(units) => override_of(self@, pointer@, 0) == Some(units@),
                None => override_of(self@, pointer@, 0) is None,
            },
    {
        let mut i: usize = 0;
        while i < self.entries.len()
            invariant
                i <= self.entries.len(),
                override_of(self@, pointer@, 0) == override_of(self@, pointer@, i as int),
            decreases self.entries.len() - i,
        {
            assert(self@[i as int] == self.entries@[i as int].deep_view());
            if text::same(&self.entries[i].0, pointer) {
                assert(self.entries@[i as int].1.deep_view() =~= self.entries@[i as int].1@);
                return Some(&self.entries[i].1);
            }
            i = i + 1;
        }
        None
    }
}

pub open spec fn high_surrogate(unit: u16) -> bool {
    0xD800 <= unit <= 0xDBFF
}

pub open spec fn low_surrogate(unit: u16) -> bool {
    0xDC00 <= unit <= 0xDFFF
}

/// The scalar value of a surrogate pair.
pub open spec fn scalar_of(high: u16, low: u16) -> u32 {
    (0x1_0000 + (high - 0xD800) * 0x400 + (low - 0xDC00)) as u32
}

/// The text with the code units from the `i`th on behind it. A surrogate pair is
/// its character; a surrogate on its own is an escape, never a replacement
/// character.
pub open spec fn units_text(units: Seq<u16>, i: int, before: Seq<char>) -> Seq<char>
    decreases units.len() - i,
{
    if i < 0 || i >= units.len() {
        before
    } else if high_surrogate(units[i]) && i + 1 < units.len() && low_surrogate(units[i + 1]) {
        units_text(
            units,
            i + 2,
            before + json::escape_of(scalar_of(units[i], units[i + 1]) as char),
        )
    } else if high_surrogate(units[i]) || low_surrogate(units[i]) {
        units_text(units, i + 1, before + json::hex_escape(units[i] as nat))
    } else {
        units_text(units, i + 1, before + json::escape_of(units[i] as char))
    }
}

/// The JSON string of UTF-16 code units.
pub open spec fn string_text(units: Seq<u16>) -> Seq<char> {
    units_text(units, 0, seq!['"']).push('"')
}

fn push_escape(out: &mut String, n: u32)
    ensures
        final(out)@ == old(out)@ + json::hex_escape(n as nat),
{
    let ghost before = out@;
    out.append("\\u");
    out.append(&text::lower_hex(n as u128, 4));
    assert(out@ =~= before + json::hex_escape(n as nat));
}

fn push_two(out: &mut String, second: char)
    ensures
        final(out)@ == old(out)@ + seq!['\\', second],
{
    let ghost before = out@;
    out.push('\\');
    out.push(second);
    assert(out@ =~= before + seq!['\\', second]);
}

fn write_json_char(out: &mut String, c: char)
    ensures
        final(out)@ == old(out)@ + json::escape_of(c),
{
    let ghost before = out@;
    let n = c as u32;
    if c == '"' {
        push_two(out, '"');
    } else if c == '\\' {
        push_two(out, '\\');
    } else if n == 8 {
        push_two(out, 'b');
    } else if n == 12 {
        push_two(out, 'f');
    } else if c == '\n' {
        push_two(out, 'n');
    } else if c == '\r' {
        push_two(out, 'r');
    } else if c == '\t' {
        push_two(out, 't');
    } else if n <= 0x1F {
        push_escape(out, n);
    } else {
        out.push(c);
        assert(out@ =~= before + seq![c]);
    }
}

fn write_json_string_from_utf16(units: &[u16]) -> (result: String)
    ensures
        result@ == string_text(units@),
{
    let mut out = String::new();
    out.push('"');
    assert(out@ =~= seq!['"']);
    let mut i: usize = 0;
    while i < units.len()
        invariant
            i <= units.len(),
            units_text(units@, 0, seq!['"']) == units_text(units@, i as int, out@),
        decreases units.len() - i,
    {
        let unit = units[i];
        if 0xD800 <= unit && unit <= 0xDBFF && i + 1 < units.len() && 0xDC00 <= units[i + 1]
            && units[i + 1] <= 0xDFFF {
            let low = units[i + 1];
            let scalar: u32 = 0x1_0000 + (unit as u32 - 0xD800) * 0x400 + (low as u32 - 0xDC00);
            assert(scalar == scalar_of(unit, low));
            if let Some(c) = text::scalar(scalar) {
                write_json_char(&mut out, c);
            }
            i = i + 2;
        } else if 0xD800 <= unit && unit <= 0xDFFF {
            push_escape(&mut out, unit as u32);
            i = i + 1;
        } else {
            if let Some(c) = text::scalar(unit as u32) {
                write_json_char(&mut out, c);
            }
            i = i + 1;
        }
    }
    out.push('"');
    out
}

/// The exact length in bytes of the JSON string of UTF-16 code units, quotes
/// included.
pub fn json_string_len_from_utf16(units: &[u16]) -> (len: u64)
    ensures
        len == encode_utf8(string_text(units@)).len(),
{
    let encoded = write_json_string_from_utf16(units);
    encoded.as_str().as_bytes().len() as u64
}

/// A key as a token of a JSON pointer, from its `i`th character on.
pub open spec fn token_of(key: Seq<char>, i: int, before: Seq<char>) -> Seq<char>
    decreases key.len() - i,
{
    if i < 0 || i >= key.len() {
        before
    } else {
        token_of(
            key,
            i + 1,
            if key[i] == '~' {
                before + seq!['~', '0']
            } else if key[i] == '/' {
                before + seq!['~', '1']
            } else {
                before.push(key[i])
            },
        )
    }
}

fn escape_json_pointer_token(key: &str) -> (token: String)
    ensures
        token@ == token_of(key@, 0, Seq::empty()),
{
    let cs = text::chars(key);
    let mut out = String::new();
    assert(out@ =~= Seq::empty());
    let mut i: usize = 0;
    while i < cs.len()
        invariant
            i <= cs.len(),
            cs@ == key@,
            token_of(key@, 0, Seq::empty()) == token_of(key@, i as int, out@),
        decreases cs.len() - i,
    {
        let ghost before = out@;
        if cs[i] == '~' {
            out.push('~');
            out.push('0');
            assert(out@ =~= before + seq!['~', '0']);
        } else if cs[i] == '/' {
            out.push('~');
            out.push('1');
            assert(out@ =~= before + seq!['~', '1']);
        } else {
            out.push(cs[i]);
        }
        i = i + 1;
    }
    out
}

pub open spec fn item_pointer(pointer: Seq<char>, i: int) -> Seq<char> {
    pointer + "/"@ + text::decimal_text(i as nat)
}

pub open spec fn member_pointer(pointer: Seq<char>, key: Seq<char>) -> Seq<char> {
    pointer + "/"@ + token_of(key, 0, Seq::empty())
}

/// The bytes of a value that the pointer leads to: its JSON, with every string leaf
/// that has an override written from the code units.
pub open spec fn written(value: JsonView, all: OverrideViews, pointer: Seq<char>) -> Seq<u8>
    decreases value, 0nat,
{
    match value {
        JsonView::Str(_) => match override_of(all, pointer, 0) {
            Some(units) => encode_utf8(string_text(units)),
            None => json::compact(value),
        },
        JsonView::Array(items) => seq![91u8] + items_written(items, 0, all, pointer) + seq![93u8],
        JsonView::Object(entries) => seq![123u8] + entries_written(entries, 0, all, pointer) + seq![
            125u8,
        ],
        _ => json::compact(value),
    }
}

pub open spec fn items_written(items: Seq<JsonView>, i: int, all: OverrideViews, pointer: Seq<char>) -> Seq<
    u8,
>
    decreases items, items.len() - i,
{
    if i < 0 || i >= items.len() {
        Seq::empty()
    } else {
        json::comma(i) + written(items[i], all, item_pointer(pointer, i)) + items_written(
            items,
            i + 1,
            all,
            pointer,
        )
    }
}

pub open spec fn entries_written(entries: Entries, i: int, all: OverrideViews, pointer: Seq<char>) -> Seq<
    u8,
>
    decreases entries, entries.len() - i,
{
    if i < 0 || i >= entries.len() {
        Seq::empty()
    } else {
        proof {
            assert(decreases_to!(entries => entries[i]));
            assert(decreases_to!(entries[i] => entries[i].1));
        }
        json::comma(i) + json::compact(JsonView::Str(entries[i].0)) + seq![58u8] + written(
            entries[i].1,
            all,
            member_pointer(pointer, entries[i].0),
        ) + entries_written(entries, i + 1, all, pointer)
    }
}

fn write_items(out: &mut Vec<u8>, items: &Vec<Json>, overrides: &TextOverrides, pointer: &str)
    ensures
        final(out)@ == old(out)@ + items_written(items.deep_view(), 0, overrides@, pointer@),
    decreases items,
{
    let ghost start = out@;
    let ghost all = items.deep_view();
    let ghost whole = start + items_written(all, 0, overrides@, pointer@);
    let mut i: usize = 0;
    while i < items.len()
        invariant
            i <= items.len(),
            all == items.deep_view(),
            decreases_to!(items => items@),
            whole == out@ + items_written(all, i as int, overrides@, pointer@),
        decreases items.len() - i,
    {
        let ghost before = out@;
        assert(decreases_to!(items@ => items@[i as int]));
        assert(all[i as int] == items@[i as int]@);
        if i > 0 {
            out.push(44);
        }
        assert(out@ =~= before + json::comma(i as int));
        let child = text::cat3(pointer, "/", &text::decimal(i as u64));
        write_json_value_with_overrides(out, &items[i], overrides, &child);
        let ghost piece = written(all[i as int], overrides@, item_pointer(pointer@, i as int));
        assert(out@ == before + json::comma(i as int) + piece);
        assert(before + (json::comma(i as int) + piece + items_written(
            all,
            i + 1,
            overrides@,
            pointer@,
        )) =~= out@ + items_written(all, i + 1, overrides@, pointer@));
        i = i + 1;
    }
    assert(out@ + Seq::<u8>::empty() =~= out@);
}

fn write_entries(
    out: &mut Vec<u8>,
    entries: &Vec<(String, Json)>,
    overrides: &TextOverrides,
    pointer: &str,
)
    ensures
        final(out)@ == old(out)@ + entries_written(entries.deep_view(), 0, overrides@, pointer@),
    decreases entries,
{
    let ghost start = out@;
    let ghost all = entries.deep_view();
    let ghost whole = start + entries_written(all, 0, overrides@, pointer@);
    let mut i: usize = 0;
    while i < entries.len()
        invariant
            i <= entries.len(),
            all == entries.deep_view(),
            decreases_to!(entries => entries@),
            whole == out@ + entries_written(all, i as int, overrides@, pointer@),
        decreases entries.len() - i,
    {
        let ghost before = out@;
        assert(decreases_to!(entries@ => entries@[i as int]));
        assert(decreases_to!(entries@[i as int] => entries@[i as int].1));
        assert(all[i as int] == entries@[i as int].deep_view());
        if i > 0 {
            out.push(44);
        }
        assert(out@ =~= before + json::comma(i as int));
        let name = json::to_bytes(&Json::Str(entries[i].0.clone()));
        text::append_bytes(out, name.as_slice());
        out.push(58);
        let ghost head = json::comma(i as int) + json::compact(JsonView::Str(all[i as int].0)) + seq![
            58u8,
        ];
        assert(out@ =~= before + head);
        let child = text::cat3(pointer, "/", &escape_json_pointer_token(&entries[i].0));
        write_json_value_with_overrides(out, &entries[i].1, overrides, &child);
        let ghost piece = written(
            all[i as int].1,
            overrides@,
            member_pointer(pointer@, all[i as int].0),
        );
        assert(out@ == before + head + piece);
        assert(before + (head + piece + entries_written(all, i + 1, overrides@, pointer@)) =~= out@
            + entries_written(all, i + 1, overrides@, pointer@));
        i = i + 1;
    }
    assert(out@ + Seq::<u8>::empty() =~= out@);
}

fn write_json_value_with_overrides(
    out: &mut Vec<u8>,
    value: &Json,
    overrides: &TextOverrides,
    pointer: &str,
)
    ensures
        final(out)@ == old(out)@ + written(value@, overrides@, pointer@),
    decreases value,
{
    let ghost before = out@;
    match value {
        Json::Str(_) => match overrides.find(pointer) {
            Some(units) => {
                let encoded = write_json_string_from_utf16(units.as_slice());
                text::append_bytes(out, encoded.as_str().as_bytes());
            },
            None => {
                let bytes = json::to_bytes(value);
                text::append_bytes(out, bytes.as_slice());
            },
        },
        Json::Array(items) => {
            out.push(91);
            write_items(out, items, overrides, pointer);
            out.push(93);
            assert(out@ =~= before + written(value@, overrides@, pointer@));
        },
        Json::Object(entries) => {
            out.push(123);
            write_entries(out, entries, overrides, pointer);
            out.push(125);
            assert(out@ =~= before + written(value@, overrides@, pointer@));
        },
        _ => {
            let bytes = json::to_bytes(value);
            text::append_bytes(out, bytes.as_slice());
        },
    }
}

/// The first pointer, from the `i`th on, that leads to no string.
pub open spec fn astray(value: JsonView, all: OverrideViews, i: int) -> Option<Seq<char>>
    decreases all.len() - i,
{
    if i < 0 || i >= all.len() {
        None
    } else {
        match json::pointed(value, all[i].0) {
            Some(JsonView::Str(_)) => astray(value, all, i + 1),
            _ => Some(all[i].0),
        }
    }
}

/// The first pointer, from the `i`th on, that leads to no string of a value whose keys
/// are in order.
pub open spec fn lost(value: JsonView, all: OverrideViews, i: int) -> Option<Seq<char>>
    decreases all.len() - i,
{
    if i < 0 || i >= all.len() {
        None
    } else if json::string_led_to(value, all[i].0) is None {
        Some(all[i].0)
    } else {
        lost(value, all, i + 1)
    }
}

fn find_astray(value: &Json, overrides: &TextOverrides) -> (result: Option<String>)
    ensures
        result.deep_view() == astray(value@, overrides@, 0),
        json::tidy(value@) ==> result.deep_view() == lost(value@, overrides@, 0),
{
    let mut i: usize = 0;
    while i < overrides.entries.len()
        invariant
            i <= overrides.entries.len(),
            astray(value@, overrides@, 0) == astray(value@, overrides@, i as int),
            json::tidy(value@) ==> lost(value@, overrides@, 0) == lost(value@, overrides@, i as int),
        decreases overrides.entries.len() - i,
    {
        assert(overrides@[i as int] == overrides.entries@[i as int].deep_view());
        match json::follow(value, &overrides.entries[i].0) {
            Some(Json::Str(_)) => {},
            _ => return Some(overrides.entries[i].0.clone()),
        }
        i = i + 1;
    }
    None
}

pub open spec fn no_string_leaf(pointer: Seq<char>) -> LlmErrorView {
    error::invalid_view("UTF-16 JSON override does not target a string leaf: "@ + pointer)
}

/// The bytes of a value under the overrides, or the refusal of one that targets no
/// string. Without overrides they are the usual ones.
pub open spec fn serialized(value: JsonView, all: OverrideViews) -> Result<Seq<u8>, LlmErrorView> {
    match astray(value, all, 0) {
        Some(pointer) => Err(no_string_leaf(pointer)),
        None => Ok(
            if all.len() == 0 {
                json::bytes_of(value)
            } else {
                written(value, all, Seq::empty())
            },
        ),
    }
}

/// The UTF-16 code units of a text.
pub open spec fn utf16_of(s: Seq<char>) -> Seq<u16>
    decreases s.len(),
{
    if s.len() == 0 {
        Seq::empty()
    } else if (s[0] as u32) < 0x1_0000 {
        seq![s[0] as u16] + utf16_of(s.skip(1))
    } else {
        let n = s[0] as u32 - 0x1_0000;
        seq![(0xD800 + n / 0x400) as u16, (0xDC00 + n % 0x400) as u16] + utf16_of(s.skip(1))
    }
}

/// Whether every override of a string below the pointer holds the string's own code
/// units.
pub open spec fn faithful(value: JsonView, all: OverrideViews, pointer: Seq<char>) -> bool
    decreases value, 0nat,
{
    match value {
        JsonView::Str(s) => override_of(all, pointer, 0) matches Some(units) ==> units == utf16_of(s),
        JsonView::Array(items) => faithful_items(items, 0, all, pointer),
        JsonView::Object(entries) => faithful_entries(entries, 0, all, pointer),
        _ => true,
    }
}

pub open spec fn faithful_items(items: Seq<JsonView>, i: int, all: OverrideViews, pointer: Seq<char>) -> bool
    decreases items, items.len() - i,
{
    if i < 0 || i >= items.len() {
        true
    } else {
        faithful(items[i], all, item_pointer(pointer, i)) && faithful_items(
            items,
            i + 1,
            all,
            pointer,
        )
    }
}

pub open spec fn faithful_entries(entries: Entries, i: int, all: OverrideViews, pointer: Seq<char>) -> bool
    decreases entries, entries.len() - i,
{
    if i < 0 || i >= entries.len() {
        true
    } else {
        proof {
            assert(decreases_to!(entries => entries[i]));
            assert(decreases_to!(entries[i] => entries[i].1));
        }
        faithful(entries[i].1, all, member_pointer(pointer, entries[i].0)) && faithful_entries(
            entries,
            i + 1,
            all,
            pointer,
        )
    }
}

/// Serializes JSON with selected string leaves written from their exact UTF-16 code
/// units. The pointers must lead to strings that are there.
pub fn serialize(value: &Json, overrides: &TextOverrides) -> (result: Result<Vec<u8>, LlmError>)
    ensures
        match serialized(value@, overrides@) {
            Ok(bytes) => result matches Ok(out) && out@ == bytes,
            Err(error) => result matches Err(found) && found@ == error,
        },
        json::tidy(value@) ==> match lost(value@, overrides@, 0) {
            Some(pointer) => result matches Err(found) && found@ == no_string_leaf(pointer),
            None => result is Ok,
        },
        json::tidy(value@) && faithful(value@, overrides@, Seq::empty()) ==> (result matches Ok(out)
            ==> out@ == json::compact(value@)),
{
    if let Some(pointer) = find_astray(value, overrides) {
        return Err(
            error::invalid(
                &text::cat2("UTF-16 JSON override does not target a string leaf: ", &pointer),
            ),
        );
    }
    proof {
        reveal_strlit("");
        assert(""@ =~= Seq::<char>::empty());
    }
    assert(overrides@.len() == overrides.entries@.len());
    if overrides.entries.len() == 0 {
        return Ok(json::to_bytes(value));
    }
    let mut out: Vec<u8> = Vec::new();
    write_json_value_with_overrides(&mut out, value, overrides, "");
    assert(out@ =~= written(value@, overrides@, Seq::empty()));
    proof {
        if faithful(value@, overrides@, Seq::empty()) {
            overrides_of_the_same_text_change_nothing(value@, overrides@, Seq::empty());
        }
    }
    Ok(out)
}

proof fn lemma_units_of_character(c: char)
    ensures
        (c as u32) < 0x1_0000 ==> {
            let unit = c as u16;
            &&& unit as char == c
            &&& !high_surrogate(unit)
            &&& !low_surrogate(unit)
        },
        c as u32 >= 0x1_0000 ==> {
            let n = c as u32 - 0x1_0000;
            let high = (0xD800 + n / 0x400) as u16;
            let low = (0xDC00 + n % 0x400) as u16;
            &&& high_surrogate(high)
            &&& low_surrogate(low)
            &&& scalar_of(high, low) as char == c
        },
{
}

proof fn lemma_units_of_text(front: Seq<u16>, s: Seq<char>, before: Seq<char>)
    ensures
        units_text(front + utf16_of(s), front.len() as int, before) == before + json::escaped(s),
    decreases s.len(),
{
    let units = front + utf16_of(s);
    let i = front.len() as int;
    if s.len() == 0 {
        assert(before + json::escaped(s) =~= before);
    } else {
        let c = s[0];
        let rest = s.skip(1);
        let said = before + json::escape_of(c);
        assert(before + (json::escape_of(c) + json::escaped(rest)) =~= said + json::escaped(rest));
        lemma_units_of_character(c);
        if (c as u32) < 0x1_0000 {
            let unit = c as u16;
            assert(utf16_of(s)[0] == unit);
            assert(units[i] == unit);
            assert(units_text(units, i, before) == units_text(units, i + 1, said));
            lemma_units_of_text(front.push(unit), rest, said);
            assert(front.push(unit) + utf16_of(rest) =~= units);
        } else {
            let n = c as u32 - 0x1_0000;
            let high = (0xD800 + n / 0x400) as u16;
            let low = (0xDC00 + n % 0x400) as u16;
            assert(utf16_of(s)[0] == high && utf16_of(s)[1] == low);
            assert(units[i] == high && units[i + 1] == low);
            assert(high_surrogate(high) && low_surrogate(low));
            assert(units_text(units, i, before) == units_text(units, i + 2, said));
            lemma_units_of_text(front.push(high).push(low), rest, said);
            assert(front.push(high).push(low) + utf16_of(rest) =~= units);
        }
    }
}

/// The code units of a text give the JSON string that the text gives.
pub proof fn code_units_of_a_text_say_the_same(s: Seq<char>)
    ensures
        string_text(utf16_of(s)) == json::quoted(s),
{
    lemma_units_of_text(Seq::empty(), s, seq!['"']);
    assert(Seq::<u16>::empty() + utf16_of(s) =~= utf16_of(s));
    assert((seq!['"'] + json::escaped(s)).push('"') =~= json::quoted(s));
}

/// Overrides that hold the code units of the very strings that they replace change
/// nothing, and so do none: what is written is the compact JSON of the value.
pub proof fn overrides_of_the_same_text_change_nothing(
    value: JsonView,
    all: OverrideViews,
    pointer: Seq<char>,
)
    requires
        faithful(value, all, pointer),
    ensures
        written(value, all, pointer) == json::compact(value),
    decreases value, 0nat,
{
    match value {
        JsonView::Str(s) => {
            code_units_of_a_text_say_the_same(s);
        },
        JsonView::Array(items) => {
            lemma_same_items(items, 0, all, pointer);
        },
        JsonView::Object(entries) => {
            lemma_same_entries(entries, 0, all, pointer);
        },
        _ => {},
    }
}

proof fn lemma_same_items(items: Seq<JsonView>, i: int, all: OverrideViews, pointer: Seq<char>)
    requires
        faithful_items(items, i, all, pointer),
    ensures
        items_written(items, i, all, pointer) == json::compact_items(items, i),
    decreases items, items.len() - i,
{
    if 0 <= i < items.len() {
        overrides_of_the_same_text_change_nothing(items[i], all, item_pointer(pointer, i));
        lemma_same_items(items, i + 1, all, pointer);
    }
}

proof fn lemma_same_entries(entries: Entries, i: int, all: OverrideViews, pointer: Seq<char>)
    requires
        faithful_entries(entries, i, all, pointer),
    ensures
        entries_written(entries, i, all, pointer) == json::compact_entries(entries, i),
    decreases entries, entries.len() - i,
{
    if 0 <= i < entries.len() {
        assert(decreases_to!(entries => entries[i]));
        assert(decreases_to!(entries[i] => entries[i].1));
        overrides_of_the_same_text_change_nothing(
            entries[i].1,
            all,
            member_pointer(pointer, entries[i].0),
        );
        lemma_same_entries(entries, i + 1, all, pointer);
    }
}

/// Without overrides every string keeps its own text.
pub proof fn no_override_is_faithful(value: JsonView, pointer: Seq<char>)
    ensures
        faithful(value, Seq::empty(), pointer),
    decreases value, 0nat,
{
    match value {
        JsonView::Array(items) => {
            lemma_no_override_in_items(items, 0, pointer);
        },
        JsonView::Object(entries) => {
            lemma_no_override_in_entries(entries, 0, pointer);
        },
        _ => {},
    }
}

proof fn lemma_no_override_in_items(items: Seq<JsonView>, i: int, pointer: Seq<char>)
    ensures
        faithful_items(items, i, Seq::empty(), pointer),
    decreases items, items.len() - i,
{
    if 0 <= i < items.len() {
        no_override_is_faithful(items[i], item_pointer(pointer, i));
        lemma_no_override_in_items(items, i + 1, pointer);
    }
}

proof fn lemma_no_override_in_entries(entries: Entries, i: int, pointer: Seq<char>)
    ensures
        faithful_entries(entries, i, Seq::empty(), pointer),
    decreases entries, entries.len() - i,
{
    if 0 <= i < entries.len() {
        assert(decreases_to!(entries => entries[i]));
        assert(decreases_to!(entries[i] => entries[i].1));
        no_override_is_faithful(entries[i].1, member_pointer(pointer, entries[i].0));
        lemma_no_override_in_entries(entries, i + 1, pointer);
    }
}

/// The length that is given for code units is what they take when they replace a
/// whole string document.
pub proof fn the_length_is_what_is_written(text: Seq<char>, units: Seq<u16>)
    ensures
        written(JsonView::Str(text), seq![(Seq::<char>::empty(), units)], Seq::empty()).len()
            == encode_utf8(string_text(units)).len(),
{
    let all = seq![(Seq::<char>::empty(), units)];
    assert(all[0].0 =~= Seq::<char>::empty());
    assert(override_of(all, Seq::empty(), 0) == Some(units));
}

/// No character of the text is a control character.
pub open spec fn printable(s: Seq<char>) -> bool {
    forall|k: int| 0 <= k < s.len() ==> ' ' <= #[trigger] s[k]
}

proof fn lemma_hex_digits(n: nat, width: nat)
    ensures
        printable(text::lower_hex_text(n, width)),
    decreases width,
{
    if width > 0 {
        let front = text::lower_hex_text(n / 16, (width - 1) as nat);
        lemma_hex_digits(n / 16, (width - 1) as nat);
        let last = text::lower_hex_digit(n % 16);
        assert(' ' <= last);
        assert(text::lower_hex_text(n, width) == front.push(last));
    }
}

proof fn lemma_hex_is_printable(n: nat)
    ensures
        printable(json::hex_escape(n)),
{
    reveal_strlit("\\u");
    lemma_hex_digits(n, 4);
}

proof fn lemma_escape_is_printable(c: char)
    ensures
        printable(json::escape_of(c)),
{
    lemma_hex_is_printable(c as nat);
}

proof fn lemma_units_printable(units: Seq<u16>, i: int, before: Seq<char>)
    requires
        0 <= i,
        printable(before),
    ensures
        printable(units_text(units, i, before)),
    decreases units.len() - i,
{
    if i < units.len() {
        if high_surrogate(units[i]) && i + 1 < units.len() && low_surrogate(units[i + 1]) {
            let c = scalar_of(units[i], units[i + 1]) as char;
            lemma_escape_is_printable(c);
            lemma_units_printable(units, i + 2, before + json::escape_of(c));
        } else if high_surrogate(units[i]) || low_surrogate(units[i]) {
            lemma_hex_is_printable(units[i] as nat);
            lemma_units_printable(units, i + 1, before + json::hex_escape(units[i] as nat));
        } else {
            lemma_escape_is_printable(units[i] as char);
            lemma_units_printable(units, i + 1, before + json::escape_of(units[i] as char));
        }
    }
}

/// A JSON string never holds a control character.
pub proof fn a_string_holds_no_control_character(units: Seq<u16>)
    ensures
        printable(string_text(units)),
{
    lemma_units_printable(units, 0, seq!['"']);
}

proof fn lemma_override(all: OverrideViews, pointer: Seq<char>, units: Seq<u16>, i: int, other: Seq<char>)
    requires
        0 <= i <= all.len(),
    ensures
        other == pointer ==> override_of(with_override(all, pointer, units, i), other, i) == Some(
            units,
        ),
        other != pointer ==> override_of(with_override(all, pointer, units, i), other, i)
            == override_of(all, other, i),
    decreases all.len() - i,
{
    let after = with_override(all, pointer, units, i);
    if i >= all.len() {
        assert(after[i] == (pointer, units));
        assert(override_of(after, other, i + 1) is None);
    } else if all[i].0 == pointer {
        lemma_rest(all, after, other, i + 1, i + 1);
    } else if text::less(pointer, all[i].0) {
        assert(after[i] == (pointer, units));
        lemma_rest(all, after, other, i, i + 1);
    } else {
        lemma_override(all, pointer, units, i + 1, other);
        lemma_front(all, pointer, units, i + 1);
        assert(after[i] == all[i]);
    }
}

/// What stands before a place is not moved.
proof fn lemma_front(all: OverrideViews, pointer: Seq<char>, units: Seq<u16>, i: int)
    requires
        0 <= i <= all.len(),
    ensures
        with_override(all, pointer, units, i).len() >= all.len(),
        forall|k: int|
            0 <= k < i ==> (#[trigger] with_override(all, pointer, units, i)[k]) == all[k],
    decreases all.len() - i,
{
    if i < all.len() && all[i].0 != pointer && !text::less(pointer, all[i].0) {
        lemma_front(all, pointer, units, i + 1);
    }
}

/// Two lists that are alike from two places on hold the same there.
proof fn lemma_rest(a: OverrideViews, b: OverrideViews, pointer: Seq<char>, i: int, j: int)
    requires
        0 <= i <= a.len(),
        0 <= j <= b.len(),
        a.len() - i == b.len() - j,
        forall|k: int| i <= k < a.len() ==> #[trigger] a[k] == b[k - i + j],
    ensures
        override_of(a, pointer, i) == override_of(b, pointer, j),
    decreases a.len() - i,
{
    if i < a.len() {
        assert(a[i] == b[j]);
        lemma_rest(a, b, pointer, i + 1, j + 1);
    }
}

/// An override is found where it was put, and puts no other out of its place.
pub proof fn an_override_is_found_where_it_was_put(
    all: OverrideViews,
    pointer: Seq<char>,
    units: Seq<u16>,
    other: Seq<char>,
)
    ensures
        override_of(with_override(all, pointer, units, 0), pointer, 0) == Some(units),
        other != pointer ==> override_of(with_override(all, pointer, units, 0), other, 0)
            == override_of(all, other, 0),
{
    lemma_override(all, pointer, units, 0, pointer);
    lemma_override(all, pointer, units, 0, other);
}

/// A value that is there and a text.
pub open spec fn is_text(value: Option<JsonView>) -> bool {
    value is Some && value->0 is Str
}

proof fn lemma_astray(value: JsonView, all: OverrideViews, i: int)
    requires
        0 <= i <= all.len(),
    ensures
        astray(value, all, i) is None <==> forall|k: int|
            i <= k < all.len() ==> is_text(json::pointed(value, (#[trigger] all[k]).0)),
    decreases all.len() - i,
{
    if i < all.len() {
        lemma_astray(value, all, i + 1);
    }
}

/// A value is written if and only if every override is of a text in it, and one without
/// overrides is written as it is.
pub proof fn an_override_replaces_a_text(value: JsonView, all: OverrideViews)
    ensures
        serialized(value, all) is Ok <==> forall|k: int|
            0 <= k < all.len() ==> is_text(json::pointed(value, (#[trigger] all[k]).0)),
        all.len() == 0 ==> serialized(value, all) == Ok::<Seq<u8>, LlmErrorView>(
            json::bytes_of(value),
        ),
{
    lemma_astray(value, all, 0);
}

} // verus!
