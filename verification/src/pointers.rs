//! JSON pointers: one that is built token by token leads where its tokens say.

use crate::exact_json;
use crate::json::{self, Entries, JsonView};
use crate::text;
use vstd::prelude::*;

verus! {

/// A character as it stands in a token.
spec fn marked(c: char) -> Seq<char> {
    if c == '~' {
        seq!['~', '0']
    } else if c == '/' {
        seq!['~', '1']
    } else {
        seq![c]
    }
}

/// A key as a token.
spec fn token(key: Seq<char>) -> Seq<char>
    decreases key.len(),
{
    if key.len() == 0 {
        Seq::empty()
    } else {
        marked(key[0]) + token(key.skip(1))
    }
}

/// A token whose slashes are read and whose tildes are not.
spec fn half_read(key: Seq<char>) -> Seq<char>
    decreases key.len(),
{
    if key.len() == 0 {
        Seq::empty()
    } else if key[0] == '~' {
        seq!['~', '0'] + half_read(key.skip(1))
    } else {
        seq![key[0]] + half_read(key.skip(1))
    }
}

proof fn lemma_token(key: Seq<char>, i: int, before: Seq<char>)
    requires
        0 <= i <= key.len(),
    ensures
        exact_json::token_of(key, i, before) == before + token(key.skip(i)),
    decreases key.len() - i,
{
    let rest = key.skip(i);
    if i < key.len() {
        assert(rest[0] == key[i]);
        assert(rest.skip(1) =~= key.skip(i + 1));
        let next = before + marked(key[i]);
        assert(before.push(key[i]) =~= before + seq![key[i]]);
        lemma_token(key, i + 1, next);
        assert(next + token(key.skip(i + 1)) =~= before + (marked(key[i]) + token(
            key.skip(i + 1),
        )));
    } else {
        assert(before + token(rest) =~= before);
    }
}

proof fn lemma_plain_character(c: char, rest: Seq<char>, mark: char, to: char)
    requires
        c != '~',
    ensures
        json::unmarked(seq![c] + rest, mark, to) == seq![c] + json::unmarked(rest, mark, to),
{
    let s = seq![c] + rest;
    assert(s.skip(1) =~= rest);
    if s.len() < 2 {
        assert(s =~= seq![c] + json::unmarked(rest, mark, to));
    }
}

proof fn lemma_mark(next: char, rest: Seq<char>, mark: char, to: char)
    requires
        next != '~',
    ensures
        json::unmarked(seq!['~', next] + rest, mark, to) == (if next == mark {
            seq![to] + json::unmarked(rest, mark, to)
        } else {
            seq!['~', next] + json::unmarked(rest, mark, to)
        }),
{
    let s = seq!['~', next] + rest;
    assert(s.skip(1) =~= seq![next] + rest);
    assert(s.skip(2) =~= rest);
    lemma_plain_character(next, rest, mark, to);
    assert(seq!['~'] + (seq![next] + json::unmarked(rest, mark, to)) =~= seq!['~', next]
        + json::unmarked(rest, mark, to));
}

proof fn lemma_read(key: Seq<char>)
    ensures
        json::unmarked(token(key), '1', '/') == half_read(key),
        json::unmarked(half_read(key), '0', '~') == key,
    decreases key.len(),
{
    if key.len() > 0 {
        let c = key[0];
        let rest = key.skip(1);
        lemma_read(rest);
        if c == '~' {
            lemma_mark('0', token(rest), '1', '/');
            lemma_mark('0', half_read(rest), '0', '~');
        } else if c == '/' {
            lemma_mark('1', token(rest), '1', '/');
            lemma_plain_character('/', half_read(rest), '0', '~');
        } else {
            lemma_plain_character(c, token(rest), '1', '/');
            lemma_plain_character(c, half_read(rest), '0', '~');
        }
        assert(seq![c] + rest =~= key);
    } else {
        assert(json::unmarked(half_read(key), '0', '~') =~= key);
    }
}

proof fn lemma_token_is_one(key: Seq<char>)
    ensures
        !token(key).contains('/'),
    decreases key.len(),
{
    if key.len() > 0 {
        lemma_token_is_one(key.skip(1));
        assert forall|k: int| 0 <= k < token(key).len() implies token(key)[k] != '/' by {
            let n = marked(key[0]).len();
            if k >= n {
                assert(token(key)[k] == token(key.skip(1))[k - n]);
            }
        }
    }
}

/// What follows the last separator is one more part.
proof fn lemma_last_part(
    s: Seq<char>,
    tail: Seq<char>,
    i: int,
    part: Seq<char>,
    done: Seq<Seq<char>>,
)
    requires
        0 <= i <= s.len(),
        !tail.contains('/'),
    ensures
        text::parts_from(s + seq!['/'] + tail, '/', i, part, done) == text::parts_from(
            s,
            '/',
            i,
            part,
            done,
        ).push(tail),
    decreases s.len() - i,
{
    let whole = s + seq!['/'] + tail;
    if i < s.len() {
        assert(whole[i] == s[i]);
        if s[i] == '/' {
            lemma_last_part(s, tail, i + 1, Seq::empty(), done.push(part));
        } else {
            lemma_last_part(s, tail, i + 1, part.push(s[i]), done);
        }
    } else {
        assert(whole[i] == '/');
        lemma_whole_part(whole, i + 1, Seq::empty(), done.push(part));
        assert(whole.skip(i + 1) =~= tail);
        assert(Seq::<char>::empty() + tail =~= tail);
    }
}

proof fn lemma_whole_part(s: Seq<char>, i: int, part: Seq<char>, done: Seq<Seq<char>>)
    requires
        0 <= i <= s.len(),
        !s.skip(i).contains('/'),
    ensures
        text::parts_from(s, '/', i, part, done) == done.push(part + s.skip(i)),
    decreases s.len() - i,
{
    if i < s.len() {
        assert(s.skip(i)[0] == s[i]);
        let rest = s.skip(i + 1);
        assert forall|k: int| 0 <= k < rest.len() implies rest[k] != '/' by {
            assert(s.skip(i)[k + 1] == rest[k]);
        }
        lemma_whole_part(s, i + 1, part.push(s[i]), done);
        assert(part.push(s[i]) + s.skip(i + 1) =~= part + s.skip(i));
    } else {
        assert(part + s.skip(i) =~= part);
    }
}

proof fn lemma_parts_are_some(
    s: Seq<char>,
    i: int,
    part: Seq<char>,
    done: Seq<Seq<char>>,
)
    ensures
        text::parts_from(s, '/', i, part, done).len() > done.len(),
    decreases s.len() - i,
{
    if 0 <= i < s.len() {
        if s[i] == '/' {
            lemma_parts_are_some(s, i + 1, Seq::empty(), done.push(part));
        } else {
            lemma_parts_are_some(s, i + 1, part.push(s[i]), done);
        }
    }
}

proof fn lemma_one_more_token(json: JsonView, tokens: Seq<Seq<char>>, last: Seq<char>, i: int)
    requires
        0 <= i <= tokens.len(),
    ensures
        json::walked(json, tokens.push(last), i) == (match json::walked(json, tokens, i) {
            Some(found) => json::stepped(
                found,
                json::unmarked(json::unmarked(last, '1', '/'), '0', '~'),
            ),
            None => None,
        }),
    decreases tokens.len() - i,
{
    let more = tokens.push(last);
    if i < tokens.len() {
        assert(more[i] == tokens[i]);
        if let Some(next) = json::stepped(
            json,
            json::unmarked(json::unmarked(tokens[i], '1', '/'), '0', '~'),
        ) {
            lemma_one_more_token(next, tokens, last, i + 1);
        }
    } else {
        assert(more[i] == last);
        if let Some(next) = json::stepped(
            json,
            json::unmarked(json::unmarked(last, '1', '/'), '0', '~'),
        ) {
            assert(json::walked(next, more, i + 1) == Some(next));
        }
    }
}

/// A pointer with one more token leads on from where it led.
proof fn lemma_leads_on(json: JsonView, pointer: Seq<char>, last: Seq<char>, found: JsonView)
    requires
        json::led_to(json, pointer) == Some(found),
        !last.contains('/'),
    ensures
        json::led_to(json, pointer + "/"@ + last) == json::stepped(
            found,
            json::unmarked(json::unmarked(last, '1', '/'), '0', '~'),
        ),
{
    reveal_strlit("/");
    assert("/"@ =~= seq!['/']);
    let longer = pointer + seq!['/'] + last;
    assert(longer[0] == '/') by {
        if pointer.len() > 0 {
            assert(longer[0] == pointer[0]);
        } else {
            assert(longer[0] == '/');
        }
    }
    lemma_last_part(pointer, last, 0, Seq::empty(), Seq::empty());
    lemma_parts_are_some(pointer, 0, Seq::empty(), Seq::empty());
    let tokens = text::parts(pointer, '/');
    if pointer.len() == 0 {
        assert(tokens.len() == 1);
        assert(json::walked(json, tokens, 1) == Some(json));
    }
    lemma_one_more_token(json, tokens, last, 1);
}

proof fn lemma_own_entry(entries: Entries, i: int)
    requires
        json::ordered(entries),
        0 <= i < entries.len(),
    ensures
        json::entry(entries, entries[i].0) == Some(entries[i].1),
    decreases i,
{
    if i > 0 {
        text::less_is_total(entries[0].0, entries[i].0);
        assert(text::less(entries[0].0, entries[i].0));
        let rest = entries.skip(1);
        assert forall|a: int, b: int| 0 <= a < b < rest.len() implies text::less(
            #[trigger] rest[a].0,
            #[trigger] rest[b].0,
        ) by {
            assert(rest[a] == entries[a + 1] && rest[b] == entries[b + 1]);
        }
        lemma_own_entry(rest, i - 1);
    }
}

/// The pointer of a member leads to the member, wherever the pointer before it leads to
/// the object.
pub proof fn a_members_pointer_leads_to_it(json: JsonView, pointer: Seq<char>, entries: Entries, i: int)
    requires
        json::led_to(json, pointer) == Some(JsonView::Object(entries)),
        json::ordered(entries),
        0 <= i < entries.len(),
    ensures
        json::led_to(json, exact_json::member_pointer(pointer, entries[i].0)) == Some(entries[i].1),
{
    let key = entries[i].0;
    lemma_token(key, 0, Seq::empty());
    assert(key.skip(0) =~= key);
    assert(Seq::<char>::empty() + token(key) =~= token(key));
    lemma_token_is_one(key);
    lemma_leads_on(json, pointer, token(key), JsonView::Object(entries));
    lemma_read(key);
    lemma_own_entry(entries, i);
}

proof fn lemma_digits_push(s: Seq<char>, c: char, i: int, acc: nat)
    requires
        0 <= i <= s.len(),
    ensures
        text::digits_value(s.push(c), i, acc) == (match (
            text::digits_value(s, i, acc),
            text::digit_value(c),
        ) {
            (Some(n), Some(d)) => Some((n * 10 + d) as nat),
            _ => None,
        }),
    decreases s.len() - i,
{
    let more = s.push(c);
    if i < s.len() {
        assert(more[i] == s[i]);
        if let Some(d) = text::digit_value(s[i]) {
            lemma_digits_push(s, c, i + 1, acc * 10 + d);
        }
    } else {
        assert(more[i] == c);
        if let Some(d) = text::digit_value(c) {
            assert(text::digits_value(more, i + 1, acc * 10 + d) == Some(acc * 10 + d));
        }
    }
}

proof fn lemma_digit(d: nat)
    requires
        d < 10,
    ensures
        text::digit_value(text::digit(d)) == Some(d),
        text::digit(d) != '/' && text::digit(d) != '~',
        text::digit(d) == '0' <==> d == 0,
{
}

proof fn lemma_decimal_is_read(n: nat)
    ensures
        text::decimal_text(n).len() > 0,
        text::digits_value(text::decimal_text(n), 0, 0) == Some(n),
        text::decimal_text(n)[0] == '0' ==> text::decimal_text(n).len() == 1,
        n > 0 ==> text::decimal_text(n)[0] != '0',
        !text::decimal_text(n).contains('/'),
        !text::decimal_text(n).contains('~'),
    decreases n,
{
    let written = text::decimal_text(n);
    if n < 10 {
        lemma_digit(n);
        assert(written =~= Seq::<char>::empty().push(text::digit(n)));
        lemma_digits_push(Seq::empty(), text::digit(n), 0, 0);
    } else {
        lemma_decimal_is_read(n / 10);
        lemma_digit(n % 10);
        let front = text::decimal_text(n / 10);
        lemma_digits_push(front, text::digit(n % 10), 0, 0);
        assert(written[0] == front[0]);
        assert forall|k: int| 0 <= k < written.len() implies written[k] != '/' && written[k]
            != '~' by {
            if k < front.len() {
                assert(written[k] == front[k]);
            }
        }
    }
}

proof fn lemma_unmarked_stays(s: Seq<char>, mark: char, to: char)
    requires
        !s.contains('~'),
    ensures
        json::unmarked(s, mark, to) == s,
    decreases s.len(),
{
    if s.len() >= 2 {
        assert(s.contains(s[0]));
        let rest = s.skip(1);
        assert forall|k: int| 0 <= k < rest.len() implies rest[k] != '~' by {
            assert(rest[k] == s[k + 1]);
        }
        lemma_unmarked_stays(rest, mark, to);
        assert(seq![s[0]] + rest =~= s);
    }
}

/// The pointer of an item leads to the item, wherever the pointer before it leads to the
/// array.
pub proof fn an_items_pointer_leads_to_it(
    json: JsonView,
    pointer: Seq<char>,
    items: Seq<JsonView>,
    i: int,
)
    requires
        json::led_to(json, pointer) == Some(JsonView::Array(items)),
        0 <= i < items.len(),
    ensures
        json::led_to(json, exact_json::item_pointer(pointer, i)) == Some(items[i]),
{
    let index = text::decimal_text(i as nat);
    lemma_decimal_is_read(i as nat);
    lemma_leads_on(json, pointer, index, JsonView::Array(items));
    lemma_unmarked_stays(index, '1', '/');
    lemma_unmarked_stays(index, '0', '~');
}

} // verus!
