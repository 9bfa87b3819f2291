//! Text and bytes: comparison, slicing, case, trimming and decimal numbers.

use vstd::prelude::*;
use vstd::string::*;
use vstd::utf8::*;

verus! {

broadcast use {
    vstd::utf8::encode_utf8_decode_utf8,
    vstd::utf8::encode_utf8_valid_utf8,
};

/// `String::push`: appends one character.
pub assume_specification[ String::push ](s: &mut String, ch: char)
    ensures
        final(s)@ == old(s)@.push(ch),
;

/// The text that `std::string::FromUtf8Error` displays for the bytes.
pub uninterp spec fn utf8_error_text(bytes: Seq<u8>) -> Seq<char>;

/// `String::from_utf8`: succeeds exactly on UTF-8 and then decodes it; the
/// error side is the error's displayed text.
#[verifier::external_body]
pub(crate) fn from_utf8(bytes: Vec<u8>) -> (result: Result<String, String>)
    ensures
        result is Ok <==> valid_utf8(bytes@),
        result matches Ok(s) ==> s@ == decode_utf8(bytes@),
        result matches Err(e) ==> e@ == utf8_error_text(bytes@),
{
    String::from_utf8(bytes).map_err(|e| e.to_string())
}

/// The text of bytes that are UTF-8.
pub open spec fn utf8_text(bytes: Seq<u8>) -> Option<Seq<char>> {
    if valid_utf8(bytes) {
        Some(decode_utf8(bytes))
    } else {
        None
    }
}

pub fn of_utf8(bytes: &[u8]) -> (result: Option<String>)
    ensures
        result.deep_view() == utf8_text(bytes@),
{
    match from_utf8(vstd::slice::slice_to_vec(bytes)) {
        Ok(s) => Some(s),
        Err(_) => None,
    }
}

/// Whether a number is a Unicode scalar value.
pub open spec fn is_scalar(n: u32) -> bool {
    n <= 0xD7FF || 0xE000 <= n <= 0x10FFFF
}

/// `char::from_u32`: the character of a Unicode scalar value, and none for any other
/// number.
#[verifier::external_body]
pub(crate) fn scalar(n: u32) -> (result: Option<char>)
    ensures
        result is Some <==> is_scalar(n),
        result matches Some(c) ==> c == n as char,
{
    char::from_u32(n)
}

/// How `{:?}` writes the text.
pub uninterp spec fn debug_text(s: Seq<char>) -> Seq<char>;

/// `format!("{:?}")` of a string slice.
#[verifier::external_body]
pub(crate) fn debug(s: &str) -> (result: String)
    ensures
        result@ == debug_text(s@),
{
    format!("{s:?}")
}

/// Text equality.
pub fn same(a: &str, b: &str) -> (result: bool)
    ensures
        result == (a@ == b@),
{
    let x = a.as_bytes();
    let y = b.as_bytes();
    proof {
        assert(a@ == decode_utf8(x@));
        assert(b@ == decode_utf8(y@));
    }
    bytes_same(x, y)
}

/// Byte equality.
pub fn bytes_same(x: &[u8], y: &[u8]) -> (result: bool)
    ensures
        result == (x@ == y@),
{
    if x.len() != y.len() {
        return false;
    }
    let mut i: usize = 0;
    while i < x.len()
        invariant
            i <= x.len(),
            x.len() == y.len(),
            forall|j: int| 0 <= j < i ==> x@[j] == y@[j],
        decreases x.len() - i,
    {
        if x[i] != y[i] {
            return false;
        }
        i = i + 1;
    }
    assert(x@ =~= y@);
    true
}

/// The characters of a text.
pub fn chars(s: &str) -> (result: Vec<char>)
    ensures
        result@ == s@,
{
    let mut out: Vec<char> = Vec::new();
    for c in it: s.chars()
        invariant
            out@ == it.seq().take(it.index()),
            it.seq() == s@,
    {
        out.push(c);
    }
    out
}

/// The text made of the characters.
pub fn string_of(cs: &[char]) -> (result: String)
    ensures
        result@ == cs@,
{
    let mut out = String::new();
    let mut i: usize = 0;
    while i < cs.len()
        invariant
            i <= cs.len(),
            out@ == cs@.take(i as int),
        decreases cs.len() - i,
    {
        out.push(cs[i]);
        i = i + 1;
        assert(cs@.take(i as int) =~= cs@.take(i - 1).push(cs@[i - 1]));
    }
    assert(cs@.take(i as int) =~= cs@);
    out
}

/// `a` followed by `b`.
pub fn cat2(a: &str, b: &str) -> (result: String)
    ensures
        result@ == a@ + b@,
{
    let mut out = a.to_owned();
    out.append(b);
    out
}

pub fn cat3(a: &str, b: &str, c: &str) -> (result: String)
    ensures
        result@ == a@ + b@ + c@,
{
    let mut out = cat2(a, b);
    out.append(c);
    out
}

pub fn cat4(a: &str, b: &str, c: &str, d: &str) -> (result: String)
    ensures
        result@ == a@ + b@ + c@ + d@,
{
    let mut out = cat3(a, b, c);
    out.append(d);
    out
}

pub fn cat5(a: &str, b: &str, c: &str, d: &str, e: &str) -> (result: String)
    ensures
        result@ == a@ + b@ + c@ + d@ + e@,
{
    let mut out = cat4(a, b, c, d);
    out.append(e);
    out
}

/// The decimal digit of `d`.
pub open spec fn digit(d: nat) -> char {
    (48 + d) as char
}

/// A natural number in decimal, without leading zeros.
pub open spec fn decimal_text(n: nat) -> Seq<char>
    decreases n,
{
    if n < 10 {
        seq![digit(n)]
    } else {
        decimal_text(n / 10).push(digit(n % 10))
    }
}

/// Two numbers with the same text are the same.
pub proof fn decimal_texts_differ(a: nat, b: nat)
    ensures
        decimal_text(a).len() > 0,
        decimal_text(a) == decimal_text(b) ==> a == b,
    decreases a,
{
    if a >= 10 {
        decimal_texts_differ(a / 10, b / 10);
    }
    if decimal_text(a) == decimal_text(b) {
        assert(decimal_text(a).last() == digit(a % 10));
        assert(decimal_text(b).last() == digit(b % 10));
        assert(digit(a % 10) as int == 48 + a % 10);
        assert(digit(b % 10) as int == 48 + b % 10);
        if a >= 10 && b >= 10 {
            assert(decimal_text(a).drop_last() =~= decimal_text(a / 10));
            assert(decimal_text(b).drop_last() =~= decimal_text(b / 10));
        } else if a < 10 && b >= 10 {
            lemma_decimal_text_is_not_empty(b / 10);
        } else if a >= 10 && b < 10 {
            assert(decimal_text(a).len() > 1);
        }
    }
}

proof fn lemma_decimal_text_is_not_empty(a: nat)
    ensures
        decimal_text(a).len() > 0,
    decreases a,
{
    if a >= 10 {
        lemma_decimal_text_is_not_empty(a / 10);
    }
}

pub fn decimal(n: u64) -> (result: String)
    ensures
        result@ == decimal_text(n as nat),
    decreases n,
{
    if n < 10 {
        let mut out = String::new();
        out.push((48u8 + n as u8) as char);
        assert(out@ =~= seq![digit(n as nat)]);
        out
    } else {
        let mut out = decimal(n / 10);
        out.push((48u8 + (n % 10) as u8) as char);
        out
    }
}

/// The upper-case hexadecimal digit of `d`.
pub open spec fn hex_digit(d: nat) -> char {
    if d < 10 {
        (48 + d) as char
    } else {
        (55 + d) as char
    }
}

/// `n` in upper-case hexadecimal, padded on the left to `width` digits.
pub open spec fn hex_text(n: nat, width: nat) -> Seq<char>
    decreases width,
{
    if width == 0 {
        seq![]
    } else {
        hex_text(n / 16, (width - 1) as nat).push(hex_digit(n % 16))
    }
}

pub fn hex(n: u64, width: u8) -> (result: String)
    ensures
        result@ == hex_text(n as nat, width as nat),
    decreases width,
{
    if width == 0 {
        String::new()
    } else {
        let mut out = hex(n / 16, width - 1);
        let d: u8 = (n % 16) as u8;
        if d < 10 {
            out.push((48u8 + d) as char);
        } else {
            out.push((55u8 + d) as char);
        }
        out
    }
}

/// Order by code points, which is the order of the UTF-8 bytes.
pub open spec fn less(a: Seq<char>, b: Seq<char>) -> bool
    decreases a.len(),
{
    if b.len() == 0 {
        false
    } else if a.len() == 0 {
        true
    } else if a[0] == b[0] {
        less(a.skip(1), b.skip(1))
    } else {
        a[0] < b[0]
    }
}

pub fn is_less(a: &str, b: &str) -> (result: bool)
    ensures
        result == less(a@, b@),
{
    let x = chars(a);
    let y = chars(b);
    let mut i: usize = 0;
    assert(x@.skip(0) =~= x@);
    assert(y@.skip(0) =~= y@);
    while i < x.len() && i < y.len()
        invariant
            i <= x.len(),
            i <= y.len(),
            x@ == a@,
            y@ == b@,
            less(a@, b@) == less(x@.skip(i as int), y@.skip(i as int)),
        decreases x.len() - i,
    {
        proof {
            assert(x@.skip(i as int).skip(1) =~= x@.skip(i + 1));
            assert(y@.skip(i as int).skip(1) =~= y@.skip(i + 1));
        }
        if x[i] != y[i] {
            return x[i] < y[i];
        }
        i = i + 1;
    }
    i < y.len()
}

/// The order is total.
pub proof fn less_is_total(a: Seq<char>, b: Seq<char>)
    ensures
        less(a, b) || less(b, a) || a == b,
        !(less(a, b) && less(b, a)),
        !less(a, a),
    decreases a.len(),
{
    if a.len() > 0 {
        less_is_total(a.skip(1), a.skip(1));
    }
    if a.len() > 0 && b.len() > 0 && a[0] == b[0] {
        less_is_total(a.skip(1), b.skip(1));
        assert(a =~= seq![a[0]] + a.skip(1));
        assert(b =~= seq![b[0]] + b.skip(1));
    } else if a.len() == 0 && b.len() == 0 {
        assert(a =~= b);
    }
}

pub proof fn less_is_transitive(a: Seq<char>, b: Seq<char>, c: Seq<char>)
    requires
        less(a, b),
        less(b, c),
    ensures
        less(a, c),
    decreases a.len(),
{
    if a.len() > 0 && b.len() > 0 && c.len() > 0 && a[0] == b[0] && b[0] == c[0] {
        less_is_transitive(a.skip(1), b.skip(1), c.skip(1));
    }
}

/// Characters with the Unicode White_Space property.
pub open spec fn white_space(c: char) -> bool {
    let n = c as u32;
    ||| 9 <= n <= 13
    ||| n == 0x20
    ||| n == 0x85
    ||| n == 0xA0
    ||| n == 0x1680
    ||| 0x2000 <= n <= 0x200A
    ||| n == 0x2028
    ||| n == 0x2029
    ||| n == 0x202F
    ||| n == 0x205F
    ||| n == 0x3000
}

pub fn is_white_space(c: char) -> (result: bool)
    ensures
        result == white_space(c),
{
    let n = c as u32;
    (9 <= n && n <= 13) || n == 0x20 || n == 0x85 || n == 0xA0 || n == 0x1680 || (0x2000 <= n && n
        <= 0x200A) || n == 0x2028 || n == 0x2029 || n == 0x202F || n == 0x205F || n == 0x3000
}

/// Nothing but white space.
pub open spec fn blank(s: Seq<char>) -> bool {
    forall|i: int| 0 <= i < s.len() ==> white_space(#[trigger] s[i])
}

pub fn is_blank(s: &str) -> (result: bool)
    ensures
        result == blank(s@),
{
    let cs = chars(s);
    let mut i: usize = 0;
    while i < cs.len()
        invariant
            i <= cs.len(),
            cs@ == s@,
            forall|j: int| 0 <= j < i ==> white_space(#[trigger] cs@[j]),
        decreases cs.len() - i,
    {
        if !is_white_space(cs[i]) {
            return false;
        }
        i = i + 1;
    }
    true
}

pub fn starts_with(s: &str, prefix: &str) -> (result: bool)
    ensures
        result == prefix@.is_prefix_of(s@),
{
    let cs = chars(s);
    let ps = chars(prefix);
    if ps.len() > cs.len() {
        return false;
    }
    let mut i: usize = 0;
    while i < ps.len()
        invariant
            i <= ps.len() <= cs.len(),
            cs@ == s@,
            ps@ == prefix@,
            forall|j: int| 0 <= j < i ==> ps@[j] == cs@[j],
        decreases ps.len() - i,
    {
        if ps[i] != cs[i] {
            assert(ps@[i as int] != cs@.subrange(0, ps@.len() as int)[i as int]);
            return false;
        }
        i = i + 1;
    }
    assert(ps@ =~= cs@.subrange(0, ps@.len() as int));
    true
}

pub fn ends_with(s: &str, suffix: &str) -> (result: bool)
    ensures
        result == suffix@.is_suffix_of(s@),
{
    let cs = chars(s);
    let ps = chars(suffix);
    if ps.len() > cs.len() {
        return false;
    }
    let from = cs.len() - ps.len();
    let mut i: usize = 0;
    while i < ps.len()
        invariant
            i <= ps.len() <= cs.len(),
            from == cs.len() - ps.len(),
            cs@ == s@,
            ps@ == suffix@,
            forall|j: int| 0 <= j < i ==> ps@[j] == cs@[from + j],
        decreases ps.len() - i,
    {
        if ps[i] != cs[from + i] {
            assert(ps@[i as int] != cs@.subrange(from as int, cs@.len() as int)[i as int]);
            return false;
        }
        i = i + 1;
    }
    assert(ps@ =~= cs@.subrange(from as int, cs@.len() as int));
    true
}

/// `s` without the `c` characters at its end.
pub open spec fn without_trailing(s: Seq<char>, c: char) -> Seq<char>
    decreases s.len(),
{
    if s.len() > 0 && s.last() == c {
        without_trailing(s.drop_last(), c)
    } else {
        s
    }
}

pub fn trim_end_char(s: &str, c: char) -> (result: String)
    ensures
        result@ == without_trailing(s@, c),
{
    let mut cs = chars(s);
    while cs.len() > 0 && cs[cs.len() - 1] == c
        invariant
            without_trailing(s@, c) == without_trailing(cs@, c),
        decreases cs.len(),
    {
        cs.pop();
    }
    string_of(cs.as_slice())
}

pub open spec fn lower_char(c: char) -> char {
    if 'A' <= c <= 'Z' {
        (c as u32 + 32) as char
    } else {
        c
    }
}

pub open spec fn upper_char(c: char) -> char {
    if 'a' <= c <= 'z' {
        (c as u32 - 32) as char
    } else {
        c
    }
}

/// The text with its ASCII letters in lower case.
pub open spec fn lower(s: Seq<char>) -> Seq<char> {
    Seq::new(s.len(), |i: int| lower_char(s[i]))
}

pub open spec fn upper(s: Seq<char>) -> Seq<char> {
    Seq::new(s.len(), |i: int| upper_char(s[i]))
}

pub fn to_lower(s: &str) -> (result: String)
    ensures
        result@ == lower(s@),
{
    let cs = chars(s);
    let mut out = String::new();
    let mut i: usize = 0;
    while i < cs.len()
        invariant
            i <= cs.len(),
            cs@ == s@,
            out@ == lower(s@).take(i as int),
        decreases cs.len() - i,
    {
        let c = cs[i];
        if 'A' <= c && c <= 'Z' {
            out.push((c as u8 + 32) as char);
        } else {
            out.push(c);
        }
        i = i + 1;
        assert(lower(s@).take(i as int) =~= lower(s@).take(i - 1).push(lower(s@)[i - 1]));
    }
    assert(lower(s@).take(i as int) =~= lower(s@));
    out
}

pub fn to_upper(s: &str) -> (result: String)
    ensures
        result@ == upper(s@),
{
    let cs = chars(s);
    let mut out = String::new();
    let mut i: usize = 0;
    while i < cs.len()
        invariant
            i <= cs.len(),
            cs@ == s@,
            out@ == upper(s@).take(i as int),
        decreases cs.len() - i,
    {
        let c = cs[i];
        if 'a' <= c && c <= 'z' {
            out.push((c as u8 - 32) as char);
        } else {
            out.push(c);
        }
        i = i + 1;
        assert(upper(s@).take(i as int) =~= upper(s@).take(i - 1).push(upper(s@)[i - 1]));
    }
    assert(upper(s@).take(i as int) =~= upper(s@));
    out
}

pub fn same_ignoring_case(a: &str, b: &str) -> (result: bool)
    ensures
        result == (lower(a@) == lower(b@)),
{
    same(&to_lower(a), &to_lower(b))
}

/// The text with every `from` written as `to`.
pub open spec fn replaced(s: Seq<char>, from: char, to: char) -> Seq<char> {
    Seq::new(
        s.len(),
        |i: int|
            if s[i] == from {
                to
            } else {
                s[i]
            },
    )
}

pub fn replace_char(s: &str, from: char, to: char) -> (result: String)
    ensures
        result@ == replaced(s@, from, to),
{
    let cs = chars(s);
    let mut out = String::new();
    let mut i: usize = 0;
    let ghost want = replaced(s@, from, to);
    while i < cs.len()
        invariant
            i <= cs.len(),
            cs@ == s@,
            want == replaced(s@, from, to),
            out@ == want.take(i as int),
        decreases cs.len() - i,
    {
        let c = cs[i];
        out.push(
            if c == from {
                to
            } else {
                c
            },
        );
        i = i + 1;
        assert(want.take(i as int) =~= want.take(i - 1).push(want[i - 1]));
    }
    assert(want.take(i as int) =~= want);
    out
}

/// An ASCII letter or digit.
pub open spec fn alphanumeric(c: char) -> bool {
    ('0' <= c <= '9') || ('A' <= c <= 'Z') || ('a' <= c <= 'z')
}

pub fn is_alphanumeric(c: char) -> (result: bool)
    ensures
        result == alphanumeric(c),
{
    ('0' <= c && c <= '9') || ('A' <= c && c <= 'Z') || ('a' <= c && c <= 'z')
}

/// Some part of `s` is `part`.
pub open spec fn contains(s: Seq<char>, part: Seq<char>) -> bool {
    exists|i: int| part.is_prefix_of(#[trigger] s.skip(i)) && 0 <= i <= s.len()
}

fn part_at(cs: &Vec<char>, ps: &Vec<char>, i: usize) -> (result: bool)
    requires
        i <= cs.len(),
    ensures
        result == ps@.is_prefix_of(cs@.skip(i as int)),
{
    if ps.len() > cs.len() - i {
        return false;
    }
    let mut j: usize = 0;
    while j < ps.len()
        invariant
            i <= cs.len(),
            j <= ps.len() <= cs.len() - i,
            forall|k: int| 0 <= k < j ==> ps@[k] == cs@[i + k],
        decreases ps.len() - j,
    {
        if ps[j] != cs[i + j] {
            assert(ps@[j as int] != cs@.skip(i as int).subrange(0, ps@.len() as int)[j as int]);
            return false;
        }
        j = j + 1;
    }
    assert(ps@ =~= cs@.skip(i as int).subrange(0, ps@.len() as int));
    true
}

pub fn has_part(s: &str, part: &str) -> (result: bool)
    ensures
        result == contains(s@, part@),
{
    let cs = chars(s);
    let ps = chars(part);
    let mut i: usize = 0;
    loop
        invariant
            i <= cs.len(),
            cs@ == s@,
            ps@ == part@,
            forall|k: int| 0 <= k < i ==> !part@.is_prefix_of(#[trigger] s@.skip(k)),
        decreases cs.len() - i,
    {
        if part_at(&cs, &ps, i) {
            assert(part@.is_prefix_of(s@.skip(i as int)));
            return true;
        }
        if i == cs.len() {
            return false;
        }
        i = i + 1;
    }
}

/// Where `part` first stands in `s`, from the `i`th place on.
pub open spec fn place_of(s: Seq<char>, part: Seq<char>, i: int) -> Option<int>
    decreases s.len() - i + 1,
{
    if i < 0 || i > s.len() {
        None
    } else if part.is_prefix_of(s.skip(i)) {
        Some(i)
    } else {
        place_of(s, part, i + 1)
    }
}

pub fn find_part(s: &str, part: &str) -> (result: Option<usize>)
    ensures
        match result {
            Some(i) => place_of(s@, part@, 0) == Some(i as int) && i + part@.len() <= s@.len(),
            None => place_of(s@, part@, 0) is None,
        },
{
    let cs = chars(s);
    let ps = chars(part);
    let mut i: usize = 0;
    loop
        invariant
            i <= cs.len(),
            cs@ == s@,
            ps@ == part@,
            place_of(s@, part@, 0) == place_of(s@, part@, i as int),
        decreases cs.len() - i,
    {
        if part_at(&cs, &ps, i) {
            return Some(i);
        }
        if i == cs.len() {
            assert(place_of(s@, part@, i + 1) is None);
            return None;
        }
        i = i + 1;
    }
}

/// Appends the bytes.
pub fn append_bytes(out: &mut Vec<u8>, bytes: &[u8])
    ensures
        final(out)@ == old(out)@ + bytes@,
{
    let mut i: usize = 0;
    while i < bytes.len()
        invariant
            i <= bytes.len(),
            out@ == old(out)@ + bytes@.take(i as int),
        decreases bytes.len() - i,
    {
        out.push(bytes[i]);
        i = i + 1;
        assert(bytes@.take(i as int) =~= bytes@.take(i - 1).push(bytes@[i - 1]));
    }
    assert(bytes@.take(i as int) =~= bytes@);
}

/// Appends the UTF-8 bytes of the text.
pub fn append_text(out: &mut Vec<u8>, s: &str)
    ensures
        final(out)@ == old(out)@ + encode_utf8(s@),
{
    append_bytes(out, s.as_bytes());
}

/// The first `n` characters, or all of them.
pub open spec fn head(s: Seq<char>, n: nat) -> Seq<char> {
    if s.len() <= n {
        s
    } else {
        s.take(n as int)
    }
}

pub fn first_chars(s: &str, n: usize) -> (result: String)
    ensures
        result@ == head(s@, n as nat),
{
    let cs = chars(s);
    if cs.len() <= n {
        string_of(&cs)
    } else {
        let result = range(&cs, 0, n);
        assert(cs@.subrange(0, n as int) =~= cs@.take(n as int));
        result
    }
}

/// The characters from `from` up to `to`.
pub fn range(cs: &Vec<char>, from: usize, to: usize) -> (result: String)
    requires
        from <= to <= cs.len(),
    ensures
        result@ == cs@.subrange(from as int, to as int),
{
    let mut out = String::new();
    let mut i: usize = from;
    while i < to
        invariant
            from <= i <= to <= cs.len(),
            out@ == cs@.subrange(from as int, i as int),
        decreases to - i,
    {
        out.push(cs[i]);
        i = i + 1;
        assert(cs@.subrange(from as int, i as int) =~= cs@.subrange(from as int, i - 1).push(
            cs@[i - 1],
        ));
    }
    out
}

/// What stands before the suffix, where the text ends with it.
pub open spec fn before_suffix(s: Seq<char>, suffix: Seq<char>) -> Option<Seq<char>> {
    if suffix.is_suffix_of(s) {
        Some(s.take(s.len() - suffix.len()))
    } else {
        None
    }
}

pub fn strip_suffix(s: &str, suffix: &str) -> (result: Option<String>)
    ensures
        result.deep_view() == before_suffix(s@, suffix@),
{
    if !ends_with(s, suffix) {
        return None;
    }
    let cs = chars(s);
    let tail = chars(suffix);
    let result = range(&cs, 0, cs.len() - tail.len());
    assert(result@ =~= s@.take(s@.len() - suffix@.len()));
    Some(result)
}

/// What stands behind the prefix, where the text starts with it.
pub open spec fn after_prefix(s: Seq<char>, prefix: Seq<char>) -> Option<Seq<char>> {
    if prefix.is_prefix_of(s) {
        Some(s.skip(prefix.len() as int))
    } else {
        None
    }
}

pub fn strip_prefix(s: &str, prefix: &str) -> (result: Option<String>)
    ensures
        result.deep_view() == after_prefix(s@, prefix@),
{
    if !starts_with(s, prefix) {
        return None;
    }
    let cs = chars(s);
    let front = chars(prefix);
    let result = range(&cs, front.len(), cs.len());
    assert(result@ =~= s@.skip(prefix@.len() as int));
    Some(result)
}

/// The text without the characters of `drop` at its ends.
pub open spec fn trimmed_by(s: Seq<char>, drop: spec_fn(char) -> bool) -> Seq<char>
    decreases s.len(),
{
    if s.len() == 0 {
        s
    } else if drop(s[0]) {
        trimmed_by(s.skip(1), drop)
    } else if drop(s.last()) {
        trimmed_by(s.drop_last(), drop)
    } else {
        s
    }
}

/// The text without white space at its ends.
pub open spec fn trimmed(s: Seq<char>) -> Seq<char> {
    trimmed_by(s, |c: char| white_space(c))
}

#[verifier::spinoff_prover]
pub fn trim(s: &str) -> (result: String)
    ensures
        result@ == trimmed(s@),
{
    let ghost drop = |c: char| white_space(c);
    let cs = chars(s);
    let mut from: usize = 0;
    let mut to: usize = cs.len();
    assert(cs@.subrange(0, to as int) =~= s@);
    while from < to && is_white_space(cs[from])
        invariant
            from <= to == cs.len(),
            drop == (|c: char| white_space(c)),
            trimmed_by(s@, drop) == trimmed_by(cs@.subrange(from as int, to as int), drop),
        decreases to - from,
    {
        assert(cs@.subrange(from as int, to as int).skip(1) =~= cs@.subrange(
            from + 1,
            to as int,
        ));
        from = from + 1;
    }
    while from < to && is_white_space(cs[to - 1])
        invariant
            from <= to <= cs.len(),
            from < to ==> !white_space(cs@[from as int]),
            drop == (|c: char| white_space(c)),
            trimmed_by(s@, drop) == trimmed_by(cs@.subrange(from as int, to as int), drop),
        decreases to - from,
    {
        assert(cs@.subrange(from as int, to as int).drop_last() =~= cs@.subrange(
            from as int,
            to - 1,
        ));
        to = to - 1;
    }
    range(&cs, from, to)
}

/// The value of a decimal digit.
pub open spec fn digit_value(c: char) -> Option<nat> {
    if '0' <= c <= '9' {
        Some((c as nat - '0' as nat) as nat)
    } else {
        None
    }
}

/// The number that the digits from the `i`th on continue, if all are digits.
pub open spec fn digits_value(s: Seq<char>, i: int, acc: nat) -> Option<nat>
    decreases s.len() - i,
{
    if i < 0 || i >= s.len() {
        Some(acc)
    } else {
        match digit_value(s[i]) {
            Some(d) => digits_value(s, i + 1, acc * 10 + d),
            None => None,
        }
    }
}

proof fn lemma_digits_grow(s: Seq<char>, i: int, acc: nat)
    ensures
        digits_value(s, i, acc) matches Some(n) ==> n >= acc,
    decreases s.len() - i,
{
    if 0 <= i < s.len() {
        if let Some(d) = digit_value(s[i]) {
            lemma_digits_grow(s, i + 1, acc * 10 + d);
        }
    }
}

/// The number from the `i`th character on, where those are digits, at least one,
/// and the number is at most `max`.
pub open spec fn number_from(s: Seq<char>, i: int, max: nat) -> Option<nat> {
    if i >= s.len() {
        None
    } else {
        match digits_value(s, i, 0) {
            Some(n) => if n <= max {
                Some(n)
            } else {
                None
            },
            None => None,
        }
    }
}

fn read_number(cs: &Vec<char>, from: usize, max: u64) -> (result: Option<u64>)
    requires
        from <= cs.len(),
    ensures
        match result {
            Some(n) => number_from(cs@, from as int, max as nat) == Some(n as nat),
            None => number_from(cs@, from as int, max as nat) is None,
        },
{
    if from >= cs.len() {
        return None;
    }
    let mut acc: u64 = 0;
    let mut i: usize = from;
    while i < cs.len()
        invariant
            from <= i <= cs.len(),
            from < cs.len(),
            acc <= max,
            digits_value(cs@, from as int, 0) == digits_value(cs@, i as int, acc as nat),
        decreases cs.len() - i,
    {
        let c = cs[i];
        if !('0' <= c && c <= '9') {
            return None;
        }
        let d: u64 = (c as u32 - '0' as u32) as u64;
        assert(digit_value(c) == Some(d as nat));
        if acc > max / 10 || d > max || acc * 10 > max - d {
            proof {
                lemma_digits_grow(cs@, i + 1, (acc * 10 + d) as nat);
            }
            return None;
        }
        acc = acc * 10 + d;
        i = i + 1;
    }
    Some(acc)
}

/// The value of a decimal text with an optional plus sign, where it fits.
pub open spec fn u64_value(s: Seq<char>) -> Option<nat> {
    if s.len() > 0 && s[0] == '+' {
        number_from(s, 1, u64::MAX as nat)
    } else {
        number_from(s, 0, u64::MAX as nat)
    }
}

pub fn parse_u64(s: &str) -> (result: Option<u64>)
    ensures
        match result {
            Some(n) => u64_value(s@) == Some(n as nat),
            None => u64_value(s@) is None,
        },
{
    let cs = chars(s);
    if cs.len() > 0 && cs[0] == '+' {
        read_number(&cs, 1, u64::MAX)
    } else {
        read_number(&cs, 0, u64::MAX)
    }
}

/// The value of a decimal text with an optional sign, where it fits.
pub open spec fn i64_value(s: Seq<char>) -> Option<int> {
    if s.len() > 0 && s[0] == '-' {
        match number_from(s, 1, 0x8000_0000_0000_0000) {
            Some(n) => Some(-(n as int)),
            None => None,
        }
    } else {
        match number_from(
            s,
            if s.len() > 0 && s[0] == '+' {
                1
            } else {
                0
            },
            i64::MAX as nat,
        ) {
            Some(n) => Some(n as int),
            None => None,
        }
    }
}

pub fn parse_i64(s: &str) -> (result: Option<i64>)
    ensures
        match result {
            Some(n) => i64_value(s@) == Some(n as int),
            None => i64_value(s@) is None,
        },
{
    let cs = chars(s);
    if cs.len() > 0 && cs[0] == '-' {
        match read_number(&cs, 1, 0x8000_0000_0000_0000) {
            Some(n) => if n == 0x8000_0000_0000_0000 {
                Some(i64::MIN)
            } else {
                Some(-(n as i64))
            },
            None => None,
        }
    } else {
        let from: usize = if cs.len() > 0 && cs[0] == '+' {
            1
        } else {
            0
        };
        match read_number(&cs, from, 0x7fff_ffff_ffff_ffff) {
            Some(n) => Some(n as i64),
            None => None,
        }
    }
}

/// The decimal text of an integer.
pub open spec fn signed_text(n: int) -> Seq<char> {
    if n < 0 {
        "-"@ + decimal_text((-n) as nat)
    } else {
        decimal_text(n as nat)
    }
}

pub fn signed(n: i64) -> (result: String)
    ensures
        result@ == signed_text(n as int),
{
    if n == i64::MIN {
        cat2("-", &decimal(0x8000_0000_0000_0000))
    } else if n < 0 {
        cat2("-", &decimal((-n) as u64))
    } else {
        decimal(n as u64)
    }
}

/// The text of bytes that may not be UTF-8.
pub uninterp spec fn lossy_text(bytes: Seq<u8>) -> Seq<char>;

/// `String::from_utf8_lossy`: the text, with a replacement character for what is
/// no UTF-8. Bytes that are UTF-8 come back as they decode.
#[verifier::external_body]
pub(crate) fn lossy(bytes: &[u8]) -> (result: String)
    ensures
        result@ == lossy_text(bytes@),
        valid_utf8(bytes@) ==> result@ == decode_utf8(bytes@),
{
    String::from_utf8_lossy(bytes).into_owned()
}

/// The lower-case hexadecimal digit.
pub open spec fn lower_hex_digit(d: nat) -> char {
    if d < 10 {
        (48 + d) as char
    } else {
        (87 + d) as char
    }
}

/// The lower-case hexadecimal text of the low `width` digits of a number.
pub open spec fn lower_hex_text(n: nat, width: nat) -> Seq<char>
    decreases width,
{
    if width == 0 {
        Seq::empty()
    } else {
        lower_hex_text(n / 16, (width - 1) as nat).push(lower_hex_digit(n % 16))
    }
}

pub fn lower_hex(n: u128, width: u8) -> (result: String)
    ensures
        result@ == lower_hex_text(n as nat, width as nat),
    decreases width,
{
    if width == 0 {
        return String::new();
    }
    let mut out = lower_hex(n / 16, width - 1);
    let d: u8 = (n % 16) as u8;
    out.push(
        if d < 10 {
            (48u8 + d) as char
        } else {
            (87u8 + d) as char
        },
    );
    out
}

/// The parts between the separators, from the `i`th character on, after the part
/// that has begun and the parts that are done.
pub open spec fn parts_from(
    s: Seq<char>,
    separator: char,
    i: int,
    part: Seq<char>,
    done: Seq<Seq<char>>,
) -> Seq<Seq<char>>
    decreases s.len() - i,
{
    if i < 0 || i >= s.len() {
        done.push(part)
    } else if s[i] == separator {
        parts_from(s, separator, i + 1, Seq::empty(), done.push(part))
    } else {
        parts_from(s, separator, i + 1, part.push(s[i]), done)
    }
}

/// The parts between the separators.
pub open spec fn parts(s: Seq<char>, separator: char) -> Seq<Seq<char>> {
    parts_from(s, separator, 0, Seq::empty(), Seq::empty())
}

pub fn split(s: &str, separator: char) -> (result: Vec<String>)
    ensures
        result.deep_view() == parts(s@, separator),
{
    broadcast use crate::views::group_views;

    let cs = chars(s);
    let mut done: Vec<String> = Vec::new();
    let mut part = String::new();
    let mut i: usize = 0;
    while i < cs.len()
        invariant
            i <= cs.len(),
            parts_from(cs@, separator, 0, Seq::empty(), Seq::empty()) == parts_from(
                cs@,
                separator,
                i as int,
                part@,
                done.deep_view(),
            ),
        decreases cs.len() - i,
    {
        broadcast use crate::views::group_views;

        if cs[i] == separator {
            done.push(part);
            part = String::new();
        } else {
            part.push(cs[i]);
        }
        i = i + 1;
    }
    done.push(part);
    done
}

/// Whether the text is empty.
pub fn is_empty(s: &str) -> (result: bool)
    ensures
        result == (s@.len() == 0),
{
    let result = same(s, "");
    proof {
        reveal_strlit("");
        assert(""@ =~= Seq::<char>::empty());
        assert(s@.len() == 0 ==> s@ =~= ""@);
    }
    result
}

/// The texts from the `i`th on, with the separator between any two.
pub open spec fn joined_from(texts: Seq<Seq<char>>, separator: Seq<char>, i: int, front: Seq<char>) -> Seq<
    char,
>
    decreases texts.len() - i,
{
    if i < 0 || i >= texts.len() {
        front
    } else if i == 0 {
        joined_from(texts, separator, 1, front + texts[0])
    } else {
        joined_from(texts, separator, i + 1, front + separator + texts[i])
    }
}

/// The texts with the separator between any two.
pub open spec fn joined(texts: Seq<Seq<char>>, separator: Seq<char>) -> Seq<char> {
    joined_from(texts, separator, 0, Seq::empty())
}

pub fn join(texts: &Vec<String>, separator: &str) -> (result: String)
    ensures
        result@ == joined(texts.deep_view(), separator@),
{
    broadcast use crate::views::group_views;

    let mut out = String::new();
    let mut i: usize = 0;
    while i < texts.len()
        invariant
            i <= texts.len(),
            joined_from(texts.deep_view(), separator@, 0, Seq::empty()) == joined_from(
                texts.deep_view(),
                separator@,
                i as int,
                out@,
            ),
        decreases texts.len() - i,
    {
        assert(texts.deep_view()[i as int] == texts@[i as int]@);
        if i > 0 {
            out.append(separator);
        }
        out.append(&texts[i]);
        i = i + 1;
    }
    out
}

proof fn lemma_joined_from(texts: Seq<Seq<char>>, last: Seq<char>, separator: Seq<char>, i: int, front: Seq<char>)
    requires
        0 < i <= texts.len(),
    ensures
        joined_from(texts.push(last), separator, i, front) == joined_from(texts, separator, i, front)
            + separator + last,
    decreases texts.len() - i,
{
    let all = texts.push(last);
    if i < texts.len() {
        assert(all[i] == texts[i]);
        lemma_joined_from(texts, last, separator, i + 1, front + separator + texts[i]);
    } else {
        assert(all[i] == last);
        assert(joined_from(all, separator, i + 1, front + separator + last) == front + separator
            + last);
    }
}

/// Joining texts: none is empty, one is itself, and one more comes after a separator.
pub proof fn joining_puts_a_separator_between(texts: Seq<Seq<char>>, last: Seq<char>, separator: Seq<char>)
    ensures
        joined(Seq::empty(), separator).len() == 0,
        joined(seq![last], separator) == last,
        texts.len() > 0 ==> joined(texts.push(last), separator) == joined(texts, separator)
            + separator + last,
{
    let one = seq![last];
    assert(joined_from(one, separator, 1, Seq::<char>::empty() + last) == Seq::<char>::empty()
        + last);
    assert(Seq::<char>::empty() + last =~= last);
    if texts.len() > 0 {
        let all = texts.push(last);
        assert(all[0] == texts[0]);
        lemma_joined_from(texts, last, separator, 1, Seq::<char>::empty() + texts[0]);
    }
}

/// What is left without a trailing character ends in another one, and nothing but that
/// character was taken off.
pub proof fn nothing_else_is_taken_off(s: Seq<char>, c: char)
    ensures
        without_trailing(s, c).len() <= s.len(),
        without_trailing(s, c) == s.take(without_trailing(s, c).len() as int),
        without_trailing(s, c).len() > 0 ==> without_trailing(s, c).last() != c,
        forall|i: int| without_trailing(s, c).len() <= i < s.len() ==> #[trigger] s[i] == c,
    decreases s.len(),
{
    if s.len() > 0 && s.last() == c {
        let front = s.drop_last();
        nothing_else_is_taken_off(front, c);
        let rest = without_trailing(front, c);
        assert(rest =~= s.take(rest.len() as int));
        assert forall|i: int| rest.len() <= i < s.len() implies #[trigger] s[i] == c by {
            if i < front.len() {
                assert(front[i] == s[i]);
            }
        }
    } else {
        assert(s.take(s.len() as int) =~= s);
    }
}

/// Changing the case keeps the length and every character but the letters, and changing
/// it twice is changing it once.
pub proof fn the_case_is_changed_of_letters_alone(s: Seq<char>, i: int)
    requires
        0 <= i < s.len(),
    ensures
        lower(s).len() == s.len(),
        upper(s).len() == s.len(),
        lower(lower(s)) == lower(s),
        upper(upper(s)) == upper(s),
        lower(upper(s)) == lower(s),
        'A' <= s[i] <= 'Z' ==> lower(s)[i] as u32 == s[i] as u32 + 32,
        !('A' <= s[i] <= 'Z') ==> lower(s)[i] == s[i],
        'a' <= s[i] <= 'z' ==> upper(s)[i] as u32 == s[i] as u32 - 32,
        !('a' <= s[i] <= 'z') ==> upper(s)[i] == s[i],
{
    assert(lower(lower(s)) =~= lower(s));
    assert(upper(upper(s)) =~= upper(s));
    assert(lower(upper(s)) =~= lower(s));
}

} // verus!
