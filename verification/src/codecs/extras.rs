//! Per-profile additions to a request: body fields and headers that a wire does
//! not define but a particular endpoint understands.
//!
//! Additions only fill gaps. A key that the codec already wrote wins, and what
//! identifies the request or authorizes it can never be configured.

use crate::json::{self, Entries, Json};
use crate::protocol::ProviderProfile;
use crate::text;
use vstd::prelude::*;

verus! {

broadcast use {crate::views::group_views, crate::json::group_json};

/// The version of Anthropic's API that a profile need not state.
pub const DEFAULT_ANTHROPIC_API_VERSION: &'static str = "2023-06-01";

/// Headers that a profile may never set, in lower case: the authenticator
/// attaches these.
pub open spec fn reserved_header(lower: Seq<char>) -> bool {
    ||| lower == "authorization"@
    ||| lower == "proxy-authorization"@
    ||| lower == "x-api-key"@
    ||| lower == "api-key"@
    ||| lower == "cookie"@
}

pub fn is_reserved_header(lower: &str) -> (result: bool)
    ensures
        result == reserved_header(lower@),
{
    text::same(lower, "authorization") || text::same(lower, "proxy-authorization") || text::same(
        lower,
        "x-api-key",
    ) || text::same(lower, "api-key") || text::same(lower, "cookie")
}

/// Body fields that come from the request alone.
pub open spec fn reserved_body_key(key: Seq<char>) -> bool {
    key == "model"@ || key == "previous_response_id"@
}

fn is_reserved_body_key(key: &str) -> (result: bool)
    ensures
        result == reserved_body_key(key@),
{
    text::same(key, "model") || text::same(key, "previous_response_id")
}

/// The body and the refused keys, once the additions from the `i`th on are in.
pub open spec fn merged_body(
    extra: Entries,
    i: int,
    body: Entries,
    refused: Seq<Seq<char>>,
) -> (Entries, Seq<Seq<char>>)
    decreases extra.len() - i,
{
    if i < 0 || i >= extra.len() {
        (body, refused)
    } else if reserved_body_key(extra[i].0) || json::entry(body, extra[i].0) is Some {
        merged_body(extra, i + 1, body, refused.push(extra[i].0))
    } else {
        merged_body(extra, i + 1, json::put(body, extra[i].0, extra[i].1), refused)
    }
}

/// The entries of an object in the profile's extra settings.
pub open spec fn extra_entries(profile: ProviderProfile, key: Seq<char>) -> Entries {
    match json::member(profile.extra@, key) {
        Some(value) => match json::entries_of(value) {
            Some(entries) => entries,
            None => Seq::empty(),
        },
        None => Seq::empty(),
    }
}

/// The body with the profile's `extra.body` merged in, and the refused keys.
pub open spec fn with_extra_body(profile: ProviderProfile, body: Entries) -> (
    Entries,
    Seq<Seq<char>>,
) {
    merged_body(extra_entries(profile, "body"@), 0, body, Seq::empty())
}

/// Merges `extra.body` into a request body. Returns the keys that were refused:
/// a reserved one, or one that the codec already set.
pub fn merge_body(profile: &ProviderProfile, body: &mut Vec<(String, Json)>) -> (refused: Vec<
    String,
>)
    ensures
        (final(body).deep_view(), refused.deep_view()) == with_extra_body(
            *profile,
            old(body).deep_view(),
        ),
{
    let mut refused: Vec<String> = Vec::new();
    let extra = match profile.extra.get("body") {
        Some(value) => match value.as_object() {
            Some(extra) => extra,
            None => return refused,
        },
        None => return refused,
    };
    let mut i: usize = 0;
    while i < extra.len()
        invariant
            i <= extra.len(),
            merged_body(extra.deep_view(), 0, old(body).deep_view(), Seq::empty()) == merged_body(
                extra.deep_view(),
                i as int,
                body.deep_view(),
                refused.deep_view(),
            ),
        decreases extra.len() - i,
    {
        assert(extra.deep_view()[i as int] == extra@[i as int].deep_view());
        let key = extra[i].0.as_str();
        if is_reserved_body_key(key) || json::find(body, key).is_some() {
            refused.push(key.to_owned());
        } else {
            json::set(body, key, extra[i].1.dup());
        }
        i = i + 1;
    }
    refused
}

pub type HeaderViews = Seq<(Seq<char>, Seq<char>)>;

/// Whether a header of the name is there, in any case.
pub open spec fn has_header(headers: HeaderViews, name: Seq<char>) -> bool {
    exists|k: int|
        0 <= k < headers.len() && text::lower((#[trigger] headers[k]).0) == text::lower(name)
}

/// The headers and the refused names, once the additions from the `i`th on are
/// in.
pub open spec fn merged_headers(
    extra: Entries,
    i: int,
    headers: HeaderViews,
    refused: Seq<Seq<char>>,
) -> (HeaderViews, Seq<Seq<char>>)
    decreases extra.len() - i,
{
    if i < 0 || i >= extra.len() {
        (headers, refused)
    } else {
        let name = extra[i].0;
        match json::str_of(extra[i].1) {
            None => merged_headers(extra, i + 1, headers, refused.push(name)),
            Some(value) => if reserved_header(text::lower(name)) || has_header(headers, name) {
                merged_headers(extra, i + 1, headers, refused.push(name))
            } else {
                merged_headers(extra, i + 1, headers.push((name, value)), refused)
            },
        }
    }
}

/// The headers with the profile's `extra.headers` appended, and the refused
/// names.
pub open spec fn with_extra_headers(profile: ProviderProfile, headers: HeaderViews) -> (
    HeaderViews,
    Seq<Seq<char>>,
) {
    merged_headers(extra_entries(profile, "headers"@), 0, headers, Seq::empty())
}

pub fn header_present(headers: &Vec<(String, String)>, name: &str) -> (result: bool)
    ensures
        result == has_header(headers.deep_view(), name@),
{
    let mut i: usize = 0;
    while i < headers.len()
        invariant
            i <= headers.len(),
            forall|k: int|
                0 <= k < i ==> text::lower((#[trigger] headers.deep_view()[k]).0) != text::lower(
                    name@,
                ),
        decreases headers.len() - i,
    {
        assert(headers.deep_view()[i as int] == headers@[i as int].deep_view());
        if text::same_ignoring_case(&headers[i].0, name) {
            return true;
        }
        i = i + 1;
    }
    false
}

/// Appends `extra.headers` to a request's headers. Returns the names that were
/// refused: a reserved one, one whose value is no text, or one that the codec
/// already wrote.
pub fn merge_headers(profile: &ProviderProfile, headers: &mut Vec<(String, String)>) -> (refused:
    Vec<String>)
    ensures
        (final(headers).deep_view(), refused.deep_view()) == with_extra_headers(
            *profile,
            old(headers).deep_view(),
        ),
{
    let mut refused: Vec<String> = Vec::new();
    let extra = match profile.extra.get("headers") {
        Some(value) => match value.as_object() {
            Some(extra) => extra,
            None => return refused,
        },
        None => return refused,
    };
    let mut i: usize = 0;
    while i < extra.len()
        invariant
            i <= extra.len(),
            merged_headers(extra.deep_view(), 0, old(headers).deep_view(), Seq::empty())
                == merged_headers(
                extra.deep_view(),
                i as int,
                headers.deep_view(),
                refused.deep_view(),
            ),
        decreases extra.len() - i,
    {
        assert(extra.deep_view()[i as int] == extra@[i as int].deep_view());
        let name = extra[i].0.as_str();
        match extra[i].1.as_str() {
            None => {
                refused.push(name.to_owned());
            },
            Some(value) => {
                let lower = text::to_lower(name);
                if is_reserved_header(&lower) || header_present(headers, name) {
                    refused.push(name.to_owned());
                } else {
                    headers.push((name.to_owned(), value.to_owned()));
                }
            },
        }
        i = i + 1;
    }
    refused
}

proof fn lemma_body_is_additive(
    extra: Entries,
    i: int,
    body: Entries,
    refused: Seq<Seq<char>>,
    key: Seq<char>,
)
    ensures
        json::entry(body, key) is Some || reserved_body_key(key) ==> json::entry(
            merged_body(extra, i, body, refused).0,
            key,
        ) == json::entry(body, key),
    decreases extra.len() - i,
{
    if 0 <= i < extra.len() {
        if reserved_body_key(extra[i].0) || json::entry(body, extra[i].0) is Some {
            lemma_body_is_additive(extra, i + 1, body, refused.push(extra[i].0), key);
        } else {
            json::put_then_entry(body, extra[i].0, extra[i].1, key);
            lemma_body_is_additive(
                extra,
                i + 1,
                json::put(body, extra[i].0, extra[i].1),
                refused,
                key,
            );
        }
    }
}

/// Configuration fills gaps only: a field that the codec wrote keeps its value,
/// and a reserved field is as the codec left it.
pub proof fn configuration_never_overrides_the_body(
    profile: ProviderProfile,
    body: Entries,
    key: Seq<char>,
)
    ensures
        json::entry(body, key) is Some ==> json::entry(with_extra_body(profile, body).0, key)
            == json::entry(body, key),
        reserved_body_key(key) ==> json::entry(with_extra_body(profile, body).0, key)
            == json::entry(body, key),
{
    lemma_body_is_additive(extra_entries(profile, "body"@), 0, body, Seq::empty(), key);
}

proof fn lemma_headers_are_additive(
    extra: Entries,
    i: int,
    headers: HeaderViews,
    refused: Seq<Seq<char>>,
)
    ensures
        headers.is_prefix_of(merged_headers(extra, i, headers, refused).0),
        forall|k: int|
            headers.len() <= k < merged_headers(extra, i, headers, refused).0.len() ==> {
                let name = (#[trigger] merged_headers(extra, i, headers, refused).0[k]).0;
                !reserved_header(text::lower(name)) && !has_header(headers, name)
            },
    decreases extra.len() - i,
{
    if 0 <= i < extra.len() {
        let name = extra[i].0;
        let out = merged_headers(extra, i, headers, refused).0;
        match json::str_of(extra[i].1) {
            None => lemma_headers_are_additive(extra, i + 1, headers, refused.push(name)),
            Some(value) => if reserved_header(text::lower(name)) || has_header(headers, name) {
                lemma_headers_are_additive(extra, i + 1, headers, refused.push(name));
            } else {
                let more = headers.push((name, value));
                lemma_headers_are_additive(extra, i + 1, more, refused);
                assert(headers =~= more.take(headers.len() as int));
                assert(headers =~= out.take(headers.len() as int));
                assert forall|k: int| headers.len() <= k < out.len() implies {
                    let name = (#[trigger] out[k]).0;
                    !reserved_header(text::lower(name)) && !has_header(headers, name)
                } by {
                    if k == headers.len() {
                        assert(out[k] == more[k]);
                    } else if has_header(headers, out[k].0) {
                        let j = choose|j: int|
                            0 <= j < headers.len() && text::lower((#[trigger] headers[j]).0)
                                == text::lower(out[k].0);
                        assert(more[j] == headers[j]);
                        assert(has_header(more, out[k].0));
                    }
                }
            },
        }
    }
}

/// Configuration only appends headers, and none that authorizes a request or
/// that the codec already wrote.
pub proof fn configuration_never_authorizes(profile: ProviderProfile, headers: HeaderViews)
    ensures
        headers.is_prefix_of(with_extra_headers(profile, headers).0),
        forall|k: int|
            headers.len() <= k < with_extra_headers(profile, headers).0.len() ==> {
                let name = (#[trigger] with_extra_headers(profile, headers).0[k]).0;
                !reserved_header(text::lower(name)) && !has_header(headers, name)
            },
{
    lemma_headers_are_additive(extra_entries(profile, "headers"@), 0, headers, Seq::empty());
}

/// The keys from the `i`th addition on that are reserved or that the body has, behind
/// those before.
pub open spec fn refused_keys(extra: Entries, body: Entries, i: int, before: Seq<Seq<char>>) -> Seq<
    Seq<char>,
>
    decreases extra.len() - i,
{
    if i < 0 || i >= extra.len() {
        before
    } else {
        refused_keys(
            extra,
            body,
            i + 1,
            if reserved_body_key(extra[i].0) || json::entry(body, extra[i].0) is Some {
                before.push(extra[i].0)
            } else {
                before
            },
        )
    }
}

/// The names of the additions.
pub open spec fn names_of(extra: Entries) -> Seq<Seq<char>> {
    Seq::new(extra.len(), |i: int| extra[i].0)
}

/// What a body that was added to has under a key: what it had, or else the addition,
/// unless the key is reserved.
pub open spec fn filled(extra: Entries, body: Entries, key: Seq<char>) -> Option<json::JsonView> {
    if json::entry(body, key) is Some || reserved_body_key(key) {
        json::entry(body, key)
    } else {
        json::entry(extra, key)
    }
}

proof fn lemma_refused(
    extra: Entries,
    i: int,
    first: Entries,
    body: Entries,
    refused: Seq<Seq<char>>,
)
    requires
        0 <= i,
        json::ordered(extra),
        forall|k: int|
            i <= k < extra.len() ==> json::entry(body, (#[trigger] extra[k]).0) == json::entry(
                first,
                extra[k].0,
            ),
    ensures
        merged_body(extra, i, body, refused).1 == refused_keys(extra, first, i, refused),
    decreases extra.len() - i,
{
    if i < extra.len() {
        let key = extra[i].0;
        if reserved_body_key(key) || json::entry(body, key) is Some {
            lemma_refused(extra, i + 1, first, body, refused.push(key));
        } else {
            let more = json::put(body, key, extra[i].1);
            assert forall|k: int| i + 1 <= k < extra.len() implies json::entry(
                more,
                (#[trigger] extra[k]).0,
            ) == json::entry(first, extra[k].0) by {
                text::less_is_total(key, extra[k].0);
                assert(text::less(extra[i].0, extra[k].0));
                json::put_then_entry(body, key, extra[i].1, extra[k].0);
            }
            lemma_refused(extra, i + 1, first, more, refused);
        }
    }
}

proof fn lemma_filled(
    extra: Entries,
    i: int,
    body: Entries,
    refused: Seq<Seq<char>>,
    key: Seq<char>,
)
    requires
        0 <= i <= extra.len(),
    ensures
        json::entry(merged_body(extra, i, body, refused).0, key) == filled(extra.skip(i), body, key),
    decreases extra.len() - i,
{
    if i < extra.len() {
        assert(extra.skip(i)[0] == extra[i]);
        assert(extra.skip(i).skip(1) =~= extra.skip(i + 1));
        if reserved_body_key(extra[i].0) || json::entry(body, extra[i].0) is Some {
            lemma_filled(extra, i + 1, body, refused.push(extra[i].0), key);
        } else {
            json::put_then_entry(body, extra[i].0, extra[i].1, key);
            lemma_filled(extra, i + 1, json::put(body, extra[i].0, extra[i].1), refused, key);
        }
    }
}

proof fn lemma_body_keeps_order(extra: Entries, i: int, body: Entries, refused: Seq<Seq<char>>)
    requires
        json::ordered(body),
    ensures
        json::ordered(merged_body(extra, i, body, refused).0),
    decreases extra.len() - i,
{
    if 0 <= i < extra.len() {
        if reserved_body_key(extra[i].0) || json::entry(body, extra[i].0) is Some {
            lemma_body_keeps_order(extra, i + 1, body, refused.push(extra[i].0));
        } else {
            json::put_keeps_order(body, extra[i].0, extra[i].1);
            lemma_body_keeps_order(
                extra,
                i + 1,
                json::put(body, extra[i].0, extra[i].1),
                refused,
            );
        }
    }
}

/// Additions to a body fill its gaps and nothing else. The refused keys are those of
/// the additions, in their order, that are reserved or that the body had; every other
/// addition is in the body with its value, and what the body had is as it was.
pub proof fn additions_fill_gaps(profile: ProviderProfile, body: Entries, key: Seq<char>)
    requires
        json::ordered(extra_entries(profile, "body"@)),
    ensures
        with_extra_body(profile, body).1 == refused_keys(
            extra_entries(profile, "body"@),
            body,
            0,
            Seq::empty(),
        ),
        json::entry(with_extra_body(profile, body).0, key) == filled(
            extra_entries(profile, "body"@),
            body,
            key,
        ),
        json::ordered(body) ==> json::ordered(with_extra_body(profile, body).0),
{
    let extra = extra_entries(profile, "body"@);
    lemma_refused(extra, 0, body, body, Seq::empty());
    assert(extra.skip(0) =~= extra);
    lemma_filled(extra, 0, body, Seq::empty(), key);
    if json::ordered(body) {
        lemma_body_keeps_order(extra, 0, body, Seq::empty());
    }
}

proof fn lemma_added(
    extra: Entries,
    i: int,
    body: Entries,
    refused: Seq<Seq<char>>,
    k: int,
)
    requires
        0 <= i <= k < extra.len(),
    ensures
        reserved_body_key(extra[k].0) || json::entry(
            merged_body(extra, i, body, refused).0,
            extra[k].0,
        ) is Some,
    decreases extra.len() - i,
{
    let key = extra[i].0;
    if reserved_body_key(key) || json::entry(body, key) is Some {
        if i < k {
            lemma_added(extra, i + 1, body, refused.push(key), k);
        } else {
            lemma_body_is_additive(extra, i + 1, body, refused.push(key), key);
        }
    } else {
        let more = json::put(body, key, extra[i].1);
        json::put_then_entry(body, key, extra[i].1, key);
        if i < k {
            lemma_added(extra, i + 1, more, refused, k);
        } else {
            lemma_body_is_additive(extra, i + 1, more, refused, key);
        }
    }
}

proof fn lemma_all_refused(extra: Entries, i: int, body: Entries)
    requires
        0 <= i <= extra.len(),
        forall|k: int|
            0 <= k < extra.len() ==> reserved_body_key((#[trigger] extra[k]).0) || json::entry(
                body,
                extra[k].0,
            ) is Some,
    ensures
        merged_body(extra, i, body, names_of(extra).take(i)) == (body, names_of(extra)),
    decreases extra.len() - i,
{
    let names = names_of(extra);
    if i < extra.len() {
        assert(reserved_body_key(extra[i].0) || json::entry(body, extra[i].0) is Some);
        assert(names.take(i).push(extra[i].0) =~= names.take(i + 1));
        lemma_all_refused(extra, i + 1, body);
    } else {
        assert(names.take(i) =~= names);
    }
}

/// Adding to a body a second time refuses every key and changes nothing.
pub proof fn additions_are_made_once(profile: ProviderProfile, body: Entries)
    ensures
        with_extra_body(profile, with_extra_body(profile, body).0) == (
            with_extra_body(profile, body).0,
            names_of(extra_entries(profile, "body"@)),
        ),
{
    let extra = extra_entries(profile, "body"@);
    let once = with_extra_body(profile, body).0;
    assert forall|k: int| 0 <= k < extra.len() implies reserved_body_key((#[trigger] extra[k]).0)
        || json::entry(once, extra[k].0) is Some by {
        lemma_added(extra, 0, body, Seq::empty(), k);
    }
    assert(names_of(extra).take(0) =~= Seq::empty());
    lemma_all_refused(extra, 0, once);
}

/// Whether a header is refused beside the headers.
pub open spec fn header_refused(header: (Seq<char>, json::JsonView), headers: HeaderViews) -> bool {
    json::str_of(header.1) is None || reserved_header(text::lower(header.0)) || has_header(
        headers,
        header.0,
    )
}

proof fn lemma_header_stays(few: HeaderViews, many: HeaderViews, name: Seq<char>)
    requires
        few.is_prefix_of(many),
        has_header(few, name),
    ensures
        has_header(many, name),
{
    let k = choose|k: int|
        0 <= k < few.len() && text::lower((#[trigger] few[k]).0) == text::lower(name);
    assert(many[k] == few[k]);
}

proof fn lemma_header_added(
    extra: Entries,
    i: int,
    headers: HeaderViews,
    refused: Seq<Seq<char>>,
    k: int,
)
    requires
        0 <= i <= k < extra.len(),
    ensures
        header_refused(extra[k], merged_headers(extra, i, headers, refused).0),
    decreases extra.len() - i,
{
    let name = extra[i].0;
    let all = merged_headers(extra, i, headers, refused).0;
    if header_refused(extra[i], headers) {
        if i < k {
            lemma_header_added(extra, i + 1, headers, refused.push(name), k);
        } else if has_header(headers, name) {
            lemma_headers_are_additive(extra, i, headers, refused);
            lemma_header_stays(headers, all, name);
        }
    } else {
        let more = headers.push((name, json::str_of(extra[i].1)->0));
        if i < k {
            lemma_header_added(extra, i + 1, more, refused, k);
        } else {
            assert(more.last().0 == name);
            assert(has_header(more, name));
            lemma_headers_are_additive(extra, i + 1, more, refused);
            lemma_header_stays(more, all, name);
        }
    }
}

proof fn lemma_all_headers_refused(extra: Entries, i: int, headers: HeaderViews)
    requires
        0 <= i <= extra.len(),
        forall|k: int| 0 <= k < extra.len() ==> header_refused(#[trigger] extra[k], headers),
    ensures
        merged_headers(extra, i, headers, names_of(extra).take(i)) == (headers, names_of(extra)),
    decreases extra.len() - i,
{
    let names = names_of(extra);
    if i < extra.len() {
        assert(header_refused(extra[i], headers));
        assert(names.take(i).push(extra[i].0) =~= names.take(i + 1));
        lemma_all_headers_refused(extra, i + 1, headers);
    } else {
        assert(names.take(i) =~= names);
    }
}

/// Adding headers a second time refuses every one and changes nothing.
pub proof fn headers_are_added_once(profile: ProviderProfile, headers: HeaderViews)
    ensures
        with_extra_headers(profile, with_extra_headers(profile, headers).0) == (
            with_extra_headers(profile, headers).0,
            names_of(extra_entries(profile, "headers"@)),
        ),
{
    let extra = extra_entries(profile, "headers"@);
    let once = with_extra_headers(profile, headers).0;
    assert forall|k: int| 0 <= k < extra.len() implies header_refused(#[trigger] extra[k], once) by {
        lemma_header_added(extra, 0, headers, Seq::empty(), k);
    }
    assert(names_of(extra).take(0) =~= Seq::empty());
    lemma_all_headers_refused(extra, 0, once);
}

} // verus!
