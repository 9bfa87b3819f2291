//! Usage objects as providers report them.

use crate::json::{self, Entries, Json, JsonView};
use vstd::prelude::*;

verus! {

broadcast use {crate::views::group_views, crate::json::group_json};

/// A counter that a usage object states.
pub open spec fn counter_of(usage: JsonView, key: Seq<char>) -> Option<u64> {
    json::u64_at(usage, key)
}

pub fn counter(usage: &Json, key: &str) -> (result: Option<u64>)
    ensures
        result == counter_of(usage@, key@),
{
    usage.u64_at(key)
}

/// The seed with what a later report states: every counter that it states
/// replaces the seed's, a zero included, and those that it does not mention stay. A
/// report that is no object mentions none.
pub open spec fn folded(seed: JsonView, reported: JsonView) -> JsonView {
    match (seed, reported) {
        (JsonView::Object(seed), JsonView::Object(reported)) => JsonView::Object(
            folded_entries(seed, reported, 0),
        ),
        (_, JsonView::Object(_)) => reported,
        _ => seed,
    }
}

pub open spec fn folded_entries(seed: Entries, reported: Entries, i: int) -> Entries
    decreases reported.len() - i,
{
    if i < 0 || i >= reported.len() {
        seed
    } else if reported[i].1 == JsonView::Null {
        folded_entries(seed, reported, i + 1)
    } else {
        folded_entries(json::put(seed, reported[i].0, reported[i].1), reported, i + 1)
    }
}

pub fn fold(seed: Json, reported: &Json) -> (result: Json)
    ensures
        result@ == folded(seed@, reported@),
{
    match (seed, reported) {
        (Json::Object(seed), Json::Object(reported)) => {
            let ghost first = seed.deep_view();
            let mut seed = seed;
            let mut i: usize = 0;
            while i < reported.len()
                invariant
                    i <= reported.len(),
                    folded_entries(first, reported.deep_view(), 0) == folded_entries(
                        seed.deep_view(),
                        reported.deep_view(),
                        i as int,
                    ),
                decreases reported.len() - i,
            {
                assert(reported.deep_view()[i as int] == reported@[i as int].deep_view());
                if !json::is_null(Some(&reported[i].1)) {
                    json::set(&mut seed, &reported[i].0, reported[i].1.dup());
                }
                i = i + 1;
            }
            Json::Object(seed)
        },
        (_, Json::Object(reported)) => Json::Object(json::dup_entries(reported)),
        (seed, _) => seed,
    }
}

proof fn lemma_folded_entry(seed: Entries, reported: Entries, i: int, key: Seq<char>)
    ensures
        (forall|k: int|
            #![trigger reported[k]]
            i <= k < reported.len() && 0 <= k ==> reported[k].0 != key || reported[k].1
                == JsonView::Null) ==> json::entry(folded_entries(seed, reported, i), key)
            == json::entry(seed, key),
    decreases reported.len() - i,
{
    if 0 <= i < reported.len() {
        if reported[i].1 == JsonView::Null {
            lemma_folded_entry(seed, reported, i + 1, key);
        } else {
            lemma_folded_entry(
                json::put(seed, reported[i].0, reported[i].1),
                reported,
                i + 1,
                key,
            );
            json::put_then_entry(seed, reported[i].0, reported[i].1, key);
        }
    }
}

/// A counter that a later report does not mention keeps what the seed said.
pub proof fn an_unmentioned_counter_stays(seed: Entries, reported: Entries, key: Seq<char>)
    requires
        forall|k: int|
            0 <= k < reported.len() ==> (#[trigger] reported[k]).0 != key || reported[k].1
                == JsonView::Null,
    ensures
        counter_of(
            folded(JsonView::Object(seed), JsonView::Object(reported)),
            key,
        ) == counter_of(JsonView::Object(seed), key),
{
    lemma_folded_entry(seed, reported, 0, key);
}

} // verus!
