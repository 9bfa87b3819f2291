//! Knowledge-base search results on the Responses wire.

use crate::codecs::web_search_decode;
use crate::json::{self, Json, JsonView, Number, NumberView};
use crate::protocol::{
    FileSearchHit, FileSearchHitView, FileSearchResult, FileSearchResultView, StreamEvent,
    StreamEventView,
};
use crate::text;
use vstd::prelude::*;

verus! {

broadcast use {crate::views::group_views, crate::json::group_json};

/// The number in a value that may be there.
pub open spec fn number_in(value: Option<JsonView>) -> Option<NumberView> {
    match value {
        Some(JsonView::Number(n)) => Some(n),
        _ => None,
    }
}

pub fn number(value: Option<&Json>) -> (result: Option<Number>)
    ensures
        result.deep_view() == number_in(value.deep_view()),
{
    match value {
        Some(Json::Number(n)) => Some(n.dup()),
        _ => None,
    }
}

/// A hit, if it names its file.
pub open spec fn hit_of(value: JsonView) -> Option<FileSearchHitView> {
    match json::str_in(json::either(value, "file_id"@, "id"@)) {
        None => None,
        Some(file_id) => Some(
            FileSearchHitView {
                file_id,
                filename: json::str_at(value, "filename"@),
                score: number_in(json::member(value, "score"@)),
                text: json::str_at(value, "text"@),
            },
        ),
    }
}

fn decode_hit(value: &Json) -> (result: Option<FileSearchHit>)
    ensures
        result.deep_view() == hit_of(value@),
{
    let file_id = match json::owned_text_in(value.get_either("file_id", "id")) {
        Some(file_id) => file_id,
        None => return None,
    };
    Some(
        FileSearchHit {
            file_id,
            filename: json::owned_text_in(value.get("filename")),
            score: number(value.get("score")),
            text: json::owned_text_in(value.get("text")),
        },
    )
}

/// The texts among the items, from the `i`th on.
pub open spec fn texts_of(items: Seq<JsonView>, i: int, before: Seq<Seq<char>>) -> Seq<Seq<char>>
    decreases items.len() - i,
{
    if i < 0 || i >= items.len() {
        before
    } else {
        match json::str_of(items[i]) {
            Some(s) => texts_of(items, i + 1, before.push(s)),
            None => texts_of(items, i + 1, before),
        }
    }
}

/// The hits among the items, from the `i`th on.
pub open spec fn hits_of(items: Seq<JsonView>, i: int, before: Seq<FileSearchHitView>) -> Seq<
    FileSearchHitView,
>
    decreases items.len() - i,
{
    if i < 0 || i >= items.len() {
        before
    } else {
        match hit_of(items[i]) {
            Some(hit) => hits_of(items, i + 1, before.push(hit)),
            None => hits_of(items, i + 1, before),
        }
    }
}

pub(crate) fn push_texts(items: &Vec<Json>, out: &mut Vec<String>)
    ensures
        final(out).deep_view() == texts_of(items.deep_view(), 0, old(out).deep_view()),
{
    let mut i: usize = 0;
    while i < items.len()
        invariant
            i <= items.len(),
            texts_of(items.deep_view(), 0, old(out).deep_view()) == texts_of(
                items.deep_view(),
                i as int,
                out.deep_view(),
            ),
        decreases items.len() - i,
    {
        assert(items.deep_view()[i as int] == items@[i as int]@);
        if let Some(s) = items[i].as_str() {
            out.push(s.to_owned());
        }
        i = i + 1;
    }
}

fn push_hits(items: &Vec<Json>, out: &mut Vec<FileSearchHit>)
    ensures
        final(out).deep_view() == hits_of(items.deep_view(), 0, old(out).deep_view()),
{
    let mut i: usize = 0;
    while i < items.len()
        invariant
            i <= items.len(),
            hits_of(items.deep_view(), 0, old(out).deep_view()) == hits_of(
                items.deep_view(),
                i as int,
                out.deep_view(),
            ),
        decreases items.len() - i,
    {
        assert(items.deep_view()[i as int] == items@[i as int]@);
        if let Some(hit) = decode_hit(&items[i]) {
            out.push(hit);
        }
        i = i + 1;
    }
}

/// The queries and hits of the calls, from the `i`th on.
pub open spec fn gathered(
    calls: Seq<JsonView>,
    i: int,
    queries: Seq<Seq<char>>,
    hits: Seq<FileSearchHitView>,
) -> (Seq<Seq<char>>, Seq<FileSearchHitView>)
    decreases calls.len() - i,
{
    if i < 0 || i >= calls.len() {
        (queries, hits)
    } else {
        gathered(
            calls,
            i + 1,
            texts_of(json::items_in(json::member(calls[i], "queries"@)), 0, queries),
            hits_of(json::items_in(json::member(calls[i], "results"@)), 0, hits),
        )
    }
}

/// The result that the calls make, if there are any.
pub open spec fn result_of_calls(calls: Seq<JsonView>) -> Option<FileSearchResultView> {
    if calls.len() == 0 {
        None
    } else {
        let (queries, hits) = gathered(calls, 0, Seq::empty(), Seq::empty());
        Some(
            FileSearchResultView {
                queries,
                hits,
                metadata: json::obj1("file_search_calls"@, JsonView::Array(calls)),
            },
        )
    }
}

fn result_from_calls(calls: Vec<Json>) -> (result: Option<FileSearchResult>)
    ensures
        result.deep_view() == result_of_calls(calls.deep_view()),
{
    if calls.len() == 0 {
        return None;
    }
    let mut queries: Vec<String> = Vec::new();
    let mut hits: Vec<FileSearchHit> = Vec::new();
    let mut i: usize = 0;
    while i < calls.len()
        invariant
            i <= calls.len(),
            gathered(calls.deep_view(), 0, Seq::empty(), Seq::empty()) == gathered(
                calls.deep_view(),
                i as int,
                queries.deep_view(),
                hits.deep_view(),
            ),
        decreases calls.len() - i,
    {
        assert(calls.deep_view()[i as int] == calls@[i as int]@);
        if let Some(items) = web_search_decode::items_of(calls[i].get("queries")) {
            push_texts(items, &mut queries);
        }
        if let Some(items) = web_search_decode::items_of(calls[i].get("results")) {
            push_hits(items, &mut hits);
        }
        i = i + 1;
    }
    Some(
        FileSearchResult {
            queries,
            hits,
            metadata: json::object1("file_search_calls", Json::Array(calls)),
        },
    )
}

/// The searches among a response's items.
pub open spec fn search_calls(body: JsonView) -> Seq<JsonView> {
    web_search_decode::of_kind(
        json::items_in(json::member(body, "output"@)),
        "file_search_call"@,
        0,
        Seq::empty(),
    )
}

fn calls_of(body: &Json) -> (calls: Vec<Json>)
    ensures
        calls.deep_view() == search_calls(body@),
{
    match web_search_decode::items_of(body.get("output")) {
        Some(items) => web_search_decode::filter_kind(items, "file_search_call"),
        None => Vec::new(),
    }
}

pub fn responses(body: &Json) -> (result: Option<FileSearchResult>)
    ensures
        result.deep_view() == result_of_calls(search_calls(body@)),
{
    result_from_calls(calls_of(body))
}

/// Which searches a stream has shown, by their JSON text.
pub struct FileSearchStream {
    pub emitted: Vec<String>,
}

impl View for FileSearchStream {
    type V = Seq<Seq<char>>;

    open spec fn view(&self) -> Seq<Seq<char>> {
        self.emitted.deep_view()
    }
}

/// What was shown, and the events, once the calls from the `i`th on came in.
pub open spec fn emitted_of(
    shown: Seq<Seq<char>>,
    calls: Seq<JsonView>,
    i: int,
    events: Seq<StreamEventView>,
) -> (Seq<Seq<char>>, Seq<StreamEventView>)
    decreases calls.len() - i,
{
    if i < 0 || i >= calls.len() {
        (shown, events)
    } else if shown.contains(json::text_of(calls[i])) {
        emitted_of(shown, calls, i + 1, events)
    } else {
        emitted_of(
            shown.push(json::text_of(calls[i])),
            calls,
            i + 1,
            events.push(
                StreamEventView::FileSearch { result: result_of_calls(seq![calls[i]])->0 },
            ),
        )
    }
}

impl FileSearchStream {
    pub fn new() -> (result: Self)
        ensures
            result@ == Seq::<Seq<char>>::empty(),
    {
        FileSearchStream { emitted: Vec::new() }
    }

    fn has(&self, fingerprint: &str) -> (result: bool)
        ensures
            result == self@.contains(fingerprint@),
    {
        let mut i: usize = 0;
        while i < self.emitted.len()
            invariant
                i <= self.emitted.len(),
                forall|k: int| 0 <= k < i ==> self@[k] != fingerprint@,
            decreases self.emitted.len() - i,
        {
            assert(self@[i as int] == self.emitted@[i as int]@);
            if text::same(&self.emitted[i], fingerprint) {
                return true;
            }
            i = i + 1;
        }
        false
    }

    /// Takes in a response, and shows the searches that it has not shown yet.
    pub fn emit(&mut self, body: &Json, out: &mut Vec<StreamEvent>)
        ensures
            (final(self)@, final(out).deep_view()) == emitted_of(
                old(self)@,
                search_calls(body@),
                0,
                old(out).deep_view(),
            ),
    {
        let calls = calls_of(body);
        let ghost all = calls.deep_view();
        let ghost start = self@;
        let ghost before = out.deep_view();
        let mut i: usize = 0;
        while i < calls.len()
            invariant
                i <= calls.len(),
                all == calls.deep_view(),
                emitted_of(start, all, 0, before) == emitted_of(
                    self@,
                    all,
                    i as int,
                    out.deep_view(),
                ),
            decreases calls.len() - i,
        {
            assert(all[i as int] == calls@[i as int]@);
            let fingerprint = json::to_text(&calls[i]);
            if !self.has(&fingerprint) {
                let mut one: Vec<Json> = Vec::new();
                one.push(calls[i].dup());
                assert(one.deep_view() =~= seq![all[i as int]]);
                if let Some(result) = result_from_calls(one) {
                    self.emitted.push(fingerprint);
                    out.push(StreamEvent::FileSearch { result });
                }
            }
            i = i + 1;
        }
    }
}

proof fn lemma_shown_again(
    shown: Seq<Seq<char>>,
    calls: Seq<JsonView>,
    i: int,
    events: Seq<StreamEventView>,
)
    requires
        0 <= i,
        forall|k: int| i <= k < calls.len() ==> shown.contains(json::text_of(#[trigger] calls[k])),
    ensures
        emitted_of(shown, calls, i, events) == (shown, events),
    decreases calls.len() - i,
{
    if i < calls.len() {
        lemma_shown_again(shown, calls, i + 1, events);
    }
}

proof fn lemma_all_shown(
    shown: Seq<Seq<char>>,
    calls: Seq<JsonView>,
    i: int,
    events: Seq<StreamEventView>,
    text: Seq<char>,
)
    ensures
        shown.contains(text) ==> emitted_of(shown, calls, i, events).0.contains(text),
        forall|k: int|
            0 <= i <= k < calls.len() ==> emitted_of(shown, calls, i, events).0.contains(
                json::text_of(#[trigger] calls[k]),
            ),
    decreases calls.len() - i,
{
    if 0 <= i < calls.len() {
        let this = json::text_of(calls[i]);
        if shown.contains(this) {
            lemma_all_shown(shown, calls, i + 1, events, text);
            lemma_all_shown(shown, calls, i + 1, events, this);
        } else {
            let next = shown.push(this);
            let more = events.push(
                StreamEventView::FileSearch { result: result_of_calls(seq![calls[i]])->0 },
            );
            assert(next[shown.len() as int] == this);
            if shown.contains(text) {
                let j = choose|j: int| 0 <= j < shown.len() && shown[j] == text;
                assert(next[j] == text);
            }
            lemma_all_shown(next, calls, i + 1, more, text);
            lemma_all_shown(next, calls, i + 1, more, this);
        }
    }
}

/// A search is shown once: a response that repeats searches shows none of them
/// again.
pub proof fn a_repeated_search_is_not_shown_again(
    shown: Seq<Seq<char>>,
    body: JsonView,
    events: Seq<StreamEventView>,
)
    ensures
        ({
            let calls = search_calls(body);
            let (after, out) = emitted_of(shown, calls, 0, events);
            emitted_of(after, calls, 0, out) == (after, out)
        }),
{
    let calls = search_calls(body);
    let (after, out) = emitted_of(shown, calls, 0, events);
    lemma_all_shown(shown, calls, 0, events, Seq::empty());
    lemma_shown_again(after, calls, 0, out);
}

} // verus!
