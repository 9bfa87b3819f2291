//! What is kept of a hosted search: every source once, and every hit; and what is sent in
//! the place of a block.

use crate::codecs::file_search_decode;
use crate::codecs::inference;
use crate::codecs::input;
use crate::codecs::web_search_decode as search;
use crate::codecs::EncodeRequest;
use crate::json::{self, Entries, JsonView};
use crate::protocol::profile;
use crate::protocol::{
    AttachmentRef, ContentBlock, DocumentSource, FastWire, FileSearchHitView, ImageSource,
    InferenceReportView, ServiceTier, VideoSource, WebCitationView,
};
use vstd::prelude::*;

verus! {

broadcast use {crate::views::group_views, crate::json::group_json};

/// A source is named by its address and its title, wherever a provider keeps them: beside
/// the kind, in a member of that name, or under `web`.
#[verifier::spinoff_prover]
#[verifier::rlimit(40)]
pub proof fn a_source_is_read_where_it_is_kept(value: JsonView, url: Seq<char>)
    ensures
        ({
            let kind = json::str_at(value, "type"@);
            let flat = Some(WebCitationView { url, title: json::str_at(value, "title"@) });
            &&& kind == Some("url_citation"@) && json::member(value, "url_citation"@) is None
                && json::str_at(value, "url"@) == Some(url) ==> search::citation_of(value) == flat
            &&& kind == Some("web_search_result_location"@) && json::str_at(value, "url"@) == Some(
                url,
            ) ==> search::citation_of(value) == flat
            &&& kind == Some("web_search_result"@) && json::str_at(value, "url"@) == Some(url)
                ==> search::citation_of(value) == flat
            &&& kind == Some("url_citation"@) && json::str_in(
                json::member2(value, "url_citation"@, "url"@),
            ) == Some(url) ==> search::citation_of(value) == Some(
                WebCitationView {
                    url,
                    title: json::str_in(json::member2(value, "url_citation"@, "title"@)),
                },
            )
            &&& kind is None && json::member(value, "link"@) is None && json::member2(
                value,
                "web"@,
                "url"@,
            ) is None && json::str_in(json::member2(value, "web"@, "uri"@)) == Some(url)
                ==> search::citation_of(value) == Some(
                WebCitationView {
                    url,
                    title: json::str_in(json::member2(value, "web"@, "title"@)),
                },
            )
        }),
{
    lemma_names();
}

/// What was found before stays in front, and nothing is there twice.
spec fn grows(before: Seq<WebCitationView>, after: Seq<WebCitationView>) -> bool {
    &&& before.len() <= after.len()
    &&& forall|k: int| 0 <= k < before.len() ==> #[trigger] after[k] == before[k]
    &&& before.no_duplicates() ==> after.no_duplicates()
}

proof fn lemma_with_citation(out: Seq<WebCitationView>, citation: Option<WebCitationView>)
    ensures
        grows(out, search::with_citation(out, citation)),
        citation matches Some(found) ==> search::with_citation(out, citation).contains(found),
{
    if let Some(found) = citation {
        let next = out.push(found);
        assert(next[out.len() as int] == found);
        if !out.contains(found) && out.no_duplicates() {
            assert forall|i: int, j: int|
                0 <= i < next.len() && 0 <= j < next.len() && i != j implies next[i] != next[j] by {
                if i < out.len() && j < out.len() {
                } else if i < out.len() {
                    assert(out.contains(out[i]));
                } else {
                    assert(out.contains(out[j]));
                }
            }
        }
    }
}

proof fn lemma_grows(a: Seq<WebCitationView>, b: Seq<WebCitationView>, c: Seq<WebCitationView>)
    requires
        grows(a, b),
        grows(b, c),
    ensures
        grows(a, c),
{
    assert forall|k: int| 0 <= k < a.len() implies #[trigger] c[k] == a[k] by {
        assert(b[k] == a[k]);
    }
}

proof fn lemma_stays(a: Seq<WebCitationView>, b: Seq<WebCitationView>, found: WebCitationView)
    requires
        grows(a, b),
        a.contains(found),
    ensures
        b.contains(found),
{
    let k = choose|k: int| 0 <= k < a.len() && a[k] == found;
    assert(b[k] == found);
}

proof fn lemma_cited(value: JsonView, out: Seq<WebCitationView>)
    ensures
        grows(out, search::cited(value, out)),
        value is Object ==> (search::citation_of(value) matches Some(found) ==> search::cited(
            value,
            out,
        ).contains(found)),
    decreases value, 0nat,
{
    match value {
        JsonView::Array(items) => {
            lemma_cited_items(items, 0, out);
        },
        JsonView::Object(entries) => {
            let noted = search::with_citation(out, search::citation_of(value));
            lemma_with_citation(out, search::citation_of(value));
            lemma_cited_entries(entries, 0, noted);
            lemma_grows(out, noted, search::cited(value, out));
            if let Some(found) = search::citation_of(value) {
                lemma_stays(noted, search::cited(value, out), found);
            }
        },
        _ => {},
    }
}

proof fn lemma_cited_items(items: Seq<JsonView>, i: int, out: Seq<WebCitationView>)
    requires
        0 <= i,
    ensures
        grows(out, search::cited_items(items, i, out)),
        forall|k: int|
            i <= k < items.len() && #[trigger] items[k] is Object ==> (search::citation_of(
                items[k],
            ) matches Some(found) ==> search::cited_items(items, i, out).contains(found)),
    decreases items, items.len() - i,
{
    if i < items.len() {
        let next = search::cited(items[i], out);
        lemma_cited(items[i], out);
        lemma_cited_items(items, i + 1, next);
        let all = search::cited_items(items, i, out);
        lemma_grows(out, next, all);
        assert forall|k: int| i <= k < items.len() && #[trigger] items[k] is Object implies (
        search::citation_of(items[k]) matches Some(found) ==> all.contains(found)) by {
            if k == i {
                if let Some(found) = search::citation_of(items[k]) {
                    lemma_stays(next, all, found);
                }
            }
        }
    }
}

proof fn lemma_cited_entries(entries: Entries, i: int, out: Seq<WebCitationView>)
    requires
        0 <= i,
    ensures
        grows(out, search::cited_entries(entries, i, out)),
    decreases entries, entries.len() - i,
{
    if i < entries.len() {
        assert(decreases_to!(entries => entries[i]));
        assert(decreases_to!(entries[i] => entries[i].1));
        let next = search::cited(entries[i].1, out);
        lemma_cited(entries[i].1, out);
        lemma_cited_entries(entries, i + 1, next);
        lemma_grows(out, next, search::cited_entries(entries, i, out));
    }
}

/// The sources of a list are each of those that its records name, and none is there
/// twice.
pub proof fn every_source_is_cited_once(records: Seq<JsonView>)
    ensures
        ({
            let cited = search::cited(JsonView::Array(records), Seq::empty());
            &&& cited.no_duplicates()
            &&& forall|k: int|
                0 <= k < records.len() && #[trigger] records[k] is Object ==> (search::citation_of(
                    records[k],
                ) matches Some(found) ==> cited.contains(found))
        }),
{
    lemma_cited_items(records, 0, Seq::empty());
    lemma_cited(JsonView::Array(records), Seq::empty());
}

/// The items of a kind among the first `n`.
pub open spec fn kind_upto(items: Seq<JsonView>, kind: Seq<char>, n: int) -> Seq<JsonView>
    decreases n,
{
    if n <= 0 {
        Seq::empty()
    } else if json::str_at(items[n - 1], "type"@) == Some(kind) {
        kind_upto(items, kind, n - 1).push(items[n - 1])
    } else {
        kind_upto(items, kind, n - 1)
    }
}

proof fn lemma_of_kind(items: Seq<JsonView>, kind: Seq<char>, i: int)
    requires
        0 <= i <= items.len(),
    ensures
        search::of_kind(items, kind, i, kind_upto(items, kind, i)) == kind_upto(
            items,
            kind,
            items.len() as int,
        ),
    decreases items.len() - i,
{
    if i < items.len() {
        lemma_of_kind(items, kind, i + 1);
    }
}

/// What is kept of the search of a Responses reply holds its calls, one for one and in
/// order, and what is kept of a Gemini one holds what it was grounded on.
#[verifier::spinoff_prover]
pub proof fn a_search_is_kept_whole(body: JsonView, candidate: JsonView)
    ensures
        ({
            let output = json::items_in(json::member(body, "output"@));
            let calls = kind_upto(output, "web_search_call"@, output.len() as int);
            let kept = JsonView::Object(search::responses_metadata(body));
            calls.len() > 0 ==> json::items_in(json::member(kept, "web_search_calls"@)) == calls
        }),
        ({
            let grounds = json::at(candidate, "groundingMetadata"@);
            grounds != JsonView::Null ==> json::member(
                JsonView::Object(search::gemini_metadata(candidate)),
                "groundingMetadata"@,
            ) == Some(grounds)
        }),
{
    broadcast use json::entry_after_put;

    lemma_names();
    let output = json::items_in(json::member(body, "output"@));
    lemma_of_kind(output, "web_search_call"@, 0);
}

/// A hit is the file that a result of a search names.
pub open spec fn hits(value: JsonView, hit: FileSearchHitView) -> bool {
    &&& json::member(value, "file_id"@) is Some ==> json::str_at(value, "file_id"@) == Some(
        hit.file_id,
    )
    &&& json::member(value, "file_id"@) is None ==> json::str_at(value, "id"@) == Some(hit.file_id)
    &&& hit.filename == json::str_at(value, "filename"@)
    &&& hit.text == json::str_at(value, "text"@)
    &&& hit.score is Some ==> json::member(value, "score"@) == Some(JsonView::Number(hit.score->0))
}

/// A result that names a file.
pub open spec fn names_file(value: JsonView) -> bool {
    match json::member(value, "file_id"@) {
        Some(id) => id is Str,
        None => json::str_at(value, "id"@) is Some,
    }
}

/// The results among the first `n` that name a file.
pub open spec fn named_upto(items: Seq<JsonView>, n: int) -> Seq<JsonView>
    decreases n,
{
    if n <= 0 {
        Seq::empty()
    } else if names_file(items[n - 1]) {
        named_upto(items, n - 1).push(items[n - 1])
    } else {
        named_upto(items, n - 1)
    }
}

/// A search of files gives one hit for each result that names a file, in order.
pub proof fn every_hit_is_kept(items: Seq<JsonView>, i: int, before: Seq<FileSearchHitView>)
    requires
        0 <= i <= items.len(),
        before.len() == named_upto(items, i).len(),
        forall|k: int| 0 <= k < before.len() ==> hits(named_upto(items, i)[k], #[trigger] before[k]),
    ensures
        ({
            let found = file_search_decode::hits_of(items, i, before);
            let named = named_upto(items, items.len() as int);
            &&& found.len() == named.len()
            &&& forall|k: int| 0 <= k < found.len() ==> hits(named[k], #[trigger] found[k])
        }),
    decreases items.len() - i,
{
    if i < items.len() {
        match file_search_decode::hit_of(items[i]) {
            Some(hit) => {
                assert(hits(items[i], hit));
                every_hit_is_kept(items, i + 1, before.push(hit));
            },
            None => {
                every_hit_is_kept(items, i + 1, before);
            },
        }
    }
}

/// What a reply says of how it was served is what is reported: the tier and the effort,
/// in the body itself or with its usage, and what it does not mention stays as it was.
#[verifier::spinoff_prover]
#[verifier::rlimit(40)]
pub proof fn a_reply_reports_how_it_was_served(
    report: InferenceReportView,
    body: JsonView,
    wire: FastWire,
)
    requires
        json::member(body, "response"@) is None,
        json::member(body, "message"@) is None,
    ensures
        ({
            let after = inference::observed(report, body, wire);
            let tier = json::str_at(body, "service_tier"@);
            let inner = json::str_at(json::at(body, "usage"@), "service_tier"@);
            let effort = json::str_at(json::at(body, "reasoning"@), "effort"@);
            let bare = json::str_at(body, "reasoning_effort"@);
            &&& tier is Some ==> after.raw_service_tier == tier
            &&& tier is None && inner is Some ==> after.raw_service_tier == inner
            &&& wire != FastWire::Speed && tier is Some ==> (after.service_tier == Some(
                ServiceTier::Fast,
            ) <==> tier == Some("priority"@) || tier == Some("fast"@))
            &&& wire != FastWire::Speed && tier is Some ==> (after.service_tier == Some(
                ServiceTier::Standard,
            ) <==> tier == Some("standard"@) || tier == Some("default"@) || tier == Some(
                "standard_only"@,
            ))
            &&& effort is Some ==> after.raw_effort == effort
            &&& effort is None && bare is Some ==> after.raw_effort == bare
            &&& json::str_at(json::at(body, "usage"@), "speed"@) is Some ==> after.raw_speed
                == json::str_at(json::at(body, "usage"@), "speed"@)
            &&& after.requested_effort == report.requested_effort
            &&& after.requested_service_tier == report.requested_service_tier
        }),
{
    lemma_names();
}

/// Without bindings the blocks of a message are its own; with them a block that is bound
/// stands in the place of the one that it replaces, and every other one stays.
pub proof fn a_binding_replaces_its_block_alone(wire: EncodeRequest, m: int, b: int)
    requires
        0 <= m < wire.request.messages@.len(),
        0 <= b < wire.request.messages@[m].content@.len(),
    ensures
        ({
            let own = wire.request.messages@[m].content@;
            let blocks = input::message_blocks(wire, m);
            &&& blocks.len() == own.len()
            &&& wire.bindings is None ==> blocks[b] == own[b]
            &&& wire.bindings matches Some(bindings) ==> {
                &&& (forall|i: int|
                    0 <= i < bindings@.len() ==> (#[trigger] bindings@[i]).message != m
                        || bindings@[i].block != b) ==> blocks[b] == own[b]
                &&& (exists|i: int|
                    0 <= i < bindings@.len() && (#[trigger] bindings@[i]).message == m
                        && bindings@[i].block == b) ==> exists|i: int|
                    0 <= i < bindings@.len() && (#[trigger] bindings@[i]).message == m
                        && bindings@[i].block == b && blocks[b] == bindings@[i].replacement
            }
        }),
{
    if let Some(bindings) = wire.bindings {
        lemma_replacement(bindings@, m, b, 0);
    }
}

proof fn lemma_replacement(bindings: Seq<input::ContentBinding>, m: int, b: int, i: int)
    requires
        0 <= i <= bindings.len(),
    ensures
        match input::replacement(bindings, m, b, i) {
            Some(block) => exists|k: int|
                i <= k < bindings.len() && (#[trigger] bindings[k]).message == m
                    && bindings[k].block == b && block == bindings[k].replacement,
            None => forall|k: int|
                i <= k < bindings.len() ==> (#[trigger] bindings[k]).message != m
                    || bindings[k].block != b,
        },
    decreases bindings.len() - i,
{
    if i < bindings.len() {
        lemma_replacement(bindings, m, b, i + 1);
    }
}

/// The texts among the first `n` items.
pub open spec fn texts_upto(items: Seq<JsonView>, n: int) -> Seq<Seq<char>>
    decreases n,
{
    if n <= 0 {
        Seq::empty()
    } else {
        match items[n - 1] {
            JsonView::Str(s) => texts_upto(items, n - 1).push(s),
            _ => texts_upto(items, n - 1),
        }
    }
}

proof fn lemma_texts(items: Seq<JsonView>, i: int, before: Seq<Seq<char>>)
    requires
        0 <= i <= items.len(),
    ensures
        file_search_decode::texts_of(items, i, before + texts_upto(items, i)) == before
            + texts_upto(items, items.len() as int),
    decreases items.len() - i,
{
    if i < items.len() {
        lemma_texts(items, i + 1, before);
        if let JsonView::Str(s) = items[i] {
            assert(before + texts_upto(items, i).push(s) =~= (before + texts_upto(items, i)).push(
                s,
            ));
        }
    }
}

/// What is kept of one search of files holds the call itself, what it asked for and one
/// hit for each result that names a file.
pub proof fn a_file_search_tells_its_hits(call: JsonView)
    ensures
        file_search_decode::result_of_calls(seq![call]) matches Some(found) && {
            let queries = json::items_in(json::member(call, "queries"@));
            let results = json::items_in(json::member(call, "results"@));
            let named = named_upto(results, results.len() as int);
            &&& found.queries == texts_upto(queries, queries.len() as int)
            &&& found.hits.len() == named.len()
            &&& forall|k: int| 0 <= k < found.hits.len() ==> hits(named[k], #[trigger] found.hits[k])
            &&& json::items_in(json::member(found.metadata, "file_search_calls"@)) == seq![call]
        },
{
    let queries = json::items_in(json::member(call, "queries"@));
    let results = json::items_in(json::member(call, "results"@));
    lemma_texts(queries, 0, Seq::empty());
    assert(Seq::<Seq<char>>::empty() + texts_upto(queries, 0) =~= Seq::empty());
    assert(Seq::<Seq<char>>::empty() + texts_upto(queries, queries.len() as int) =~= texts_upto(
        queries,
        queries.len() as int,
    ));
    every_hit_is_kept(results, 0, Seq::empty());
    let calls = seq![call];
    reveal_with_fuel(file_search_decode::gathered, 2);
    assert(file_search_decode::gathered(calls, 0, Seq::empty(), Seq::empty()) == (
        file_search_decode::texts_of(queries, 0, Seq::empty()),
        file_search_decode::hits_of(results, 0, Seq::empty()),
    ));
}

/// The searches of files of a Responses reply are its calls of that kind, one for one and
/// in order.
pub proof fn every_file_search_is_found(body: JsonView)
    ensures
        ({
            let output = json::items_in(json::member(body, "output"@));
            file_search_decode::search_calls(body) == kind_upto(
                output,
                "file_search_call"@,
                output.len() as int,
            )
        }),
{
    let output = json::items_in(json::member(body, "output"@));
    lemma_of_kind(output, "file_search_call"@, 0);
}

/// What is kept of the search of a Chat reply holds the sources that its message cites,
/// one for one and in order, and what the reply found.
#[verifier::spinoff_prover]
pub proof fn a_chat_search_is_kept_whole(message: JsonView, body: JsonView)
    ensures
        ({
            let notes = json::items_in(json::member(message, "annotations"@));
            let cited = kind_upto(notes, "url_citation"@, notes.len() as int);
            let kept = JsonView::Object(search::chat_search_metadata(message, body));
            let found = json::at(body, "web_search"@);
            &&& cited.len() > 0 ==> json::items_in(json::member(kept, "annotations"@)) == cited
            &&& cited.len() == 0 ==> json::member(kept, "annotations"@) is None
            &&& found != JsonView::Null ==> json::member(kept, "web_search"@) == Some(found)
            &&& found == JsonView::Null ==> json::member(kept, "web_search"@) is None
        }),
{
    broadcast use json::entry_after_put;

    lemma_names();
    let notes = json::items_in(json::member(message, "annotations"@));
    lemma_of_kind(notes, "url_citation"@, 0);
}

/// A cited source of a Responses reply is kept with its place: the item and the part that
/// it is cited in.
pub proof fn a_citation_is_kept_with_its_place(output: u64, content: u64, note: JsonView)
    ensures
        ({
            let placed = search::placed(output, content, note);
            &&& json::u64_at(placed, "output_index"@) == Some(output)
            &&& json::u64_at(placed, "content_index"@) == Some(content)
            &&& json::member(placed, "annotation"@) == Some(note)
        }),
        json::is_kind(note, "url_citation"@) ==> search::placed_in_part(
            seq![note],
            0,
            output,
            content,
            Seq::empty(),
        ) == seq![search::placed(output, content, note)],
        !json::is_kind(note, "url_citation"@) ==> search::placed_in_part(
            seq![note],
            0,
            output,
            content,
            Seq::empty(),
        ).len() == 0,
{
    broadcast use json::entry_after_put;

    lemma_names();
    reveal_with_fuel(search::placed_in_part, 2);
    assert(Seq::<JsonView>::empty().push(search::placed(output, content, note)) =~= seq![
        search::placed(output, content, note),
    ]);
}

/// The blocks of a Messages reply that belong to a search are kept: the calls of the
/// search tool, its results, and what cites them; no other block is.
#[verifier::spinoff_prover]
pub proof fn a_searched_block_is_kept(block: JsonView)
    ensures
        json::is_kind(block, "web_search_tool_result"@) ==> search::searched(block),
        json::is_kind(block, "server_tool_use"@) && json::str_at(block, "name"@) == Some(
            "web_search"@,
        ) ==> search::searched(block),
        json::is_kind(block, "server_tool_use"@) && json::str_at(block, "name"@) != Some(
            "web_search"@,
        ) && json::member(block, "citations"@) is None ==> !search::searched(block),
        json::is_kind(block, "tool_use"@) && json::member(block, "citations"@) is None
            ==> !search::searched(block),
        json::is_kind(block, "text"@) && json::member(block, "citations"@) is None
            ==> !search::searched(block),
{
    lemma_names();
}

/// The number of searches of a reply is kept where the provider counts it.
#[verifier::spinoff_prover]
pub proof fn a_search_is_counted(usage: JsonView)
    ensures
        ({
            let kept = JsonView::Object(search::search_counters(usage));
            let tool = json::at(usage, "server_tool_use"@);
            let side = json::at(usage, "server_side_tool_usage"@);
            &&& json::u64_at(tool, "web_search_requests"@) matches Some(n) ==> json::u64_at(
                json::at(kept, "server_tool_use"@),
                "web_search_requests"@,
            ) == Some(n)
            &&& json::u64_at(side, "web_search_requests"@) matches Some(n) ==> json::u64_at(
                json::at(kept, "server_side_tool_usage"@),
                "web_search_requests"@,
            ) == Some(n)
            &&& json::u64_at(side, "web_search_calls"@) matches Some(n) ==> json::u64_at(
                json::at(kept, "server_side_tool_usage"@),
                "web_search_calls"@,
            ) == Some(n)
        }),
{
    broadcast use json::entry_after_put;

    lemma_names();
}

proof fn lemma_prepared(media: Seq<input::PreparedMedia>, attachment: AttachmentRef, i: int)
    requires
        0 <= i,
    ensures
        input::prepared(media, attachment, i) matches Some(found) ==> profile::same_attachment(
            *found.attachment,
            attachment,
        ),
        input::prepared(media, attachment, i) is None ==> forall|k: int|
            i <= k < media.len() ==> !profile::same_attachment(
                *(#[trigger] media[k]).attachment,
                attachment,
            ),
    decreases media.len() - i,
{
    if i < media.len() {
        lemma_prepared(media, attachment, i + 1);
    }
}

/// An attachment is sent with bytes that were prepared for it and that are as many as it
/// says, or not at all; a block without one needs none.
pub proof fn an_attachment_is_sent_with_its_own_bytes(wire: EncodeRequest, block: ContentBlock)
    ensures
        input::attachment_of(block) is None ==> (input::media_for(wire, block) matches Ok(found)
            && found is None),
        input::attachment_of(block) matches Some(attachment) ==> {
            &&& input::media_for(wire, block) matches Ok(found) ==> (found matches Some(media) && {
                &&& media.attachment.id@ == attachment.id@
                &&& media.attachment.media_type@ == attachment.media_type@
                &&& media.bytes@.len() == attachment.size_bytes
            })
            &&& wire.media is None ==> input::media_for(wire, block) is Err
        },
{
    if let Some(attachment) = input::attachment_of(block) {
        lemma_prepared(input::media_of(wire), attachment, 0);
    }
}

/// The attachment of a block is the one that its source names.
pub proof fn a_block_names_its_attachment(block: ContentBlock)
    ensures
        block matches ContentBlock::Image { source: ImageSource::Attachment { attachment } }
            ==> input::attachment_of(block) == Some(attachment),
        block matches ContentBlock::Document {
            source: DocumentSource::Attachment { attachment },
            ..
        } ==> input::attachment_of(block) == Some(attachment),
        block matches ContentBlock::Video { source: VideoSource::Attachment { attachment } }
            ==> input::attachment_of(block) == Some(attachment),
        block is Text ==> input::attachment_of(block) is None,
{
}

/// The names on the wire, told apart.
#[verifier::spinoff_prover]
proof fn lemma_names()
    ensures
        "id"@.len() == 2,
        "uri"@.len() == 3,
        "url"@.len() == 3,
        "web"@.len() == 3,
        "uri"@[2] == 'i',
        "url"@[2] == 'l',
        "web"@[2] == 'b',
        "fast"@.len() == 4,
        "link"@.len() == 4,
        "name"@.len() == 4,
        "text"@.len() == 4,
        "type"@.len() == 4,
        "fast"@[2] == 's',
        "link"@[2] == 'n',
        "name"@[2] == 'm',
        "text"@[2] == 'x',
        "type"@[2] == 'p',
        "score"@.len() == 5,
        "speed"@.len() == 5,
        "title"@.len() == 5,
        "usage"@.len() == 5,
        "score"@[1] == 'c',
        "speed"@[1] == 'p',
        "title"@[1] == 'i',
        "usage"@[1] == 's',
        "effort"@.len() == 6,
        "output"@.len() == 6,
        "effort"@[0] == 'e',
        "output"@[0] == 'o',
        "content"@.len() == 7,
        "default"@.len() == 7,
        "file_id"@.len() == 7,
        "message"@.len() == 7,
        "queries"@.len() == 7,
        "results"@.len() == 7,
        "x_tools"@.len() == 7,
        "content"@[0] == 'c',
        "default"@[0] == 'd',
        "file_id"@[0] == 'f',
        "message"@[0] == 'm',
        "queries"@[0] == 'q',
        "results"@[0] == 'r',
        "x_tools"@[0] == 'x',
        "filename"@.len() == 8,
        "priority"@.len() == 8,
        "response"@.len() == 8,
        "standard"@.len() == 8,
        "tool_use"@.len() == 8,
        "filename"@[0] == 'f',
        "priority"@[0] == 'p',
        "response"@[0] == 'r',
        "standard"@[0] == 's',
        "tool_use"@[0] == 't',
        "citations"@.len() == 9,
        "reasoning"@.len() == 9,
        "citations"@[0] == 'c',
        "reasoning"@[0] == 'r',
        "annotation"@.len() == 10,
        "web_search"@.len() == 10,
        "annotation"@[0] == 'a',
        "web_search"@[0] == 'w',
        "annotations"@.len() == 11,
        "output_index"@.len() == 12,
        "service_tier"@.len() == 12,
        "url_citation"@.len() == 12,
        "output_index"@[0] == 'o',
        "service_tier"@[0] == 's',
        "url_citation"@[0] == 'u',
        "content_index"@.len() == 13,
        "standard_only"@.len() == 13,
        "content_index"@[0] == 'c',
        "standard_only"@[0] == 's',
        "server_tool_use"@.len() == 15,
        "web_search_call"@.len() == 15,
        "server_tool_use"@[0] == 's',
        "web_search_call"@[0] == 'w',
        "file_search_call"@.len() == 16,
        "reasoning_effort"@.len() == 16,
        "web_search_calls"@.len() == 16,
        "file_search_call"@[0] == 'f',
        "reasoning_effort"@[0] == 'r',
        "web_search_calls"@[0] == 'w',
        "file_search_calls"@.len() == 17,
        "groundingMetadata"@.len() == 17,
        "web_search_result"@.len() == 17,
        "file_search_calls"@[0] == 'f',
        "groundingMetadata"@[0] == 'g',
        "web_search_result"@[0] == 'w',
        "web_search_requests"@.len() == 19,
        "server_side_tool_usage"@.len() == 22,
        "web_search_tool_result"@.len() == 22,
        "server_side_tool_usage"@[0] == 's',
        "web_search_tool_result"@[0] == 'w',
        "web_search_result_location"@.len() == 26,
{
    reveal_strlit("annotation");
    reveal_strlit("annotations");
    reveal_strlit("citations");
    reveal_strlit("content");
    reveal_strlit("content_index");
    reveal_strlit("default");
    reveal_strlit("effort");
    reveal_strlit("fast");
    reveal_strlit("file_id");
    reveal_strlit("file_search_call");
    reveal_strlit("file_search_calls");
    reveal_strlit("filename");
    reveal_strlit("groundingMetadata");
    reveal_strlit("id");
    reveal_strlit("link");
    reveal_strlit("message");
    reveal_strlit("name");
    reveal_strlit("output");
    reveal_strlit("output_index");
    reveal_strlit("priority");
    reveal_strlit("queries");
    reveal_strlit("reasoning");
    reveal_strlit("reasoning_effort");
    reveal_strlit("response");
    reveal_strlit("results");
    reveal_strlit("score");
    reveal_strlit("server_side_tool_usage");
    reveal_strlit("server_tool_use");
    reveal_strlit("service_tier");
    reveal_strlit("speed");
    reveal_strlit("standard");
    reveal_strlit("standard_only");
    reveal_strlit("text");
    reveal_strlit("title");
    reveal_strlit("tool_use");
    reveal_strlit("type");
    reveal_strlit("uri");
    reveal_strlit("url");
    reveal_strlit("url_citation");
    reveal_strlit("usage");
    reveal_strlit("web");
    reveal_strlit("web_search");
    reveal_strlit("web_search_call");
    reveal_strlit("web_search_calls");
    reveal_strlit("web_search_requests");
    reveal_strlit("web_search_result");
    reveal_strlit("web_search_result_location");
    reveal_strlit("web_search_tool_result");
    reveal_strlit("x_tools");
}

} // verus!
