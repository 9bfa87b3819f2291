//! Web search attribution: native metadata is kept alongside a convenience
//! source list.

use crate::json::{self, Entries, Json, JsonView};
use crate::protocol::inference;
use crate::protocol::{
    StreamEvent, StreamEventView, WebCitation, WebCitationView, WebSearchResult,
    WebSearchResultView,
};
use crate::text;
use vstd::prelude::*;

verus! {

broadcast use {crate::views::group_views, crate::json::group_json};

/// What an object cites, if it is a citation or wraps one.
pub open spec fn source_of(value: JsonView) -> Option<JsonView> {
    if json::is_kind(value, "url_citation"@) {
        match json::member(value, "url_citation"@) {
            Some(inner) => Some(inner),
            None => Some(value),
        }
    } else if json::is_kind(value, "web_search_result_location"@) || json::is_kind(
        value,
        "web_search_result"@,
    ) || json::is_kind(value, "url"@) {
        Some(value)
    } else if json::member(value, "link"@) is Some {
        Some(value)
    } else {
        json::member(value, "web"@)
    }
}

fn source<'a>(value: &'a Json) -> (result: Option<&'a Json>)
    ensures
        result.deep_view() == source_of(value@),
{
    if json::kind_is(value, "url_citation") {
        match value.get("url_citation") {
            Some(inner) => Some(inner),
            None => Some(value),
        }
    } else if json::kind_is(value, "web_search_result_location") || json::kind_is(
        value,
        "web_search_result",
    ) || json::kind_is(value, "url") {
        Some(value)
    } else if value.get("link").is_some() {
        Some(value)
    } else {
        value.get("web")
    }
}

/// The citation that an object makes.
pub open spec fn citation_of(value: JsonView) -> Option<WebCitationView> {
    match source_of(value) {
        None => None,
        Some(source) => match json::str_in(json::either3(source, "url"@, "uri"@, "link"@)) {
            None => None,
            Some(url) => Some(WebCitationView { url, title: json::str_at(source, "title"@) }),
        },
    }
}

/// The citations with one more, unless it is there.
pub open spec fn with_citation(out: Seq<WebCitationView>, citation: Option<WebCitationView>) -> Seq<
    WebCitationView,
> {
    match citation {
        Some(citation) => if out.contains(citation) {
            out
        } else {
            out.push(citation)
        },
        None => out,
    }
}

/// The citations once those of a value are in: its own, then those within it.
pub open spec fn cited(value: JsonView, out: Seq<WebCitationView>) -> Seq<WebCitationView>
    decreases value, 0nat,
{
    match value {
        JsonView::Array(items) => cited_items(items, 0, out),
        JsonView::Object(entries) => cited_entries(
            entries,
            0,
            with_citation(out, citation_of(value)),
        ),
        _ => out,
    }
}

pub open spec fn cited_items(items: Seq<JsonView>, i: int, out: Seq<WebCitationView>) -> Seq<
    WebCitationView,
>
    decreases items, items.len() - i,
{
    if i < 0 || i >= items.len() {
        out
    } else {
        cited_items(items, i + 1, cited(items[i], out))
    }
}

pub open spec fn cited_entries(entries: Entries, i: int, out: Seq<WebCitationView>) -> Seq<
    WebCitationView,
>
    decreases entries, entries.len() - i,
{
    if i < 0 || i >= entries.len() {
        out
    } else {
        proof {
            assert(decreases_to!(entries => entries[i]));
            assert(decreases_to!(entries[i] => entries[i].1));
        }
        cited_entries(entries, i + 1, cited(entries[i].1, out))
    }
}

fn has_citation(out: &Vec<WebCitation>, url: &str, title: &Option<String>) -> (result: bool)
    ensures
        result == out.deep_view().contains(
            WebCitationView { url: url@, title: title.deep_view() },
        ),
{
    let ghost wanted = WebCitationView { url: url@, title: title.deep_view() };
    let mut i: usize = 0;
    while i < out.len()
        invariant
            i <= out.len(),
            wanted == (WebCitationView { url: url@, title: title.deep_view() }),
            forall|k: int| 0 <= k < i ==> out.deep_view()[k] != wanted,
        decreases out.len() - i,
    {
        assert(out.deep_view()[i as int] == out@[i as int].deep_view());
        if text::same(&out[i].url, url) && inference::same_text(&out[i].title, title) {
            assert(out.deep_view()[i as int] == wanted);
            return true;
        }
        i = i + 1;
    }
    false
}

fn add_citation(value: &Json, out: &mut Vec<WebCitation>)
    ensures
        final(out).deep_view() == with_citation(old(out).deep_view(), citation_of(value@)),
{
    if let Some(source) = source(value) {
        if let Some(url) = json::text_in(source.get_either3("url", "uri", "link")) {
            let title = json::owned_text_in(source.get("title"));
            if !has_citation(out, url, &title) {
                out.push(WebCitation { url: url.to_owned(), title });
            }
        }
    }
}

fn citations(value: &Json, out: &mut Vec<WebCitation>)
    ensures
        final(out).deep_view() == cited(value@, old(out).deep_view()),
    decreases value,
{
    match value {
        Json::Array(items) => {
            let mut i: usize = 0;
            while i < items.len()
                invariant
                    i <= items.len(),
                    decreases_to!(value => items@),
                    cited_items(items.deep_view(), 0, old(out).deep_view()) == cited_items(
                        items.deep_view(),
                        i as int,
                        out.deep_view(),
                    ),
                decreases items.len() - i,
            {
                assert(decreases_to!(items@ => items@[i as int]));
                assert(items.deep_view()[i as int] == items@[i as int]@);
                citations(&items[i], out);
                i = i + 1;
            }
        },
        Json::Object(entries) => {
            add_citation(value, out);
            let ghost first = out.deep_view();
            let mut i: usize = 0;
            while i < entries.len()
                invariant
                    i <= entries.len(),
                    decreases_to!(value => entries@),
                    cited_entries(entries.deep_view(), 0, first) == cited_entries(
                        entries.deep_view(),
                        i as int,
                        out.deep_view(),
                    ),
                decreases entries.len() - i,
            {
                assert(decreases_to!(entries@ => entries@[i as int]));
                assert(decreases_to!(entries@[i as int] => entries@[i as int].1));
                assert(entries.deep_view()[i as int] == entries@[i as int].deep_view());
                citations(&entries[i].1, out);
                i = i + 1;
            }
        },
        _ => {},
    }
}

/// The result that metadata makes, unless it is empty.
pub open spec fn result_of(metadata: Entries) -> Option<WebSearchResultView> {
    if metadata.len() == 0 {
        None
    } else {
        let value = JsonView::Object(metadata);
        Some(WebSearchResultView { citations: cited(value, Seq::empty()), metadata: value })
    }
}

pub fn result(metadata: Vec<(String, Json)>) -> (result: Option<WebSearchResult>)
    ensures
        result.deep_view() == result_of(metadata.deep_view()),
{
    if metadata.len() == 0 {
        return None;
    }
    let value = Json::Object(metadata);
    let mut sources: Vec<WebCitation> = Vec::new();
    citations(&value, &mut sources);
    Some(WebSearchResult { citations: sources, metadata: value })
}

/// The result of metadata with one record.
pub open spec fn single(key: Seq<char>, record: JsonView) -> Option<WebSearchResultView> {
    result_of(json::put(Seq::empty(), key, JsonView::Array(seq![record])))
}

pub fn single_result(key: &str, record: Json) -> (found: Option<WebSearchResult>)
    ensures
        found.deep_view() == single(key@, record@),
{
    let mut metadata = json::fields();
    json::set(&mut metadata, key, json::array1(record));
    result(metadata)
}

/// The items of the kind, from the `i`th on.
pub open spec fn of_kind(items: Seq<JsonView>, kind: Seq<char>, i: int, before: Seq<JsonView>) -> Seq<
    JsonView,
>
    decreases items.len() - i,
{
    if i < 0 || i >= items.len() {
        before
    } else {
        of_kind(
            items,
            kind,
            i + 1,
            if json::is_kind(items[i], kind) {
                before.push(items[i])
            } else {
                before
            },
        )
    }
}

pub fn filter_kind(items: &Vec<Json>, kind: &str) -> (result: Vec<Json>)
    ensures
        result.deep_view() == of_kind(items.deep_view(), kind@, 0, Seq::empty()),
{
    let mut out: Vec<Json> = Vec::new();
    let mut i: usize = 0;
    while i < items.len()
        invariant
            i <= items.len(),
            of_kind(items.deep_view(), kind@, 0, Seq::empty()) == of_kind(
                items.deep_view(),
                kind@,
                i as int,
                out.deep_view(),
            ),
        decreases items.len() - i,
    {
        assert(items.deep_view()[i as int] == items@[i as int]@);
        if json::kind_is(&items[i], kind) {
            out.push(items[i].dup());
        }
        i = i + 1;
    }
    out
}

/// The elements of an array that may be there.
pub fn items_of<'a>(json: Option<&'a Json>) -> (result: Option<&'a Vec<Json>>)
    ensures
        match result {
            Some(items) => items.deep_view() == json::items_in(json.deep_view()),
            None => json::items_in(json.deep_view()).len() == 0,
        },
{
    match json {
        Some(Json::Array(items)) => Some(items),
        _ => None,
    }
}

/// The URL citations of a chat message.
pub open spec fn chat_annotations(message: JsonView) -> Seq<JsonView> {
    of_kind(
        json::items_in(json::member(message, "annotations"@)),
        "url_citation"@,
        0,
        Seq::empty(),
    )
}

fn annotations_of(message: &Json) -> (result: Vec<Json>)
    ensures
        result.deep_view() == chat_annotations(message@),
{
    match items_of(message.get("annotations")) {
        Some(items) => filter_kind(items, "url_citation"),
        None => Vec::new(),
    }
}

/// The metadata of a chat message.
pub open spec fn chat_metadata(message: JsonView) -> Entries {
    let annotations = chat_annotations(message);
    if annotations.len() == 0 {
        Seq::empty()
    } else {
        json::put(Seq::empty(), "annotations"@, JsonView::Array(annotations))
    }
}

fn metadata_of_chat(message: &Json) -> (metadata: Vec<(String, Json)>)
    ensures
        metadata.deep_view() == chat_metadata(message@),
{
    let annotations = annotations_of(message);
    let mut metadata = json::fields();
    if annotations.len() > 0 {
        json::set(&mut metadata, "annotations", Json::Array(annotations));
    }
    metadata
}

pub fn chat(message: &Json) -> (found: Option<WebSearchResult>)
    ensures
        found.deep_view() == result_of(chat_metadata(message@)),
{
    result(metadata_of_chat(message))
}

/// The metadata of a chat message and of the response or frame around it: some
/// endpoints put search results at the root, also where there are no choices.
pub open spec fn chat_search_metadata(message: JsonView, body: JsonView) -> Entries {
    let found = json::at(body, "web_search"@);
    if found == JsonView::Null {
        chat_metadata(message)
    } else {
        json::put(chat_metadata(message), "web_search"@, found)
    }
}

pub fn chat_with_search(message: &Json, body: &Json) -> (found: Option<WebSearchResult>)
    ensures
        found.deep_view() == result_of(chat_search_metadata(message@, body@)),
{
    let mut metadata = metadata_of_chat(message);
    if let Some(search) = body.get("web_search") {
        if !json::is_null(Some(search)) {
            json::set(&mut metadata, "web_search", search.dup());
        }
    }
    result(metadata)
}

/// An annotation with its place in the response.
pub open spec fn placed(output: u64, content: u64, annotation: JsonView) -> JsonView {
    json::obj3(
        "output_index"@,
        json::uint_view(output),
        "content_index"@,
        json::uint_view(content),
        "annotation"@,
        annotation,
    )
}

pub fn place(output: u64, content: u64, annotation: &Json) -> (json: Json)
    ensures
        json@ == placed(output, content, annotation@),
{
    json::object3(
        "output_index",
        json::uint(output),
        "content_index",
        json::uint(content),
        "annotation",
        annotation.dup(),
    )
}

/// The URL citations among the annotations of a part, from the `i`th on.
pub open spec fn placed_in_part(
    annotations: Seq<JsonView>,
    i: int,
    output: u64,
    content: u64,
    before: Seq<JsonView>,
) -> Seq<JsonView>
    decreases annotations.len() - i,
{
    if i < 0 || i >= annotations.len() {
        before
    } else {
        placed_in_part(
            annotations,
            i + 1,
            output,
            content,
            if json::is_kind(annotations[i], "url_citation"@) {
                before.push(placed(output, content, annotations[i]))
            } else {
                before
            },
        )
    }
}

/// The URL citations among the parts of an item, from the `i`th on.
pub open spec fn placed_in_item(parts: Seq<JsonView>, i: int, output: u64, before: Seq<JsonView>) -> Seq<
    JsonView,
>
    decreases parts.len() - i,
{
    if i < 0 || i >= parts.len() {
        before
    } else {
        placed_in_item(
            parts,
            i + 1,
            output,
            placed_in_part(
                json::items_in(json::member(parts[i], "annotations"@)),
                0,
                output,
                i as u64,
                before,
            ),
        )
    }
}

/// The URL citations among the items of a response, from the `i`th on.
pub open spec fn placed_in_output(items: Seq<JsonView>, i: int, before: Seq<JsonView>) -> Seq<JsonView>
    decreases items.len() - i,
{
    if i < 0 || i >= items.len() {
        before
    } else {
        placed_in_output(
            items,
            i + 1,
            placed_in_item(
                json::items_in(json::member(items[i], "content"@)),
                0,
                i as u64,
                before,
            ),
        )
    }
}

fn place_part(annotations: &Vec<Json>, output: u64, content: u64, out: &mut Vec<Json>)
    ensures
        final(out).deep_view() == placed_in_part(
            annotations.deep_view(),
            0,
            output,
            content,
            old(out).deep_view(),
        ),
{
    let mut i: usize = 0;
    while i < annotations.len()
        invariant
            i <= annotations.len(),
            placed_in_part(annotations.deep_view(), 0, output, content, old(out).deep_view())
                == placed_in_part(
                annotations.deep_view(),
                i as int,
                output,
                content,
                out.deep_view(),
            ),
        decreases annotations.len() - i,
    {
        assert(annotations.deep_view()[i as int] == annotations@[i as int]@);
        if json::kind_is(&annotations[i], "url_citation") {
            out.push(place(output, content, &annotations[i]));
        }
        i = i + 1;
    }
}

fn place_item(parts: &Vec<Json>, output: u64, out: &mut Vec<Json>)
    ensures
        final(out).deep_view() == placed_in_item(
            parts.deep_view(),
            0,
            output,
            old(out).deep_view(),
        ),
{
    let mut i: usize = 0;
    while i < parts.len()
        invariant
            i <= parts.len(),
            placed_in_item(parts.deep_view(), 0, output, old(out).deep_view()) == placed_in_item(
                parts.deep_view(),
                i as int,
                output,
                out.deep_view(),
            ),
        decreases parts.len() - i,
    {
        assert(parts.deep_view()[i as int] == parts@[i as int]@);
        if let Some(annotations) = items_of(parts[i].get("annotations")) {
            place_part(annotations, output, i as u64, out);
        }
        i = i + 1;
    }
}

fn place_output(items: &Vec<Json>, out: &mut Vec<Json>)
    ensures
        final(out).deep_view() == placed_in_output(items.deep_view(), 0, old(out).deep_view()),
{
    let mut i: usize = 0;
    while i < items.len()
        invariant
            i <= items.len(),
            placed_in_output(items.deep_view(), 0, old(out).deep_view()) == placed_in_output(
                items.deep_view(),
                i as int,
                out.deep_view(),
            ),
        decreases items.len() - i,
    {
        assert(items.deep_view()[i as int] == items@[i as int]@);
        if let Some(parts) = items_of(items[i].get("content")) {
            place_item(parts, i as u64, out);
        }
        i = i + 1;
    }
}

/// The array, unless it is empty.
pub open spec fn unless_empty(items: Seq<JsonView>) -> Option<JsonView> {
    if items.len() == 0 {
        None
    } else {
        Some(JsonView::Array(items))
    }
}

fn put_items(metadata: &mut Vec<(String, Json)>, key: &str, items: Vec<Json>)
    ensures
        final(metadata).deep_view() == json::put_some(
            old(metadata).deep_view(),
            key@,
            unless_empty(items.deep_view()),
        ),
{
    if items.len() > 0 {
        json::set(metadata, key, Json::Array(items));
    }
}

/// The value, unless it is null.
pub open spec fn unless_null(value: JsonView) -> Option<JsonView> {
    if value == JsonView::Null {
        None
    } else {
        Some(value)
    }
}

/// The metadata of a Responses body.
pub open spec fn responses_metadata(body: JsonView) -> Entries {
    let output = json::items_in(json::member(body, "output"@));
    json::put_some(
        json::put_some(
            json::put_some(
                Seq::empty(),
                "server_side_tool_usage"@,
                unless_null(json::at(body, "server_side_tool_usage"@)),
            ),
            "annotations"@,
            unless_empty(placed_in_output(output, 0, Seq::empty())),
        ),
        "web_search_calls"@,
        unless_empty(of_kind(output, "web_search_call"@, 0, Seq::empty())),
    )
}

fn metadata_of_responses(body: &Json) -> (metadata: Vec<(String, Json)>)
    ensures
        metadata.deep_view() == responses_metadata(body@),
{
    let mut metadata = json::fields();
    if let Some(counts) = body.get("server_side_tool_usage") {
        if !json::is_null(Some(counts)) {
            json::set(&mut metadata, "server_side_tool_usage", counts.dup());
        }
    }
    let mut annotations: Vec<Json> = Vec::new();
    let mut calls: Vec<Json> = Vec::new();
    if let Some(output) = items_of(body.get("output")) {
        place_output(output, &mut annotations);
        calls = filter_kind(output, "web_search_call");
    }
    put_items(&mut metadata, "annotations", annotations);
    put_items(&mut metadata, "web_search_calls", calls);
    metadata
}

pub fn responses(body: &Json) -> (found: Option<WebSearchResult>)
    ensures
        found.deep_view() == result_of(responses_metadata(body@)),
{
    result(metadata_of_responses(body))
}

/// A block of a hosted search: the call or its result.
pub open spec fn search_block(block: JsonView) -> bool {
    json::is_kind(block, "web_search_tool_result"@) || (json::is_kind(block, "server_tool_use"@)
        && json::str_at(block, "name"@) == Some("web_search"@))
}

pub fn is_anthropic_search_block(block: &Json) -> (result: bool)
    ensures
        result == search_block(block@),
{
    let named = match block.str_at("name") {
        Some(name) => text::same(name, "web_search"),
        None => false,
    };
    json::kind_is(block, "web_search_tool_result") || (json::kind_is(block, "server_tool_use")
        && named)
}

/// Whether a block cites a search result.
pub open spec fn cites_search(block: JsonView) -> bool {
    of_kind(
        json::items_in(json::member(block, "citations"@)),
        "web_search_result_location"@,
        0,
        Seq::empty(),
    ).len() > 0
}

fn is_citing(block: &Json) -> (result: bool)
    ensures
        result == cites_search(block@),
{
    match items_of(block.get("citations")) {
        Some(citations) => filter_kind(citations, "web_search_result_location").len() > 0,
        None => false,
    }
}

/// Whether a block belongs to a search.
pub open spec fn searched(block: JsonView) -> bool {
    search_block(block) || cites_search(block)
}

pub fn is_searched(block: &Json) -> (result: bool)
    ensures
        result == searched(block@),
{
    is_anthropic_search_block(block) || is_citing(block)
}

/// The blocks that belong to a search, from the `i`th on.
pub open spec fn searched_blocks(blocks: Seq<JsonView>, i: int, before: Seq<JsonView>) -> Seq<JsonView>
    decreases blocks.len() - i,
{
    if i < 0 || i >= blocks.len() {
        before
    } else {
        searched_blocks(
            blocks,
            i + 1,
            if searched(blocks[i]) {
                before.push(blocks[i])
            } else {
                before
            },
        )
    }
}

/// The metadata of a Messages body.
pub open spec fn anthropic_metadata(body: JsonView) -> Entries {
    json::put_some(
        Seq::empty(),
        "content"@,
        unless_empty(
            searched_blocks(json::items_in(json::member(body, "content"@)), 0, Seq::empty()),
        ),
    )
}

fn metadata_of_anthropic(body: &Json) -> (metadata: Vec<(String, Json)>)
    ensures
        metadata.deep_view() == anthropic_metadata(body@),
{
    let mut found: Vec<Json> = Vec::new();
    if let Some(blocks) = items_of(body.get("content")) {
        let mut i: usize = 0;
        while i < blocks.len()
            invariant
                i <= blocks.len(),
                searched_blocks(blocks.deep_view(), 0, Seq::empty()) == searched_blocks(
                    blocks.deep_view(),
                    i as int,
                    found.deep_view(),
                ),
            decreases blocks.len() - i,
        {
            assert(blocks.deep_view()[i as int] == blocks@[i as int]@);
            if is_searched(&blocks[i]) {
                found.push(blocks[i].dup());
            }
            i = i + 1;
        }
    }
    let mut metadata = json::fields();
    put_items(&mut metadata, "content", found);
    metadata
}

pub fn anthropic(body: &Json) -> (found: Option<WebSearchResult>)
    ensures
        found.deep_view() == result_of(anthropic_metadata(body@)),
{
    result(metadata_of_anthropic(body))
}

/// The metadata of a Gemini candidate.
pub open spec fn gemini_metadata(candidate: JsonView) -> Entries {
    json::put_some(
        Seq::empty(),
        "groundingMetadata"@,
        unless_null(json::at(candidate, "groundingMetadata"@)),
    )
}

pub fn gemini(candidate: &Json) -> (found: Option<WebSearchResult>)
    ensures
        found.deep_view() == result_of(gemini_metadata(candidate@)),
{
    let mut metadata = json::fields();
    if let Some(grounding) = candidate.get("groundingMetadata") {
        if !json::is_null(Some(grounding)) {
            json::set(&mut metadata, "groundingMetadata", grounding.dup());
        }
    }
    result(metadata)
}

/// Whether a member is a count.
pub open spec fn counts(value: JsonView, key: Seq<char>) -> bool {
    json::u64_at(value, key) is Some
}

/// The search counters of a usage object, which token usage does not hold. They
/// are there only where a web search ran.
pub open spec fn search_counters(usage: JsonView) -> Entries {
    let tool = json::member(usage, "server_tool_use"@);
    let side = json::member(usage, "server_side_tool_usage"@);
    let x = json::member2(usage, "x_tools"@, "web_search"@);
    let none = Seq::<(Seq<char>, JsonView)>::empty();
    let a = if tool is Some && counts(tool->0, "web_search_requests"@) {
        json::put(none, "server_tool_use"@, tool->0)
    } else {
        none
    };
    let b = if side is Some && (json::at(side->0, "web_search"@) != JsonView::Null || counts(
        side->0,
        "web_search_requests"@,
    ) || counts(side->0, "web_search_calls"@)) {
        json::put(a, "server_side_tool_usage"@, side->0)
    } else {
        a
    };
    if x is Some && x->0 != JsonView::Null {
        json::put(b, "x_tools"@, json::obj1("web_search"@, x->0))
    } else {
        b
    }
}

fn counters(usage: &Json) -> (result: Vec<(String, Json)>)
    ensures
        result.deep_view() == search_counters(usage@),
{
    let mut out = json::fields();
    if let Some(tool) = usage.get("server_tool_use") {
        if tool.u64_at("web_search_requests").is_some() {
            json::set(&mut out, "server_tool_use", tool.dup());
        }
    }
    if let Some(side) = usage.get("server_side_tool_usage") {
        if !json::is_null(side.get("web_search")) || side.u64_at("web_search_requests").is_some()
            || side.u64_at("web_search_calls").is_some() {
            json::set(&mut out, "server_side_tool_usage", side.dup());
        }
    }
    if let Some(x) = usage.get2("x_tools", "web_search") {
        if !json::is_null(Some(x)) {
            json::set(&mut out, "x_tools", json::object1("web_search", x.dup()));
        }
    }
    out
}

/// The metadata with the search counters of a usage object.
pub open spec fn with_counters(metadata: Entries, usage: Option<JsonView>) -> Entries {
    match usage {
        None => metadata,
        Some(usage) => if search_counters(usage).len() == 0 {
            metadata
        } else {
            json::put(metadata, "usage"@, JsonView::Object(search_counters(usage)))
        },
    }
}

fn add_counters(metadata: &mut Vec<(String, Json)>, usage: Option<&Json>)
    ensures
        final(metadata).deep_view() == with_counters(
            old(metadata).deep_view(),
            usage.deep_view(),
        ),
{
    if let Some(usage) = usage {
        let counters = counters(usage);
        if counters.len() > 0 {
            json::set(metadata, "usage", Json::Object(counters));
        }
    }
}

/// The entries of a result's metadata.
pub open spec fn metadata_entries(search: Option<WebSearchResultView>) -> Entries {
    match search {
        Some(search) => match json::entries_of(search.metadata) {
            Some(entries) => entries,
            None => Seq::empty(),
        },
        None => Seq::empty(),
    }
}

/// Keeps a provider's search counters without mixing them into token usage.
pub fn with_usage(search: Option<WebSearchResult>, usage: Option<&Json>) -> (found: Option<
    WebSearchResult,
>)
    ensures
        found.deep_view() == result_of(
            with_counters(metadata_entries(search.deep_view()), usage.deep_view()),
        ),
{
    let mut metadata = match search {
        Some(search) => match search.metadata {
            Json::Object(entries) => entries,
            _ => json::fields(),
        },
        None => json::fields(),
    };
    add_counters(&mut metadata, usage);
    result(metadata)
}

/// What a Responses body and its usage say of searches.
pub fn responses_with_usage(body: &Json) -> (found: Option<WebSearchResult>)
    ensures
        found.deep_view() == result_of(
            with_counters(responses_metadata(body@), json::member(body@, "usage"@)),
        ),
{
    let mut metadata = metadata_of_responses(body);
    add_counters(&mut metadata, body.get("usage"));
    result(metadata)
}

/// What a Messages body and its usage say of searches.
pub fn anthropic_with_usage(body: &Json) -> (found: Option<WebSearchResult>)
    ensures
        found.deep_view() == result_of(
            with_counters(anthropic_metadata(body@), json::member(body@, "usage"@)),
        ),
{
    let mut metadata = metadata_of_anthropic(body);
    add_counters(&mut metadata, body.get("usage"));
    result(metadata)
}

/// What a stream has shown of its searches. Array records are additions of a
/// frame, and repeated ones are suppressed; anything else is a snapshot, which is
/// shown intact whenever it changed.
pub struct SearchStream {
    pub seen: Vec<(String, Json)>,
    pub snapshots: Vec<(String, Json)>,
}

pub struct SearchStreamView {
    pub seen: Entries,
    pub snapshots: Entries,
}

impl View for SearchStream {
    type V = SearchStreamView;

    open spec fn view(&self) -> SearchStreamView {
        SearchStreamView { seen: self.seen.deep_view(), snapshots: self.snapshots.deep_view() }
    }
}

/// Whether a record was seen under the key.
pub open spec fn was_seen(seen: Entries, key: Seq<char>, value: JsonView, i: int) -> bool
    decreases seen.len() - i,
{
    if i < 0 || i >= seen.len() {
        false
    } else {
        (seen[i].0 == key && json::equal(seen[i].1, value)) || was_seen(seen, key, value, i + 1)
    }
}

/// The records, from the `i`th on, that were not seen, and what is seen then.
pub open spec fn fresh_of(
    seen: Entries,
    key: Seq<char>,
    records: Seq<JsonView>,
    i: int,
    fresh: Seq<JsonView>,
) -> (Entries, Seq<JsonView>)
    decreases records.len() - i,
{
    if i < 0 || i >= records.len() {
        (seen, fresh)
    } else if was_seen(seen, key, records[i], 0) {
        fresh_of(seen, key, records, i + 1, fresh)
    } else {
        fresh_of(seen.push((key, records[i])), key, records, i + 1, fresh.push(records[i]))
    }
}

/// The state, and the metadata to show, once the entries from the `i`th on came
/// in.
pub open spec fn shown_of(
    state: SearchStreamView,
    metadata: Entries,
    i: int,
    shown: Entries,
) -> (SearchStreamView, Entries)
    decreases metadata.len() - i,
{
    if i < 0 || i >= metadata.len() {
        (state, shown)
    } else {
        let (key, value) = metadata[i];
        match value {
            JsonView::Array(records) => {
                let (seen, fresh) = fresh_of(state.seen, key, records, 0, Seq::empty());
                shown_of(
                    SearchStreamView { seen, ..state },
                    metadata,
                    i + 1,
                    json::put_some(shown, key, unless_empty(fresh)),
                )
            },
            _ => {
                let held = json::entry(state.snapshots, key);
                if held is Some && json::equal(held->0, value) {
                    shown_of(state, metadata, i + 1, shown)
                } else {
                    shown_of(
                        SearchStreamView {
                            snapshots: json::put(state.snapshots, key, value),
                            ..state
                        },
                        metadata,
                        i + 1,
                        json::put(shown, key, value),
                    )
                }
            },
        }
    }
}

/// The event that a result makes, if it makes one.
pub open spec fn search_events(found: Option<WebSearchResultView>) -> Seq<StreamEventView> {
    match found {
        Some(result) => seq![StreamEventView::WebSearch { result }],
        None => Seq::empty(),
    }
}

/// The state and the events once a result came in.
pub open spec fn emitted(state: SearchStreamView, search: Option<WebSearchResultView>) -> (
    SearchStreamView,
    Seq<StreamEventView>,
) {
    let (next, shown) = shown_of(state, metadata_entries(search), 0, Seq::empty());
    (next, search_events(result_of(shown)))
}

/// Appends the event of a result, if there is one.
pub fn push_search(found: Option<WebSearchResult>, out: &mut Vec<StreamEvent>)
    ensures
        final(out).deep_view() == old(out).deep_view() + search_events(found.deep_view()),
{
    let ghost before = out.deep_view();
    match found {
        Some(result) => {
            out.push(StreamEvent::WebSearch { result });
            assert(out.deep_view() =~= before + search_events(found.deep_view()));
        },
        None => {
            assert(out.deep_view() =~= before + Seq::empty());
        },
    }
}

impl SearchStream {
    pub fn new() -> (result: Self)
        ensures
            result@ == (SearchStreamView { seen: Seq::empty(), snapshots: Seq::empty() }),
    {
        SearchStream { seen: json::fields(), snapshots: json::fields() }
    }

    fn is_seen(&self, key: &str, value: &Json) -> (result: bool)
        ensures
            result == was_seen(self@.seen, key@, value@, 0),
    {
        let mut i: usize = 0;
        while i < self.seen.len()
            invariant
                i <= self.seen.len(),
                was_seen(self@.seen, key@, value@, 0) == was_seen(
                    self@.seen,
                    key@,
                    value@,
                    i as int,
                ),
            decreases self.seen.len() - i,
        {
            assert(self@.seen[i as int] == self.seen@[i as int].deep_view());
            if text::same(&self.seen[i].0, key) && json::same(&self.seen[i].1, value) {
                return true;
            }
            i = i + 1;
        }
        false
    }

    fn take_fresh(&mut self, key: &str, records: &Vec<Json>) -> (fresh: Vec<Json>)
        ensures
            (final(self)@.seen, fresh.deep_view()) == fresh_of(
                old(self)@.seen,
                key@,
                records.deep_view(),
                0,
                Seq::empty(),
            ),
            final(self)@.snapshots == old(self)@.snapshots,
    {
        let ghost first = self@.seen;
        let mut fresh: Vec<Json> = Vec::new();
        let mut i: usize = 0;
        while i < records.len()
            invariant
                i <= records.len(),
                self@.snapshots == old(self)@.snapshots,
                fresh_of(first, key@, records.deep_view(), 0, Seq::empty()) == fresh_of(
                    self@.seen,
                    key@,
                    records.deep_view(),
                    i as int,
                    fresh.deep_view(),
                ),
            decreases records.len() - i,
        {
            assert(records.deep_view()[i as int] == records@[i as int]@);
            if !self.is_seen(key, &records[i]) {
                self.seen.push((key.to_owned(), records[i].dup()));
                fresh.push(records[i].dup());
            }
            i = i + 1;
        }
        fresh
    }

    /// Takes in a result, and shows what is new of it.
    pub fn emit(&mut self, search: Option<WebSearchResult>, out: &mut Vec<StreamEvent>)
        ensures
            final(self)@ == emitted(old(self)@, search.deep_view()).0,
            final(out).deep_view() == old(out).deep_view() + emitted(
                old(self)@,
                search.deep_view(),
            ).1,
    {
        let metadata = match search {
            Some(search) => match search.metadata {
                Json::Object(entries) => entries,
                _ => json::fields(),
            },
            None => json::fields(),
        };
        let ghost start = self@;
        let ghost all = metadata.deep_view();
        assert(all == metadata_entries(search.deep_view()));
        let mut shown = json::fields();
        let mut i: usize = 0;
        while i < metadata.len()
            invariant
                i <= metadata.len(),
                all == metadata.deep_view(),
                shown_of(start, all, 0, Seq::empty()) == shown_of(
                    self@,
                    all,
                    i as int,
                    shown.deep_view(),
                ),
            decreases metadata.len() - i,
        {
            assert(all[i as int] == metadata@[i as int].deep_view());
            let key = metadata[i].0.as_str();
            match &metadata[i].1 {
                Json::Array(records) => {
                    let fresh = self.take_fresh(key, records);
                    put_items(&mut shown, key, fresh);
                },
                value => {
                    let same = match json::find(&self.snapshots, key) {
                        Some(held) => json::same(held, value),
                        None => false,
                    };
                    if !same {
                        json::set(&mut self.snapshots, key, value.dup());
                        json::set(&mut shown, key, value.dup());
                    }
                },
            }
            i = i + 1;
        }
        push_search(result(shown), out);
    }
}

proof fn lemma_seen_push(seen: Entries, more: (Seq<char>, JsonView), key: Seq<char>, value: JsonView, i: int)
    requires
        0 <= i <= seen.len(),
    ensures
        was_seen(seen, key, value, i) ==> was_seen(seen.push(more), key, value, i),
        more == (key, value) ==> was_seen(seen.push(more), key, value, i),
    decreases seen.len() - i,
{
    if i < seen.len() {
        assert(seen.push(more)[i] == seen[i]);
        lemma_seen_push(seen, more, key, value, i + 1);
    } else {
        assert(seen.push(more)[i] == more);
        json::a_value_equals_itself(value);
    }
}

/// What was seen stays seen, and the records that came in are seen.
proof fn lemma_records_are_seen(
    seen: Entries,
    key: Seq<char>,
    records: Seq<JsonView>,
    i: int,
    fresh: Seq<JsonView>,
    other: Seq<char>,
    value: JsonView,
)
    requires
        i >= 0,
    ensures
        was_seen(seen, other, value, 0) ==> was_seen(
            fresh_of(seen, key, records, i, fresh).0,
            other,
            value,
            0,
        ),
        forall|k: int|
            i <= k < records.len() ==> was_seen(
                fresh_of(seen, key, records, i, fresh).0,
                key,
                #[trigger] records[k],
                0,
            ),
    decreases records.len() - i,
{
    if i < records.len() {
        let (more, next) = if was_seen(seen, key, records[i], 0) {
            (seen, fresh)
        } else {
            (seen.push((key, records[i])), fresh.push(records[i]))
        };
        lemma_seen_push(seen, (key, records[i]), other, value, 0);
        lemma_seen_push(seen, (key, records[i]), key, records[i], 0);
        lemma_records_are_seen(more, key, records, i + 1, next, other, value);
        lemma_records_are_seen(more, key, records, i + 1, next, key, records[i]);
    }
}

/// Whether a stream has shown what an entry says.
spec fn was_shown(state: SearchStreamView, key: Seq<char>, value: JsonView) -> bool {
    match value {
        JsonView::Array(records) => forall|k: int|
            0 <= k < records.len() ==> was_seen(state.seen, key, #[trigger] records[k], 0),
        _ => json::entry(state.snapshots, key) is Some && json::equal(
            json::entry(state.snapshots, key)->0,
            value,
        ),
    }
}

proof fn lemma_all_are_shown(state: SearchStreamView, metadata: Entries, i: int, shown: Entries)
    requires
        0 <= i,
        json::ordered(metadata),
        forall|k: int|
            0 <= k < i && k < metadata.len() ==> was_shown(
                state,
                (#[trigger] metadata[k]).0,
                metadata[k].1,
            ),
    ensures
        forall|k: int|
            0 <= k < metadata.len() ==> was_shown(
                shown_of(state, metadata, i, shown).0,
                (#[trigger] metadata[k]).0,
                metadata[k].1,
            ),
    decreases metadata.len() - i,
{
    if i < metadata.len() {
        let (key, value) = metadata[i];
        let (next, out) = match value {
            JsonView::Array(records) => {
                let (seen, fresh) = fresh_of(state.seen, key, records, 0, Seq::empty());
                (
                    SearchStreamView { seen, ..state },
                    json::put_some(shown, key, unless_empty(fresh)),
                )
            },
            _ => {
                let held = json::entry(state.snapshots, key);
                if held is Some && json::equal(held->0, value) {
                    (state, shown)
                } else {
                    (
                        SearchStreamView {
                            snapshots: json::put(state.snapshots, key, value),
                            ..state
                        },
                        json::put(shown, key, value),
                    )
                }
            },
        };
        assert forall|k: int| 0 <= k < i + 1 && k < metadata.len() implies was_shown(
            next,
            (#[trigger] metadata[k]).0,
            metadata[k].1,
        ) by {
            let (other, held) = metadata[k];
            if k < i {
                assert(was_shown(state, other, held));
                assert(text::less(metadata[k].0, metadata[i].0));
                text::less_is_total(other, key);
                json::put_then_entry(state.snapshots, key, value, other);
                if let JsonView::Array(records) = held {
                    assert forall|n: int| 0 <= n < records.len() implies was_seen(
                        next.seen,
                        other,
                        #[trigger] records[n],
                        0,
                    ) by {
                        if let JsonView::Array(new) = value {
                            lemma_records_are_seen(
                                state.seen,
                                key,
                                new,
                                0,
                                Seq::empty(),
                                other,
                                records[n],
                            );
                        }
                    }
                }
            } else {
                if let JsonView::Array(new) = value {
                    lemma_records_are_seen(state.seen, key, new, 0, Seq::empty(), key, value);
                } else {
                    json::put_then_entry(state.snapshots, key, value, key);
                    json::a_value_equals_itself(value);
                }
            }
        }
        lemma_all_are_shown(next, metadata, i + 1, out);
    }
}

proof fn lemma_nothing_is_fresh(
    seen: Entries,
    key: Seq<char>,
    records: Seq<JsonView>,
    i: int,
    fresh: Seq<JsonView>,
)
    requires
        i >= 0,
        forall|k: int| 0 <= k < records.len() ==> was_seen(seen, key, #[trigger] records[k], 0),
    ensures
        fresh_of(seen, key, records, i, fresh) == (seen, fresh),
    decreases records.len() - i,
{
    if i < records.len() {
        assert(was_seen(seen, key, records[i], 0));
        lemma_nothing_is_fresh(seen, key, records, i + 1, fresh);
    }
}

proof fn lemma_nothing_is_shown(state: SearchStreamView, metadata: Entries, i: int, shown: Entries)
    requires
        i >= 0,
        forall|k: int|
            0 <= k < metadata.len() ==> was_shown(
                state,
                (#[trigger] metadata[k]).0,
                metadata[k].1,
            ),
    ensures
        shown_of(state, metadata, i, shown) == (state, shown),
    decreases metadata.len() - i,
{
    if i < metadata.len() {
        let (key, value) = metadata[i];
        assert(was_shown(state, key, value));
        if let JsonView::Array(records) = value {
            lemma_nothing_is_fresh(state.seen, key, records, 0, Seq::empty());
        }
        lemma_nothing_is_shown(state, metadata, i + 1, shown);
    }
}

/// A stream that repeats what it said of its searches shows nothing of it again.
pub proof fn a_repeated_search_is_not_shown_again(
    state: SearchStreamView,
    search: Option<WebSearchResultView>,
)
    requires
        json::ordered(metadata_entries(search)),
    ensures
        ({
            let after = emitted(state, search).0;
            emitted(after, search) == (after, Seq::<StreamEventView>::empty())
        }),
{
    let metadata = metadata_entries(search);
    let after = emitted(state, search).0;
    lemma_all_are_shown(state, metadata, 0, Seq::empty());
    lemma_nothing_is_shown(after, metadata, 0, Seq::empty());
}

} // verus!
