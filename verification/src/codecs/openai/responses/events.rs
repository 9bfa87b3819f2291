//! What the events of a Responses stream tell of its frames.

use crate::codecs::file_search_decode;
use crate::codecs::openai::responses::decode;
use crate::codecs::openai::responses::stream::{self, ResponsesStreamDecoder, ResponsesStreamView};
use crate::codecs::stream as streams;
use crate::codecs::web_search_decode;
use crate::codecs::EventDecoder;
use crate::json::{self, JsonView};
use crate::protocol::{ProtocolFamily, StopReasonView, StreamEventView, WebSearchResultView};
use vstd::prelude::*;

verus! {

broadcast use {crate::views::group_views, crate::json::group_json};

/// The text that a frame of this kind brings, and nothing of another.
pub open spec fn delta_part(kind: Seq<char>) -> spec_fn(JsonView) -> Seq<char> {
    |root: JsonView|
        if json::str_at(root, "type"@) == Some(kind) {
            match json::str_at(root, "delta"@) {
                Some(text) => text,
                None => Seq::empty(),
            }
        } else {
            Seq::empty()
        }
}

/// The text of the reasoning that a frame brings: its own words, or a summary of them.
pub open spec fn reasoning_delta() -> spec_fn(JsonView) -> Seq<char> {
    |root: JsonView|
        delta_part("response.reasoning_text.delta"@)(root) + delta_part(
            "response.reasoning_summary_text.delta"@,
        )(root)
}

/// The text of an event that is part of the answer or of the reasoning.
spec fn spoken_part(part: spec_fn(StreamEventView) -> Seq<char>) -> bool {
    part == streams::text_part() || part == streams::reasoning_part()
}

proof fn lemma_files(
    shown: Seq<Seq<char>>,
    calls: Seq<JsonView>,
    i: int,
    events: Seq<StreamEventView>,
    part: spec_fn(StreamEventView) -> Seq<char>,
)
    requires
        spoken_part(part),
    ensures
        streams::gathered(
            file_search_decode::emitted_of(shown, calls, i, events).1,
            part,
        ) == streams::gathered(events, part),
    decreases calls.len() - i,
{
    broadcast use streams::lemma_gathered_push;

    if 0 <= i < calls.len() {
        if shown.contains(json::text_of(calls[i])) {
            lemma_files(shown, calls, i + 1, events, part);
        } else {
            let next = events.push(
                StreamEventView::FileSearch {
                    result: file_search_decode::result_of_calls(seq![calls[i]])->0,
                },
            );
            assert(streams::gathered(next, part) =~= streams::gathered(events, part));
            lemma_files(shown.push(json::text_of(calls[i])), calls, i + 1, next, part);
        }
    }
}

proof fn lemma_reasonings(
    at: stream::Step,
    items: Seq<JsonView>,
    i: int,
    part: spec_fn(StreamEventView) -> Seq<char>,
)
    requires
        spoken_part(part),
    ensures
        streams::gathered(stream::with_reasonings(at, items, i).1, part) == streams::gathered(
            at.1,
            part,
        ),
    decreases items.len() - i,
{
    broadcast use streams::lemma_gathered_push;

    if 0 <= i < items.len() {
        let next = stream::with_reasoning(at, i as u64, items[i]);
        assert(streams::gathered(next.1, part) =~= streams::gathered(at.1, part));
        lemma_reasonings(next, items, i + 1, part);
    }
}

proof fn lemma_search(
    at: stream::Step,
    found: Option<WebSearchResultView>,
    part: spec_fn(StreamEventView) -> Seq<char>,
)
    requires
        spoken_part(part),
    ensures
        streams::gathered(stream::with_search(at, found).1, part) == streams::gathered(at.1, part),
{
    let more = web_search_decode::emitted(at.0.search, found).1;
    streams::lemma_silent(more, part);
    streams::lemma_gathered_add(at.1, more, part);
    assert(streams::gathered(at.1, part) + streams::gathered(more, part) =~= streams::gathered(
        at.1,
        part,
    ));
}

proof fn lemma_completed(
    at: stream::Step,
    response: JsonView,
    part: spec_fn(StreamEventView) -> Seq<char>,
)
    requires
        spoken_part(part),
    ensures
        streams::gathered(stream::with_completed(at, response).1, part) == streams::gathered(
            at.1,
            part,
        ),
{
    broadcast use streams::lemma_gathered_push;

    let items = json::items_in(json::member(response, "output"@));
    lemma_reasonings(at, items, 0, part);
    let thought = stream::with_reasonings(at, items, 0);
    lemma_files(
        thought.0.file_search,
        file_search_decode::search_calls(response),
        0,
        thought.1,
        part,
    );
    let filed = stream::with_file_search(thought, response);
    let found = web_search_decode::result_of(
        web_search_decode::with_counters(
            web_search_decode::responses_metadata(response),
            json::member(response, "usage"@),
        ),
    );
    lemma_search(filed, found, part);
    let last = stream::with_completed(at, response).1;
    assert(streams::gathered(last, part) =~= streams::gathered(at.1, part));
}

proof fn lemma_item_done(
    at: stream::Step,
    root: JsonView,
    part: spec_fn(StreamEventView) -> Seq<char>,
)
    requires
        spoken_part(part),
    ensures
        streams::gathered(stream::with_item_done(at, root).1, part) == streams::gathered(
            at.1,
            part,
        ),
{
    broadcast use streams::lemma_gathered_push;

    let item = json::at(root, "item"@);
    let shown = stream::with_refusal(
        stream::with_reasoning(at, stream::index_of(root), item),
        decode::refuses(item),
    );
    assert(streams::gathered(shown.1, part) =~= streams::gathered(at.1, part));
    let alone = json::obj1("output"@, JsonView::Array(seq![item]));
    lemma_files(
        shown.0.file_search,
        file_search_decode::search_calls(alone),
        0,
        shown.1,
        part,
    );
    let searched = if json::is_kind(item, "file_search_call"@) {
        stream::with_file_search(shown, alone)
    } else {
        shown
    };
    lemma_search(searched, web_search_decode::single("web_search_calls"@, item), part);
}

proof fn lemma_annotation(
    at: stream::Step,
    root: JsonView,
    part: spec_fn(StreamEventView) -> Seq<char>,
)
    requires
        spoken_part(part),
    ensures
        streams::gathered(stream::with_annotation(at, root).1, part) == streams::gathered(
            at.1,
            part,
        ),
{
    let annotation = json::at(root, "annotation"@);
    lemma_search(
        at,
        web_search_decode::single(
            "annotations"@,
            web_search_decode::placed(
                stream::index_of(root),
                json::count_in(json::member(root, "content_index"@)),
                annotation,
            ),
        ),
        part,
    );
}

#[verifier::spinoff_prover]
#[verifier::rlimit(100)]
proof fn lemma_kind(at: stream::Step, root: JsonView)
    requires
        json::str_at(root, "type"@) is Some,
    ensures
        ({
            let kind = json::str_at(root, "type"@)->0;
            stream::with_kind(at, kind, root).1 matches Ok(events) ==> {
                &&& streams::said(events) =~= streams::said(at.1) + delta_part(
                    "response.output_text.delta"@,
                )(root)
                &&& streams::reasoned(events) =~= streams::reasoned(at.1) + reasoning_delta()(root)
            }
        }),
        ({
            let kind = json::str_at(root, "type"@)->0;
            stream::with_kind(at, kind, root).1 is Err ==> delta_part(
                "response.output_text.delta"@,
            )(root).len() == 0 && reasoning_delta()(root).len() == 0
        }),
{
    broadcast use streams::lemma_gathered_push;

    lemma_names();
    let response = json::at(root, "response"@);
    lemma_completed(at, response, streams::text_part());
    lemma_completed(at, response, streams::reasoning_part());
    lemma_item_done(at, root, streams::text_part());
    lemma_item_done(at, root, streams::reasoning_part());
    lemma_annotation(at, root, streams::text_part());
    lemma_annotation(at, root, streams::reasoning_part());
}

#[verifier::spinoff_prover]
#[verifier::rlimit(40)]
proof fn lemma_root(state: ResponsesStreamView, root: JsonView)
    ensures
        match stream::with_root((state, Seq::empty()), root).1 {
            Ok(events) => streams::said(events) =~= delta_part("response.output_text.delta"@)(root)
                && streams::reasoned(events) =~= reasoning_delta()(root),
            Err(_) => delta_part("response.output_text.delta"@)(root).len() == 0
                && reasoning_delta()(root).len() == 0,
        },
{
    broadcast use {streams::lemma_gathered_push, streams::lemma_gathered_add};

    let none = Seq::<StreamEventView>::empty();
    let at = stream::with_inference((state, none), root);
    streams::lemma_silent(at.1, streams::text_part());
    streams::lemma_silent(at.1, streams::reasoning_part());
    if json::str_at(root, "type"@) is Some {
        lemma_kind(at, root);
    }
}

proof fn lemma_ended(state: ResponsesStreamView)
    ensures
        ({
            let events = stream::ended((state, Seq::empty())).1;
            streams::said(events).len() == 0 && streams::reasoned(events).len() == 0
        }),
{
    let events = stream::ended((state, Seq::empty())).1;
    streams::lemma_silent(events, streams::text_part());
    streams::lemma_silent(events, streams::reasoning_part());
}

proof fn lemma_frame(state: ResponsesStreamView, frame: Seq<u8>)
    ensures
        ({
            let result = ResponsesStreamDecoder::frame_step(state, frame).1;
            &&& streams::faithful(
                result,
                frame,
                streams::text_part(),
                delta_part("response.output_text.delta"@),
            )
            &&& streams::faithful(result, frame, streams::reasoning_part(), reasoning_delta())
        }),
{
    lemma_ended(state);
    if let Some(root) = streams::root_in(frame) {
        lemma_root(state, root);
    }
}

proof fn lemma_stream(
    state: ResponsesStreamView,
    frames: Seq<Seq<u8>>,
    event_part: spec_fn(StreamEventView) -> Seq<char>,
    part: spec_fn(JsonView) -> Seq<char>,
)
    requires
        (event_part == streams::text_part() && part == delta_part("response.output_text.delta"@))
            || (event_part == streams::reasoning_part() && part == reasoning_delta()),
    ensures
        streams::gathered(
            streams::after_frames::<ResponsesStreamDecoder>(state, Seq::empty(), frames, 0).1,
            event_part,
        ) == streams::told(frames, 0, part),
{
    let none = Seq::<StreamEventView>::empty();
    assert forall|state: ResponsesStreamView, frame: Seq<u8>|
        streams::faithful(
            (#[trigger] ResponsesStreamDecoder::frame_step(state, frame)).1,
            frame,
            event_part,
            part,
        ) by {
        lemma_frame(state, frame);
    }
    streams::lemma_told::<ResponsesStreamDecoder>(state, none, frames, 0, event_part, part);
    assert(streams::gathered(none, event_part) + streams::told(frames, 0, part) =~= streams::told(
        frames,
        0,
        part,
    ));
}

/// The answer that a stream tells is the deltas of its output text, and the reasoning is
/// those of its reasoning or of the summary of it, each put together in order.
pub proof fn a_stream_tells_what_its_deltas_say(state: ResponsesStreamView, frames: Seq<Seq<u8>>)
    ensures
        ({
            let events = streams::after_frames::<ResponsesStreamDecoder>(
                state,
                Seq::empty(),
                frames,
                0,
            ).1;
            &&& streams::said(events) == streams::told(
                frames,
                0,
                delta_part("response.output_text.delta"@),
            )
            &&& streams::reasoned(events) == streams::told(frames, 0, reasoning_delta())
        }),
{
    lemma_stream(state, frames, streams::text_part(), delta_part("response.output_text.delta"@));
    lemma_stream(state, frames, streams::reasoning_part(), reasoning_delta());
}

proof fn lemma_call_found(calls: Seq<stream::CallView>, call: stream::CallView, i: int)
    requires
        0 <= i <= calls.len(),
        forall|k: int| i <= k < calls.len() ==> (#[trigger] calls[k]).block != call.block,
    ensures
        stream::call_of(calls.push(call), call.block, i) == Some(call),
    decreases calls.len() - i,
{
    if i < calls.len() {
        assert(calls.push(call)[i] == calls[i]);
        lemma_call_found(calls, call, i + 1);
    }
}

/// A call is told with the name and the id that its item is added with: by that frame,
/// and by every fragment of arguments that comes for that item after it.
#[verifier::spinoff_prover]
#[verifier::rlimit(60)]
pub proof fn a_call_keeps_its_name_and_id(
    state: ResponsesStreamView,
    added: JsonView,
    delta: JsonView,
    id: Seq<char>,
    name: Seq<char>,
    fragment: Seq<char>,
)
    requires
        json::str_at(added, "type"@) == Some("response.output_item.added"@),
        json::str_in(json::member2(added, "item"@, "type"@)) == Some("function_call"@),
        json::str_in(json::member2(added, "item"@, "call_id"@)) == Some(id),
        json::str_in(json::member2(added, "item"@, "name"@)) == Some(name),
        json::str_at(delta, "type"@) == Some("response.function_call_arguments.delta"@),
        json::str_at(delta, "delta"@) == Some(fragment),
        json::count_in(json::member(added, "output_index"@)) == json::count_in(
            json::member(delta, "output_index"@),
        ),
        forall|k: int|
            0 <= k < state.calls.len() ==> (#[trigger] state.calls[k]).block != json::count_in(
                json::member(added, "output_index"@),
            ),
    ensures
        ({
            let block = json::count_in(json::member(added, "output_index"@));
            let (begun, first) = stream::with_root((state, Seq::empty()), added);
            &&& begun.saw_tool_call
            &&& first matches Ok(events) && events.last() == (StreamEventView::ToolCallDelta {
                block,
                id,
                provider_id: None,
                name,
                arguments_fragment: Seq::empty(),
            })
            &&& stream::with_root((begun, Seq::empty()), delta).1 matches Ok(events)
                && events.last() == (StreamEventView::ToolCallDelta {
                block,
                id,
                provider_id: None,
                name,
                arguments_fragment: fragment,
            })
        }),
{
    lemma_names();
    let block = json::count_in(json::member(added, "output_index"@));
    lemma_call_found(state.calls, stream::CallView { block, id, name }, 0);
}

/// A stream starts with the model and the id that the response is created with.
#[verifier::spinoff_prover]
pub proof fn a_stream_starts_with_its_model(state: ResponsesStreamView, root: JsonView, model: Seq<char>)
    requires
        !state.started,
        json::str_at(root, "type"@) == Some("response.created"@),
        json::str_in(json::member2(root, "response"@, "model"@)) == Some(model),
    ensures
        stream::with_root((state, Seq::empty()), root).1 matches Ok(events) && events.last() == (
        StreamEventView::Start {
            model,
            response_id: json::str_in(json::member2(root, "response"@, "id"@)),
        }),
{
    lemma_names();
}

/// A stream that called a tool and was not cut short stops for it; one that was cut short
/// stops for the reason that it gives.
#[verifier::spinoff_prover]
pub proof fn a_stream_ends_with_its_reason(state: ResponsesStreamView, response: JsonView)
    requires
        !state.done,
        state.stop == Some(decode::stop_of(response)),
    ensures
        stream::ended((state, Seq::empty())).1.last() matches StreamEventView::End {
            stop_reason,
            ..
        } && {
            let short = json::str_at(response, "status"@) == Some("incomplete"@);
            let reason = json::str_in(
                json::member2(response, "incomplete_details"@, "reason"@),
            );
            &&& stop_reason is ToolUse <==> !short && state.saw_tool_call
            &&& stop_reason is MaxTokens <==> short && reason == Some("max_output_tokens"@)
            &&& !short && !state.saw_tool_call ==> (stop_reason is Refusal <==> state.saw_refusal)
            &&& !short && !state.saw_tool_call && !state.saw_refusal ==> stop_reason is EndTurn
        },
{
    lemma_names();
}

proof fn lemma_goes_on(at: stream::Step, items: Seq<JsonView>, i: int)
    requires
        0 <= i,
    ensures
        stream::with_reasonings(at, items, i).0.done == at.0.done,
    decreases items.len() - i,
{
    if i < items.len() {
        lemma_goes_on(stream::with_reasoning(at, i as u64, items[i]), items, i + 1);
    }
}

/// A response that is complete, or that was cut short, ends the stream; one that failed
/// is the error that it states, and no stream goes on behind it.
#[verifier::spinoff_prover]
#[verifier::rlimit(40)]
pub proof fn a_finished_response_ends_the_stream(state: ResponsesStreamView, root: JsonView)
    requires
        !state.done,
    ensures
        ({
            let kind = json::str_at(root, "type"@);
            let (after, result) = stream::with_root((state, Seq::empty()), root);
            &&& kind == Some("response.completed"@) || kind == Some("response.incomplete"@) ==> {
                &&& after.done
                &&& after.stop == Some(decode::stop_of(json::at(root, "response"@)))
                &&& result matches Ok(events) && events.len() > 0 && events.last() is End
            }
            &&& kind == Some("response.failed"@) || kind == Some("error"@) ==> result is Err
            &&& kind == Some("response.output_text.delta"@) ==> !after.done && result is Ok
        }),
{
    lemma_names();
    let observed = stream::with_inference((state, Seq::empty()), root);
    let items = json::items_in(json::member(json::at(root, "response"@), "output"@));
    lemma_goes_on(observed, items, 0);
}

/// A refusal is noted wherever the stream tells it, and the stream then ends with it
/// unless it ends with something else of note.
#[verifier::spinoff_prover]
#[verifier::rlimit(40)]
pub proof fn a_refusal_is_noted(state: ResponsesStreamView, root: JsonView)
    ensures
        ({
            let kind = json::str_at(root, "type"@);
            let (after, _) = stream::with_root((state, Seq::empty()), root);
            let part = json::at(root, "part"@);
            &&& kind == Some("response.refusal.delta"@) || kind == Some("response.refusal.done"@)
                ==> after.saw_refusal
            &&& (kind == Some("response.content_part.added"@) || kind == Some(
                "response.content_part.done"@,
            )) && decode::refuses(part) ==> after.saw_refusal
            &&& kind == Some("response.output_text.delta"@) ==> after.saw_refusal
                == state.saw_refusal
        }),
        state.saw_refusal && !state.saw_tool_call && state.stop is None ==> stream::ending(state)
            == StopReasonView::Refusal,
        state.saw_tool_call && state.stop is None ==> stream::ending(state)
            == StopReasonView::ToolUse,
        state.stop matches Some(stop) ==> (stop != StopReasonView::EndTurn ==> stream::ending(state)
            == stop),
        state.stop is None && !state.saw_refusal && !state.saw_tool_call ==> stream::ending(state)
            == StopReasonView::EndTurn,
{
    lemma_names();
}

/// A reasoning item that is done is handed on whole, once, under its place.
#[verifier::spinoff_prover]
#[verifier::rlimit(40)]
pub proof fn a_reasoning_item_is_handed_on(state: ResponsesStreamView, root: JsonView)
    requires
        json::str_at(root, "type"@) == Some("response.output_item.done"@),
        json::is_kind(json::at(root, "item"@), "reasoning"@),
        !state.reasoning_items.contains(json::count_in(json::member(root, "output_index"@))),
    ensures
        ({
            let block = json::count_in(json::member(root, "output_index"@));
            let (after, result) = stream::with_root((state, Seq::empty()), root);
            &&& after.reasoning_items.contains(block)
            &&& result matches Ok(events) && events.len() > 0 && events.last() == (
            StreamEventView::ProviderContent {
                block,
                protocol: ProtocolFamily::OpenAiResponses,
                value: json::at(root, "item"@),
            })
        }),
{
    lemma_names();
    let block = json::count_in(json::member(root, "output_index"@));
    assert(state.reasoning_items.push(block).last() == block);
}

/// The names on the wire, told apart.
#[verifier::spinoff_prover]
proof fn lemma_names()
    ensures
        "id"@.len() == 2,
        "{}"@.len() == 2,
        "id"@[0] == 'i',
        "{}"@[0] == '{',
        "item"@.len() == 4,
        "name"@.len() == 4,
        "part"@.len() == 4,
        "text"@.len() == 4,
        "type"@.len() == 4,
        "item"@[2] == 'e',
        "name"@[2] == 'm',
        "part"@[2] == 'r',
        "text"@[2] == 'x',
        "type"@[2] == 'p',
        "count"@.len() == 5,
        "delta"@.len() == 5,
        "error"@.len() == 5,
        "model"@.len() == 5,
        "usage"@.len() == 5,
        "count"@[0] == 'c',
        "delta"@[0] == 'd',
        "error"@[0] == 'e',
        "model"@[0] == 'm',
        "usage"@[0] == 'u',
        "failed"@.len() == 6,
        "output"@.len() == 6,
        "reason"@.len() == 6,
        "status"@.len() == 6,
        "failed"@[0] == 'f',
        "output"@[0] == 'o',
        "reason"@[0] == 'r',
        "status"@[0] == 's',
        "call_id"@.len() == 7,
        "content"@.len() == 7,
        "message"@.len() == 7,
        "refusal"@.len() == 7,
        "summary"@.len() == 7,
        "x_tools"@.len() == 7,
        "call_id"@[2] == 'l',
        "content"@[2] == 'n',
        "message"@[2] == 's',
        "refusal"@[2] == 'f',
        "summary"@[2] == 'm',
        "x_tools"@[2] == 't',
        "response"@.len() == 8,
        "arguments"@.len() == 9,
        "reasoning"@.len() == 9,
        "arguments"@[0] == 'a',
        "reasoning"@[0] == 'r',
        "annotation"@.len() == 10,
        "incomplete"@.len() == 10,
        "web_search"@.len() == 10,
        "annotation"@[0] == 'a',
        "incomplete"@[0] == 'i',
        "web_search"@[0] == 'w',
        "annotations"@.len() == 11,
        "file_search"@.len() == 11,
        "output_text"@.len() == 11,
        "annotations"@[0] == 'a',
        "file_search"@[0] == 'f',
        "output_text"@[0] == 'o',
        "input_tokens"@.len() == 12,
        "output_index"@.len() == 12,
        "url_citation"@.len() == 12,
        "input_tokens"@[0] == 'i',
        "output_index"@[0] == 'o',
        "url_citation"@[0] == 'u',
        "cached_tokens"@.len() == 13,
        "content_index"@.len() == 13,
        "function_call"@.len() == 13,
        "output_tokens"@.len() == 13,
        "cached_tokens"@[3] == 'h',
        "content_index"@[3] == 't',
        "function_call"@[3] == 'c',
        "output_tokens"@[3] == 'p',
        "content_filter"@.len() == 14,
        "response.failed"@.len() == 15,
        "web_search_call"@.len() == 15,
        "response.failed"@[0] == 'r',
        "web_search_call"@[0] == 'w',
        "file_search_call"@.len() == 16,
        "reasoning_tokens"@.len() == 16,
        "response.created"@.len() == 16,
        "web_search_calls"@.len() == 16,
        "file_search_call"@[2] == 'l',
        "reasoning_tokens"@[2] == 'a',
        "response.created"@[2] == 's',
        "web_search_calls"@[2] == 'b',
        "max_output_tokens"@.len() == 17,
        "cache_write_tokens"@.len() == 18,
        "incomplete_details"@.len() == 18,
        "response.completed"@.len() == 18,
        "cache_write_tokens"@[0] == 'c',
        "incomplete_details"@[0] == 'i',
        "response.completed"@[0] == 'r',
        "response.incomplete"@.len() == 19,
        "input_tokens_details"@.len() == 20,
        "output_tokens_details"@.len() == 21,
        "response.refusal.done"@.len() == 21,
        "output_tokens_details"@[0] == 'o',
        "response.refusal.done"@[0] == 'r',
        "response.refusal.delta"@.len() == 22,
        "response.output_item.done"@.len() == 25,
        "response.content_part.done"@.len() == 26,
        "response.output_item.added"@.len() == 26,
        "response.output_text.delta"@.len() == 26,
        "response.content_part.done"@[16] == '_',
        "response.output_item.added"@[16] == 'i',
        "response.output_text.delta"@[16] == 't',
        "response.content_part.added"@.len() == 27,
        "response.reasoning_text.delta"@.len() == 29,
        "response.output_text.annotation.added"@.len() == 37,
        "response.reasoning_summary_text.delta"@.len() == 37,
        "response.output_text.annotation.added"@[9] == 'o',
        "response.reasoning_summary_text.delta"@[9] == 'r',
        "response.function_call_arguments.delta"@.len() == 38,
{
    reveal_strlit("annotation");
    reveal_strlit("annotations");
    reveal_strlit("arguments");
    reveal_strlit("cache_write_tokens");
    reveal_strlit("cached_tokens");
    reveal_strlit("call_id");
    reveal_strlit("content");
    reveal_strlit("content_filter");
    reveal_strlit("content_index");
    reveal_strlit("count");
    reveal_strlit("delta");
    reveal_strlit("error");
    reveal_strlit("failed");
    reveal_strlit("file_search");
    reveal_strlit("file_search_call");
    reveal_strlit("function_call");
    reveal_strlit("id");
    reveal_strlit("incomplete");
    reveal_strlit("incomplete_details");
    reveal_strlit("input_tokens");
    reveal_strlit("input_tokens_details");
    reveal_strlit("item");
    reveal_strlit("max_output_tokens");
    reveal_strlit("message");
    reveal_strlit("model");
    reveal_strlit("name");
    reveal_strlit("output");
    reveal_strlit("output_index");
    reveal_strlit("output_text");
    reveal_strlit("output_tokens");
    reveal_strlit("output_tokens_details");
    reveal_strlit("part");
    reveal_strlit("reason");
    reveal_strlit("reasoning");
    reveal_strlit("reasoning_tokens");
    reveal_strlit("refusal");
    reveal_strlit("response");
    reveal_strlit("response.completed");
    reveal_strlit("response.content_part.added");
    reveal_strlit("response.content_part.done");
    reveal_strlit("response.created");
    reveal_strlit("response.failed");
    reveal_strlit("response.function_call_arguments.delta");
    reveal_strlit("response.incomplete");
    reveal_strlit("response.output_item.added");
    reveal_strlit("response.output_item.done");
    reveal_strlit("response.output_text.annotation.added");
    reveal_strlit("response.output_text.delta");
    reveal_strlit("response.reasoning_summary_text.delta");
    reveal_strlit("response.reasoning_text.delta");
    reveal_strlit("response.refusal.delta");
    reveal_strlit("response.refusal.done");
    reveal_strlit("status");
    reveal_strlit("summary");
    reveal_strlit("text");
    reveal_strlit("type");
    reveal_strlit("url_citation");
    reveal_strlit("usage");
    reveal_strlit("web_search");
    reveal_strlit("web_search_call");
    reveal_strlit("web_search_calls");
    reveal_strlit("x_tools");
    reveal_strlit("{}");
}

} // verus!
