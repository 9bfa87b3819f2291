//! What the events of a Messages stream tell of its frames.

use crate::codecs::anthropic::decode;
use crate::codecs::anthropic::stream::{self, AnthropicStreamDecoder, AnthropicStreamView};
use crate::codecs::stream as streams;
use crate::codecs::EventDecoder;
use crate::json::{self, Entries, JsonView};
use crate::protocol::{ContentBlockView, ProtocolFamily, StreamEventView};
use vstd::prelude::*;

verus! {

broadcast use {crate::views::group_views, crate::json::group_json};

/// The text that a delta of this kind brings under this key, and nothing of another.
pub open spec fn delta_part(kind: Seq<char>, key: Seq<char>) -> spec_fn(JsonView) -> Seq<char> {
    |root: JsonView|
        if json::str_at(root, "type"@) == Some("content_block_delta"@) && json::str_in(
            json::member2(root, "delta"@, "type"@),
        ) == Some(kind) {
            match json::str_in(json::member2(root, "delta"@, key)) {
                Some(text) => text,
                None => Seq::empty(),
            }
        } else {
            Seq::empty()
        }
}

/// An event that only reports: no content of the answer.
pub open spec fn reports(event: StreamEventView) -> bool {
    event is Inference || event is WebSearch
}

#[verifier::spinoff_prover]
#[verifier::rlimit(60)]
proof fn lemma_frame(state: AnthropicStreamView, frame: Seq<u8>)
    ensures
        streams::faithful(
            AnthropicStreamDecoder::frame_step(state, frame).1,
            frame,
            streams::text_part(),
            delta_part("text_delta"@, "text"@),
        ),
        streams::faithful(
            AnthropicStreamDecoder::frame_step(state, frame).1,
            frame,
            streams::reasoning_part(),
            delta_part("thinking_delta"@, "thinking"@),
        ),
{
    broadcast use {streams::lemma_gathered_push, streams::lemma_gathered_add};

    if let Some(root) = streams::root_in(frame) {
        lemma_root(state, root);
    }
}

#[verifier::spinoff_prover]
#[verifier::rlimit(60)]
proof fn lemma_root(state: AnthropicStreamView, root: JsonView)
    ensures
        ({
            let text = delta_part("text_delta"@, "text"@)(root);
            let thinking = delta_part("thinking_delta"@, "thinking"@)(root);
            match stream::with_root((state, Seq::empty()), root).1 {
                Ok(events) => streams::said(events) == text && streams::reasoned(events)
                    == thinking,
                Err(_) => text.len() == 0 && thinking.len() == 0,
            }
        }),
{
    broadcast use {streams::lemma_gathered_push, streams::lemma_gathered_add};

    lemma_names();
    let none = Seq::<StreamEventView>::empty();
    let at = stream::with_inference((state, none), root);
    streams::lemma_silent(at.1, streams::text_part());
    streams::lemma_silent(at.1, streams::reasoning_part());
    if json::str_at(root, "type"@) is Some {
        lemma_kind(at, root);
    }
}

/// One frame adds what it says, and nothing else.
#[verifier::spinoff_prover]
#[verifier::rlimit(100)]
proof fn lemma_kind(at: (AnthropicStreamView, Seq<StreamEventView>), root: JsonView)
    requires
        json::str_at(root, "type"@) is Some,
    ensures
        ({
            let kind = json::str_at(root, "type"@)->0;
            stream::with_kind(at, kind, root).1 matches Ok(events) ==> {
                &&& streams::said(events) =~= streams::said(at.1) + delta_part(
                    "text_delta"@,
                    "text"@,
                )(root)
                &&& streams::reasoned(events) =~= streams::reasoned(at.1) + delta_part(
                    "thinking_delta"@,
                    "thinking"@,
                )(root)
            }
        }),
{
    broadcast use {streams::lemma_gathered_push, streams::lemma_gathered_add};

    lemma_names();
}

/// The answer that a stream tells is the texts of its `text_delta` frames, and the
/// reasoning is those of its `thinking_delta` frames, each put together in order:
/// neither comes from a frame of another kind.
pub proof fn the_answer_and_the_reasoning_come_from_their_own_deltas(
    state: AnthropicStreamView,
    frames: Seq<Seq<u8>>,
)
    ensures
        ({
            let events = streams::after_frames::<AnthropicStreamDecoder>(
                state,
                Seq::empty(),
                frames,
                0,
            ).1;
            &&& streams::said(events) == streams::told(
                frames,
                0,
                delta_part("text_delta"@, "text"@),
            )
            &&& streams::reasoned(events) == streams::told(
                frames,
                0,
                delta_part("thinking_delta"@, "thinking"@),
            )
        }),
{
    let none = Seq::<StreamEventView>::empty();
    let text = delta_part("text_delta"@, "text"@);
    let thinking = delta_part("thinking_delta"@, "thinking"@);
    assert forall|state: AnthropicStreamView, frame: Seq<u8>|
        streams::faithful(
            (#[trigger] AnthropicStreamDecoder::frame_step(state, frame)).1,
            frame,
            streams::text_part(),
            text,
        ) by {
        lemma_frame(state, frame);
    }
    streams::lemma_told::<AnthropicStreamDecoder>(state, none, frames, 0, streams::text_part(), text);
    assert forall|state: AnthropicStreamView, frame: Seq<u8>|
        streams::faithful(
            (#[trigger] AnthropicStreamDecoder::frame_step(state, frame)).1,
            frame,
            streams::reasoning_part(),
            thinking,
        ) by {
        lemma_frame(state, frame);
    }
    streams::lemma_told::<AnthropicStreamDecoder>(
        state,
        none,
        frames,
        0,
        streams::reasoning_part(),
        thinking,
    );
    assert(streams::gathered(none, streams::text_part()) + streams::told(frames, 0, text)
        =~= streams::told(frames, 0, text));
    assert(streams::gathered(none, streams::reasoning_part()) + streams::told(frames, 0, thinking)
        =~= streams::told(frames, 0, thinking));
}

/// The events are one event of content, after reports only.
pub open spec fn only(events: Seq<StreamEventView>, event: StreamEventView) -> bool {
    &&& events.len() > 0
    &&& events.last() == event
    &&& forall|k: int| 0 <= k < events.len() - 1 ==> reports(#[trigger] events[k])
}

/// A frame that brings a delta of the answer, of the reasoning or of a signature gives
/// exactly one event of content: of that kind, in the block that the frame names, with
/// the text of the delta.
#[verifier::spinoff_prover]
#[verifier::rlimit(60)]
pub proof fn a_delta_gives_one_event_of_its_kind(state: AnthropicStreamView, root: JsonView, text: Seq<char>)
    requires
        json::str_at(root, "type"@) == Some("content_block_delta"@),
    ensures
        ({
            let kind = json::str_in(json::member2(root, "delta"@, "type"@));
            let block = json::count_in(json::member(root, "index"@));
            stream::with_root((state, Seq::empty()), root).1 matches Ok(events) && {
                &&& kind == Some("text_delta"@) && json::str_in(
                    json::member2(root, "delta"@, "text"@),
                ) == Some(text) ==> only(events, StreamEventView::TextDelta { block, text })
                &&& kind == Some("thinking_delta"@) && json::str_in(
                    json::member2(root, "delta"@, "thinking"@),
                ) == Some(text) ==> only(events, StreamEventView::ReasoningDelta { block, text })
                &&& kind == Some("signature_delta"@) && json::str_in(
                    json::member2(root, "delta"@, "signature"@),
                ) == Some(text) && state.native_blocks.len() == 0 ==> only(
                    events,
                    StreamEventView::ThoughtSignature { block, signature: text },
                )
            }
        }),
{
    lemma_names();
}

proof fn lemma_tool_found(tools: Seq<stream::ToolView>, tool: stream::ToolView, i: int)
    requires
        0 <= i <= tools.len(),
        forall|k: int| i <= k < tools.len() ==> (#[trigger] tools[k]).block != tool.block,
    ensures
        stream::tool_of(tools.push(tool), tool.block, i) == Some(tool),
    decreases tools.len() - i,
{
    if i < tools.len() {
        assert(tools.push(tool)[i] == tools[i]);
        lemma_tool_found(tools, tool, i + 1);
    }
}

/// A call is told with the name and the id that its block starts with: by the start
/// itself, and by every fragment of arguments that comes for that block after it.
#[verifier::spinoff_prover]
#[verifier::rlimit(60)]
pub proof fn a_call_keeps_its_name_and_id(
    state: AnthropicStreamView,
    start: JsonView,
    delta: JsonView,
    id: Seq<char>,
    name: Seq<char>,
    fragment: Seq<char>,
)
    requires
        json::str_at(start, "type"@) == Some("content_block_start"@),
        json::str_in(json::member2(start, "content_block"@, "type"@)) == Some("tool_use"@),
        json::str_in(json::member2(start, "content_block"@, "id"@)) == Some(id),
        json::str_in(json::member2(start, "content_block"@, "name"@)) == Some(name),
        json::str_at(delta, "type"@) == Some("content_block_delta"@),
        json::str_in(json::member2(delta, "delta"@, "type"@)) == Some("input_json_delta"@),
        json::str_in(json::member2(delta, "delta"@, "partial_json"@)) == Some(fragment),
        json::count_in(json::member(start, "index"@)) == json::count_in(
            json::member(delta, "index"@),
        ),
        forall|k: int|
            0 <= k < state.tools.len() ==> (#[trigger] state.tools[k]).block != json::count_in(
                json::member(start, "index"@),
            ),
    ensures
        ({
            let block = json::count_in(json::member(start, "index"@));
            let (begun, first) = stream::with_root((state, Seq::empty()), start);
            &&& first matches Ok(events) && events.last() == (StreamEventView::ToolCallDelta {
                block,
                id,
                provider_id: None,
                name,
                arguments_fragment: Seq::empty(),
            })
            &&& stream::with_root((begun, Seq::empty()), delta).1 matches Ok(events) && only(
                events,
                StreamEventView::ToolCallDelta {
                    block,
                    id,
                    provider_id: None,
                    name,
                    arguments_fragment: fragment,
                },
            )
        }),
{
    lemma_names();
    let block = json::count_in(json::member(start, "index"@));
    lemma_tool_found(state.tools, stream::ToolView { block, id, name }, 0);
}

/// A stream starts with the model and the id that the first message names.
#[verifier::spinoff_prover]
pub proof fn a_stream_starts_with_its_model(state: AnthropicStreamView, root: JsonView)
    requires
        json::str_at(root, "type"@) == Some("message_start"@),
    ensures
        stream::with_root((state, Seq::empty()), root).1 matches Ok(events)
            && events.last() matches StreamEventView::Start { model, response_id }
            && response_id == json::str_in(json::member2(root, "message"@, "id"@)) && (json::str_in(
            json::member2(root, "message"@, "model"@),
        ) is Some ==> Some(model) == json::str_in(json::member2(root, "message"@, "model"@))),
{
    lemma_names();
}

/// A stream ends with the reason that the message was stopped for.
#[verifier::spinoff_prover]
#[verifier::rlimit(60)]
pub proof fn a_stream_ends_with_its_reason(
    state: AnthropicStreamView,
    delta: JsonView,
    stop: JsonView,
    reason: Seq<char>,
)
    requires
        !state.done,
        json::str_at(delta, "type"@) == Some("message_delta"@),
        json::str_in(json::member2(delta, "delta"@, "stop_reason"@)) == Some(reason),
        json::str_at(stop, "type"@) == Some("message_stop"@),
    ensures
        ({
            let (stopped, _) = stream::with_root((state, Seq::empty()), delta);
            stream::with_root((stopped, Seq::empty()), stop).1 matches Ok(events)
                && events.last() matches StreamEventView::End { stop_reason, .. } && {
                &&& stop_reason is ToolUse <==> reason == "tool_use"@
                &&& stop_reason is MaxTokens <==> reason == "max_tokens"@
                &&& stop_reason is StopSequence <==> reason == "stop_sequence"@
                &&& stop_reason is Refusal <==> reason == "refusal"@
                &&& stop_reason is EndTurn <==> reason == "end_turn"@
            }
        }),
{
    lemma_names();
}

/// A block that the library has no word for is handed on whole when it ends: as it
/// started, where nothing was added to it.
#[verifier::spinoff_prover]
#[verifier::rlimit(40)]
pub proof fn a_native_block_is_handed_on(
    state: AnthropicStreamView,
    start: JsonView,
    stop: JsonView,
    fields: Entries,
    kind: Seq<char>,
)
    requires
        json::str_at(start, "type"@) == Some("content_block_start"@),
        json::member(start, "content_block"@) == Some(JsonView::Object(fields)),
        json::entry(fields, "type"@) == Some(JsonView::Str(kind)),
        kind != "text"@,
        kind != "thinking"@,
        kind != "redacted_thinking"@,
        kind != "tool_use"@,
        json::str_at(stop, "type"@) == Some("content_block_stop"@),
        json::count_in(json::member(start, "index"@)) == json::count_in(
            json::member(stop, "index"@),
        ),
        state.native_blocks.len() == 0,
    ensures
        ({
            let block = json::count_in(json::member(start, "index"@));
            let begun = stream::with_root((state, Seq::empty()), start).0;
            let (after, result) = stream::with_root((begun, Seq::empty()), stop);
            &&& after.native_blocks.len() == 0
            &&& result matches Ok(events) && events.contains(
                StreamEventView::ProviderContent {
                    block,
                    protocol: ProtocolFamily::AnthropicMessages,
                    value: JsonView::Object(fields),
                },
            ) && events.contains(StreamEventView::BlockEnd { block })
        }),
{
    lemma_names();
    let block = json::count_in(json::member(start, "index"@));
    let begun = stream::with_root((state, Seq::empty()), start).0;
    assert(begun.native_blocks =~= seq![
        stream::NativeView { block, value: fields, arguments: Seq::empty() },
    ]);
    assert(stream::native_place(begun.native_blocks, block, 0) == 0);
    let observed = stream::with_inference((begun, Seq::empty()), stop);
    assert(observed.0.native_blocks == begun.native_blocks);
    let one = StreamEventView::ProviderContent {
        block,
        protocol: ProtocolFamily::AnthropicMessages,
        value: JsonView::Object(fields),
    };
    let shown = observed.1.push(one);
    let closed = shown.push(StreamEventView::BlockEnd { block });
    if let Ok(events) = stream::with_root((begun, Seq::empty()), stop).1 {
        assert(closed[observed.1.len() as int] == one);
        assert(closed[observed.1.len() as int + 1] == StreamEventView::BlockEnd { block });
        assert(events[observed.1.len() as int] == one);
        assert(events[observed.1.len() as int + 1] == StreamEventView::BlockEnd { block });
    }
}

/// Thinking that the provider hid is handed on as it is.
#[verifier::spinoff_prover]
#[verifier::rlimit(40)]
pub proof fn hidden_thinking_is_handed_on(state: AnthropicStreamView, start: JsonView, data: Seq<char>)
    requires
        json::str_at(start, "type"@) == Some("content_block_start"@),
        json::str_in(json::member2(start, "content_block"@, "type"@)) == Some(
            "redacted_thinking"@,
        ),
        json::str_in(json::member2(start, "content_block"@, "data"@)) == Some(data),
        json::member2(start, "content_block"@, "citations"@) is None,
    ensures
        stream::with_root((state, Seq::empty()), start).1 matches Ok(events) && events.contains(
            StreamEventView::RedactedThinking {
                block: json::count_in(json::member(start, "index"@)),
                data,
            },
        ),
{
    lemma_names();
    let one = StreamEventView::RedactedThinking {
        block: json::count_in(json::member(start, "index"@)),
        data,
    };
    let observed = stream::with_inference((state, Seq::empty()), start);
    let searched = stream::with_search_start(stream::with_native_start(observed, start), start);
    let shown = stream::with_redacted(searched, start);
    let hidden = json::at(start, "content_block"@);
    assert(json::is_kind(hidden, "redacted_thinking"@));
    assert(decode::block_of(hidden) == Some(ContentBlockView::RedactedThinking { data }));
    assert(shown.1 == searched.1.push(one));
    assert(shown.1[searched.1.len() as int] == one);
    if let Ok(events) = stream::with_root((state, Seq::empty()), start).1 {
        assert(events[searched.1.len() as int] == one);
    }
}

/// A stream that breaks off before its reason to stop is an interruption, and one that
/// has told it ends as it would have.
pub proof fn a_broken_stream_is_told(state: AnthropicStreamView)
    ensures
        !state.done && state.stop is None ==> (AnthropicStreamDecoder::finish_step(
            state,
        ).1 matches Err(error) && error is StreamInterrupted),
        !state.done && state.stop is Some ==> (AnthropicStreamDecoder::finish_step(
            state,
        ).1 matches Ok(events) && events.len() == 1 && events[0] is End),
        state.done ==> (AnthropicStreamDecoder::finish_step(state).1 matches Ok(events)
            && events.len() == 0),
{
}

/// The names on the wire, told apart.
#[verifier::spinoff_prover]
proof fn lemma_names()
    ensures
        "id"@.len() == 2,
        "data"@.len() == 4,
        "name"@.len() == 4,
        "text"@.len() == 4,
        "type"@.len() == 4,
        "data"@[2] == 't',
        "name"@[2] == 'm',
        "text"@[2] == 'x',
        "type"@[2] == 'p',
        "delta"@.len() == 5,
        "error"@.len() == 5,
        "index"@.len() == 5,
        "input"@.len() == 5,
        "model"@.len() == 5,
        "usage"@.len() == 5,
        "delta"@[4] == 'a',
        "error"@[4] == 'r',
        "index"@[4] == 'x',
        "input"@[4] == 't',
        "model"@[4] == 'l',
        "usage"@[4] == 'e',
        "events"@.len() == 6,
        "content"@.len() == 7,
        "message"@.len() == 7,
        "refusal"@.len() == 7,
        "content"@[0] == 'c',
        "message"@[0] == 'm',
        "refusal"@[0] == 'r',
        "citation"@.len() == 8,
        "end_turn"@.len() == 8,
        "thinking"@.len() == 8,
        "tool_use"@.len() == 8,
        "citation"@[1] == 'i',
        "end_turn"@[1] == 'n',
        "thinking"@[1] == 'h',
        "tool_use"@[1] == 'o',
        "api_error"@.len() == 9,
        "signature"@.len() == 9,
        "api_error"@[0] == 'a',
        "signature"@[0] == 's',
        "max_tokens"@.len() == 10,
        "text_delta"@.len() == 10,
        "max_tokens"@[0] == 'm',
        "text_delta"@[0] == 't',
        "stop_reason"@.len() == 11,
        "input_tokens"@.len() == 12,
        "message_stop"@.len() == 12,
        "partial_json"@.len() == 12,
        "input_tokens"@[0] == 'i',
        "message_stop"@[0] == 'm',
        "partial_json"@[0] == 'p',
        "content_block"@.len() == 13,
        "message_delta"@.len() == 13,
        "message_start"@.len() == 13,
        "output_tokens"@.len() == 13,
        "stop_sequence"@.len() == 13,
        "content_block"@[8] == 'b',
        "message_delta"@[8] == 'd',
        "message_start"@[8] == 's',
        "output_tokens"@[8] == 'o',
        "stop_sequence"@[8] == 'u',
        "cache_creation"@.len() == 14,
        "connector_text"@.len() == 14,
        "thinking_delta"@.len() == 14,
        "cache_creation"@[1] == 'a',
        "connector_text"@[1] == 'o',
        "thinking_delta"@[1] == 'h',
        "citations_delta"@.len() == 15,
        "not_found_error"@.len() == 15,
        "server_tool_use"@.len() == 15,
        "signature_delta"@.len() == 15,
        "thinking_tokens"@.len() == 15,
        "citations_delta"@[4] == 't',
        "not_found_error"@[4] == 'f',
        "server_tool_use"@[4] == 'e',
        "signature_delta"@[4] == 'a',
        "thinking_tokens"@[4] == 'k',
        "input_json_delta"@.len() == 16,
        "overloaded_error"@.len() == 16,
        "permission_error"@.len() == 16,
        "rate_limit_error"@.len() == 16,
        "input_json_delta"@[0] == 'i',
        "overloaded_error"@[0] == 'o',
        "permission_error"@[0] == 'p',
        "rate_limit_error"@[0] == 'r',
        "redacted_thinking"@.len() == 17,
        "request_too_large"@.len() == 17,
        "redacted_thinking"@[2] == 'd',
        "request_too_large"@[2] == 'q',
        "content_block_stop"@.len() == 18,
        "content_block_delta"@.len() == 19,
        "content_block_start"@.len() == 19,
        "web_search_requests"@.len() == 19,
        "content_block_delta"@[14] == 'd',
        "content_block_start"@[14] == 's',
        "web_search_requests"@[14] == 'u',
        "authentication_error"@.len() == 20,
        "connector_text_delta"@.len() == 20,
        "file_search_requests"@.len() == 20,
        "authentication_error"@[0] == 'a',
        "connector_text_delta"@[0] == 'c',
        "file_search_requests"@[0] == 'f',
        "invalid_request_error"@.len() == 21,
        "output_tokens_details"@.len() == 21,
        "invalid_request_error"@[0] == 'i',
        "output_tokens_details"@[0] == 'o',
        "web_search_tool_result"@.len() == 22,
        "cache_read_input_tokens"@.len() == 23,
        "ephemeral_1h_input_tokens"@.len() == 25,
        "web_search_result_location"@.len() == 26,
        "cache_creation_input_tokens"@.len() == 27,
{
    reveal_strlit("api_error");
    reveal_strlit("authentication_error");
    reveal_strlit("cache_creation");
    reveal_strlit("cache_creation_input_tokens");
    reveal_strlit("cache_read_input_tokens");
    reveal_strlit("citation");
    reveal_strlit("citations_delta");
    reveal_strlit("connector_text");
    reveal_strlit("connector_text_delta");
    reveal_strlit("content");
    reveal_strlit("content_block");
    reveal_strlit("content_block_delta");
    reveal_strlit("content_block_start");
    reveal_strlit("content_block_stop");
    reveal_strlit("data");
    reveal_strlit("delta");
    reveal_strlit("end_turn");
    reveal_strlit("ephemeral_1h_input_tokens");
    reveal_strlit("error");
    reveal_strlit("events");
    reveal_strlit("file_search_requests");
    reveal_strlit("id");
    reveal_strlit("index");
    reveal_strlit("input");
    reveal_strlit("input_json_delta");
    reveal_strlit("input_tokens");
    reveal_strlit("invalid_request_error");
    reveal_strlit("max_tokens");
    reveal_strlit("message");
    reveal_strlit("message_delta");
    reveal_strlit("message_start");
    reveal_strlit("message_stop");
    reveal_strlit("model");
    reveal_strlit("name");
    reveal_strlit("not_found_error");
    reveal_strlit("output_tokens");
    reveal_strlit("output_tokens_details");
    reveal_strlit("overloaded_error");
    reveal_strlit("partial_json");
    reveal_strlit("permission_error");
    reveal_strlit("rate_limit_error");
    reveal_strlit("redacted_thinking");
    reveal_strlit("refusal");
    reveal_strlit("request_too_large");
    reveal_strlit("server_tool_use");
    reveal_strlit("signature");
    reveal_strlit("signature_delta");
    reveal_strlit("stop_reason");
    reveal_strlit("stop_sequence");
    reveal_strlit("text");
    reveal_strlit("text_delta");
    reveal_strlit("thinking");
    reveal_strlit("thinking_delta");
    reveal_strlit("thinking_tokens");
    reveal_strlit("tool_use");
    reveal_strlit("type");
    reveal_strlit("usage");
    reveal_strlit("web_search_requests");
    reveal_strlit("web_search_result_location");
    reveal_strlit("web_search_tool_result");
}

} // verus!
