//! What the events of a Chat stream tell of its frames.

use crate::codecs::openai::chat::stream::{self, ChatStreamView, OpenAiStreamDecoder};
use crate::codecs::stream as streams;
use crate::codecs::EventDecoder;
use crate::json::{self, JsonView};
use crate::protocol::StreamEventView;
use vstd::prelude::*;

verus! {

broadcast use {crate::views::group_views, crate::json::group_json};

/// The delta of the first choice in a frame.
pub open spec fn delta_in(root: JsonView) -> JsonView {
    let choices = json::items_in(json::member(root, "choices"@));
    if choices.len() > 0 {
        json::at(choices[0], "delta"@)
    } else {
        JsonView::Null
    }
}

/// The text that the delta of a frame brings under a key.
pub open spec fn delta_part(key: Seq<char>) -> spec_fn(JsonView) -> Seq<char> {
    |root: JsonView|
        match json::str_at(delta_in(root), key) {
            Some(text) => text,
            None => Seq::empty(),
        }
}

/// The fragments of arguments that the calls from the `i`th on bring, put together.
pub open spec fn fragments(calls: Seq<JsonView>, i: int) -> Seq<char>
    decreases calls.len() - i,
{
    if i < 0 || i >= calls.len() {
        Seq::empty()
    } else {
        json::text_or_empty(json::at(calls[i], "function"@), "arguments"@) + fragments(calls, i + 1)
    }
}

/// The fragments of arguments that a frame brings.
pub open spec fn calls_part() -> spec_fn(JsonView) -> Seq<char> {
    |root: JsonView|
        fragments(json::items_in(json::member(delta_in(root), "tool_calls"@)), 0)
}

/// The fragment of arguments in an event, of whatever call.
pub open spec fn fragment_part() -> spec_fn(StreamEventView) -> Seq<char> {
    |event: StreamEventView|
        match event {
            StreamEventView::ToolCallDelta { arguments_fragment, .. } => arguments_fragment,
            _ => Seq::empty(),
        }
}

proof fn lemma_fragments(at: stream::Step, calls: Seq<JsonView>, i: int)
    requires
        0 <= i,
    ensures
        ({
            let after = stream::with_fragments(at, calls, i).1;
            &&& streams::said(after) == streams::said(at.1)
            &&& streams::reasoned(after) == streams::reasoned(at.1)
            &&& streams::gathered(after, fragment_part()) == streams::gathered(
                at.1,
                fragment_part(),
            ) + fragments(calls, i)
        }),
    decreases calls.len() - i,
{
    broadcast use streams::lemma_gathered_push;

    let before = streams::gathered(at.1, fragment_part());
    if i < calls.len() {
        let next = stream::with_fragment(at, calls[i]);
        let piece = json::text_or_empty(json::at(calls[i], "function"@), "arguments"@);
        lemma_fragments(next, calls, i + 1);
        assert(streams::said(next.1) =~= streams::said(at.1));
        assert(streams::reasoned(next.1) =~= streams::reasoned(at.1));
        assert((before + piece) + fragments(calls, i + 1) =~= before + (piece + fragments(
            calls,
            i + 1,
        )));
    } else {
        assert(before + fragments(calls, i) =~= before);
    }
}

#[verifier::spinoff_prover]
#[verifier::rlimit(60)]
proof fn lemma_root(state: ChatStreamView, root: JsonView)
    ensures
        ({
            let events = stream::with_root((state, Seq::empty()), root).1;
            &&& streams::said(events) =~= delta_part("content"@)(root)
            &&& streams::reasoned(events) =~= delta_part("reasoning_content"@)(root)
            &&& streams::gathered(events, fragment_part()) =~= calls_part()(root)
        }),
{
    broadcast use {streams::lemma_gathered_push, streams::lemma_gathered_add};

    lemma_names();
    let none = Seq::<StreamEventView>::empty();
    let at = stream::with_inference((state, none), root);
    streams::lemma_silent(at.1, streams::text_part());
    streams::lemma_silent(at.1, streams::reasoning_part());
    streams::lemma_silent(at.1, fragment_part());
    let begun = stream::with_usage(stream::with_start(at, root), root);
    let delta = delta_in(root);
    let told = stream::with_text(stream::with_reasoning(begun, delta), delta);
    lemma_fragments(told, json::items_in(json::member(delta, "tool_calls"@)), 0);
}

proof fn lemma_ended(state: ChatStreamView)
    ensures
        ({
            let events = stream::ended((state, Seq::empty())).1;
            &&& streams::said(events).len() == 0
            &&& streams::reasoned(events).len() == 0
            &&& streams::gathered(events, fragment_part()).len() == 0
        }),
{
    let events = stream::ended((state, Seq::empty())).1;
    streams::lemma_silent(events, streams::text_part());
    streams::lemma_silent(events, streams::reasoning_part());
    streams::lemma_silent(events, fragment_part());
}

proof fn lemma_frame(state: ChatStreamView, frame: Seq<u8>)
    ensures
        ({
            let result = OpenAiStreamDecoder::frame_step(state, frame).1;
            &&& streams::faithful(result, frame, streams::text_part(), delta_part("content"@))
            &&& streams::faithful(
                result,
                frame,
                streams::reasoning_part(),
                delta_part("reasoning_content"@),
            )
            &&& streams::faithful(result, frame, fragment_part(), calls_part())
        }),
{
    let none = Seq::<StreamEventView>::empty();
    lemma_ended(state);
    if let Some(root) = streams::root_in(frame) {
        lemma_root(state, root);
    }
}

/// The answer that a stream tells is what its deltas say under `content`, the reasoning
/// is what they say under `reasoning_content`, and the arguments are the fragments of
/// their calls, each put together in order.
pub proof fn a_stream_tells_what_its_deltas_say(state: ChatStreamView, frames: Seq<Seq<u8>>)
    ensures
        ({
            let events = streams::after_frames::<OpenAiStreamDecoder>(
                state,
                Seq::empty(),
                frames,
                0,
            ).1;
            &&& streams::said(events) == streams::told(frames, 0, delta_part("content"@))
            &&& streams::reasoned(events) == streams::told(
                frames,
                0,
                delta_part("reasoning_content"@),
            )
            &&& streams::gathered(events, fragment_part()) == streams::told(frames, 0, calls_part())
        }),
{
    lemma_stream(state, frames, streams::text_part(), delta_part("content"@));
    lemma_stream(state, frames, streams::reasoning_part(), delta_part("reasoning_content"@));
    lemma_stream(state, frames, fragment_part(), calls_part());
}

proof fn lemma_stream(
    state: ChatStreamView,
    frames: Seq<Seq<u8>>,
    event_part: spec_fn(StreamEventView) -> Seq<char>,
    part: spec_fn(JsonView) -> Seq<char>,
)
    requires
        (event_part == streams::text_part() && part == delta_part("content"@)) || (event_part
            == streams::reasoning_part() && part == delta_part("reasoning_content"@)) || (event_part
            == fragment_part() && part == calls_part()),
    ensures
        streams::gathered(
            streams::after_frames::<OpenAiStreamDecoder>(state, Seq::empty(), frames, 0).1,
            event_part,
        ) == streams::told(frames, 0, part),
{
    let none = Seq::<StreamEventView>::empty();
    assert forall|state: ChatStreamView, frame: Seq<u8>|
        streams::faithful(
            (#[trigger] OpenAiStreamDecoder::frame_step(state, frame)).1,
            frame,
            event_part,
            part,
        ) by {
        lemma_frame(state, frame);
    }
    streams::lemma_told::<OpenAiStreamDecoder>(state, none, frames, 0, event_part, part);
    assert(streams::gathered(none, event_part) + streams::told(frames, 0, part) =~= streams::told(
        frames,
        0,
        part,
    ));
}

/// A fragment of a call is told under the id and the name that the first one brought,
/// and in the same block, whatever came in between.
pub open spec fn known(state: ChatStreamView, index: u64, block: u64, id: Seq<char>, name: Seq<char>) -> bool {
    exists|k: int|
        0 <= k < state.tools.len() && (forall|j: int|
            0 <= j < k ==> (#[trigger] state.tools[j]).wire_index != index)
            && #[trigger] state.tools[k] == (stream::ToolView { wire_index: index, block, id, name })
}

proof fn lemma_slot(tools: Seq<stream::ToolView>, index: u64, i: int)
    requires
        0 <= i <= tools.len(),
    ensures
        ({
            let slot = stream::slot_of(tools, index, i);
            &&& i <= slot <= tools.len()
            &&& slot < tools.len() ==> tools[slot].wire_index == index
            &&& forall|j: int| i <= j < slot ==> (#[trigger] tools[j]).wire_index != index
        }),
    decreases tools.len() - i,
{
    if i < tools.len() && tools[i].wire_index != index {
        lemma_slot(tools, index, i + 1);
    }
}

/// The first fragment of a call fixes its block, its id and its name, and the event for
/// it tells them; a later one of the same call is told under the same, and one of
/// another call changes none of them.
#[verifier::spinoff_prover]
#[verifier::rlimit(60)]
pub proof fn a_call_keeps_its_name_and_id(
    at: stream::Step,
    call: JsonView,
    index: u64,
    block: u64,
    id: Seq<char>,
    name: Seq<char>,
)
    ensures
        ({
            let (after, events) = stream::with_fragment(at, call);
            let came = json::count_in(json::member(call, "index"@));
            let piece = json::text_or_empty(json::at(call, "function"@), "arguments"@);
            let event = StreamEventView::ToolCallDelta {
                block,
                id,
                provider_id: None,
                name,
                arguments_fragment: piece,
            };
            &&& events.len() == at.1.len() + 1
            &&& known(at.0, index, block, id, name) && id.len() > 0 && name.len() > 0 ==> known(
                after,
                index,
                block,
                id,
                name,
            )
            &&& known(at.0, came, block, id, name) && id.len() > 0 && name.len() > 0
                ==> events.last() == event
            &&& (forall|k: int|
                0 <= k < at.0.tools.len() ==> (#[trigger] at.0.tools[k]).wire_index != came)
                && json::str_at(call, "id"@) == Some(id) && json::str_in(
                json::member2(call, "function"@, "name"@),
            ) == Some(name) && block == at.0.next_block ==> events.last() == event && known(
                after,
                came,
                block,
                id,
                name,
            )
        }),
{
    lemma_names();
    let (after, events) = stream::with_fragment(at, call);
    let came = json::count_in(json::member(call, "index"@));
    let slot = stream::slot_of(at.0.tools, came, 0);
    lemma_slot(at.0.tools, came, 0);
    if known(at.0, index, block, id, name) && id.len() > 0 && name.len() > 0 {
        let k = choose|k: int|
            0 <= k < at.0.tools.len() && (forall|j: int|
                0 <= j < k ==> (#[trigger] at.0.tools[j]).wire_index != index)
                && #[trigger] at.0.tools[k] == (stream::ToolView {
                wire_index: index,
                block,
                id,
                name,
            });
        assert forall|j: int| 0 <= j < k implies (#[trigger] after.tools[j]).wire_index != index by {
            assert(at.0.tools[j].wire_index != index);
        }
        assert(after.tools[k] == at.0.tools[k]);
    }
    if known(at.0, came, block, id, name) && id.len() > 0 && name.len() > 0 {
        let k = choose|k: int|
            0 <= k < at.0.tools.len() && (forall|j: int|
                0 <= j < k ==> (#[trigger] at.0.tools[j]).wire_index != came)
                && #[trigger] at.0.tools[k] == (stream::ToolView {
                wire_index: came,
                block,
                id,
                name,
            });
        if slot < k {
            assert(at.0.tools[slot].wire_index != came);
        }
        assert(slot == k);
    }
    if forall|k: int| 0 <= k < at.0.tools.len() ==> (#[trigger] at.0.tools[k]).wire_index != came {
        let last = at.0.tools.len() as int;
        assert(slot == last);
        assert forall|j: int| 0 <= j < last implies (#[trigger] after.tools[j]).wire_index
            != came by {
            assert(after.tools[j] == at.0.tools[j]);
        }
        assert(after.tools[last].wire_index == came);
    }
}

/// A stream ends with the reason that its last choice finished for, and with the counts
/// that came last.
#[verifier::spinoff_prover]
#[verifier::rlimit(60)]
pub proof fn a_stream_ends_with_its_reason(
    state: ChatStreamView,
    root: JsonView,
    reason: Seq<char>,
)
    requires
        !state.done,
        json::items_in(json::member(root, "choices"@)).len() > 0,
        json::str_at(json::items_in(json::member(root, "choices"@))[0], "finish_reason"@) == Some(
            reason,
        ),
    ensures
        ({
            let stopped = stream::with_root((state, Seq::empty()), root).0;
            stream::ended((stopped, Seq::empty())).1.last() matches StreamEventView::End {
                stop_reason,
                ..
            } && {
                &&& stop_reason is ToolUse <==> reason == "tool_calls"@ || reason == "function_call"@
                &&& stop_reason is MaxTokens <==> reason == "length"@
                &&& stop_reason is Refusal <==> reason == "content_filter"@
                &&& stop_reason is EndTurn <==> reason == "stop"@
            }
        }),
{
    lemma_names();
    let none = Seq::<StreamEventView>::empty();
    let begun = stream::with_usage(
        stream::with_start(stream::with_inference((state, none), root), root),
        root,
    );
    let delta = delta_in(root);
    let told = stream::with_text(stream::with_reasoning(begun, delta), delta);
    lemma_still_open(told, json::items_in(json::member(delta, "tool_calls"@)), 0);
}

proof fn lemma_still_open(at: stream::Step, calls: Seq<JsonView>, i: int)
    ensures
        stream::with_fragments(at, calls, i).0.done == at.0.done,
    decreases calls.len() - i,
{
    if 0 <= i < calls.len() {
        lemma_still_open(stream::with_fragment(at, calls[i]), calls, i + 1);
    }
}

/// A stream starts once, with the model that its first frame names.
#[verifier::spinoff_prover]
pub proof fn a_stream_starts_with_its_model(state: ChatStreamView, root: JsonView, model: Seq<char>)
    requires
        !state.started,
        json::str_at(root, "model"@) == Some(model),
    ensures
        stream::with_start((state, Seq::empty()), root).1 == seq![
            StreamEventView::Start { model, response_id: None },
        ],
        stream::with_root((state, Seq::empty()), root).0.started,
{
    lemma_names();
    let none = Seq::<StreamEventView>::empty();
    let begun = stream::with_usage(
        stream::with_start(stream::with_inference((state, none), root), root),
        root,
    );
    let delta = delta_in(root);
    let told = stream::with_text(stream::with_reasoning(begun, delta), delta);
    lemma_still_started(told, json::items_in(json::member(delta, "tool_calls"@)), 0);
}

proof fn lemma_still_started(at: stream::Step, calls: Seq<JsonView>, i: int)
    ensures
        stream::with_fragments(at, calls, i).0.started == at.0.started,
    decreases calls.len() - i,
{
    if 0 <= i < calls.len() {
        lemma_still_started(stream::with_fragment(at, calls[i]), calls, i + 1);
    }
}

/// The names on the wire, told apart.
#[verifier::spinoff_prover]
proof fn lemma_names()
    ensures
        "id"@.len() == 2,
        "name"@.len() == 4,
        "stop"@.len() == 4,
        "name"@[0] == 'n',
        "stop"@[0] == 's',
        "delta"@.len() == 5,
        "index"@.len() == 5,
        "model"@.len() == 5,
        "usage"@.len() == 5,
        "delta"@[0] == 'd',
        "index"@[0] == 'i',
        "model"@[0] == 'm',
        "usage"@[0] == 'u',
        "length"@.len() == 6,
        "choices"@.len() == 7,
        "content"@.len() == 7,
        "choices"@[1] == 'h',
        "content"@[1] == 'o',
        "function"@.len() == 8,
        "arguments"@.len() == 9,
        "tool_calls"@.len() == 10,
        "finish_reason"@.len() == 13,
        "function_call"@.len() == 13,
        "finish_reason"@[1] == 'i',
        "function_call"@[1] == 'u',
        "content_filter"@.len() == 14,
        "reasoning_content"@.len() == 17,
{
    reveal_strlit("arguments");
    reveal_strlit("choices");
    reveal_strlit("content");
    reveal_strlit("content_filter");
    reveal_strlit("delta");
    reveal_strlit("finish_reason");
    reveal_strlit("function");
    reveal_strlit("function_call");
    reveal_strlit("id");
    reveal_strlit("index");
    reveal_strlit("length");
    reveal_strlit("model");
    reveal_strlit("name");
    reveal_strlit("reasoning_content");
    reveal_strlit("stop");
    reveal_strlit("tool_calls");
    reveal_strlit("usage");
}

} // verus!
