//! What the events of a Gemini stream tell of its frames.

use crate::codecs::gemini::decode;
use crate::codecs::gemini::stream::{self, GeminiStreamDecoder, GeminiStreamView};
use crate::codecs::stream as streams;
use crate::codecs::web_search_decode;
use crate::codecs::EventDecoder;
use crate::json::{self, JsonView};
use crate::protocol::StreamEventView;
use vstd::prelude::*;

verus! {

broadcast use {crate::views::group_views, crate::json::group_json};

/// The parts of the first candidate in a frame that reports no error.
pub open spec fn parts_in(root: JsonView) -> Seq<JsonView> {
    let candidates = json::items_in(json::member(root, "candidates"@));
    if json::at(root, "error"@) != JsonView::Null || candidates.len() == 0 {
        Seq::empty()
    } else {
        json::items_in(json::member2(candidates[0], "content"@, "parts"@))
    }
}

/// The text of a part that is no call, where it is a thought or where it is none.
pub open spec fn text_of(part: JsonView, thought: bool) -> Seq<char> {
    if json::member(part, "functionCall"@) is Some || (json::member(part, "thought"@) == Some(
        JsonView::Bool(true),
    )) != thought {
        Seq::empty()
    } else {
        match json::str_at(part, "text"@) {
            Some(text) => text,
            None => Seq::empty(),
        }
    }
}

/// The texts of the parts from the `i`th on, put together.
pub open spec fn texts_of(parts: Seq<JsonView>, i: int, thought: bool) -> Seq<char>
    decreases parts.len() - i,
{
    if i < 0 || i >= parts.len() {
        Seq::empty()
    } else {
        text_of(parts[i], thought) + texts_of(parts, i + 1, thought)
    }
}

/// What a frame says: of the answer, or of the thoughts.
pub open spec fn frame_text(thought: bool) -> spec_fn(JsonView) -> Seq<char> {
    |root: JsonView| texts_of(parts_in(root), 0, thought)
}

proof fn lemma_parts(at: stream::Step, parts: Seq<JsonView>, i: int, texted: bool, reasoned: bool)
    requires
        0 <= i,
    ensures
        ({
            let after = stream::with_parts(at, parts, i, texted, reasoned).1;
            &&& streams::said(after) == streams::said(at.1) + texts_of(parts, i, false)
            &&& streams::reasoned(after) == streams::reasoned(at.1) + texts_of(parts, i, true)
        }),
    decreases parts.len() - i,
{
    if i < parts.len() {
        let next = stream::with_part(at, parts[i], texted, reasoned);
        lemma_part(at, parts[i], texted, reasoned);
        lemma_parts(
            next,
            parts,
            i + 1,
            texted || (stream::textual(parts[i]) && !stream::thought(parts[i])),
            reasoned || (stream::textual(parts[i]) && stream::thought(parts[i])),
        );
        assert((streams::said(at.1) + text_of(parts[i], false)) + texts_of(parts, i + 1, false)
            =~= streams::said(at.1) + (text_of(parts[i], false) + texts_of(parts, i + 1, false)));
        assert((streams::reasoned(at.1) + text_of(parts[i], true)) + texts_of(parts, i + 1, true)
            =~= streams::reasoned(at.1) + (text_of(parts[i], true) + texts_of(
            parts,
            i + 1,
            true,
        )));
    } else {
        assert(streams::said(at.1) + texts_of(parts, i, false) =~= streams::said(at.1));
        assert(streams::reasoned(at.1) + texts_of(parts, i, true) =~= streams::reasoned(at.1));
    }
}

#[verifier::spinoff_prover]
#[verifier::rlimit(40)]
proof fn lemma_part(at: stream::Step, part: JsonView, texted: bool, reasoned: bool)
    ensures
        ({
            let after = stream::with_part(at, part, texted, reasoned).1;
            &&& streams::said(after) =~= streams::said(at.1) + text_of(part, false)
            &&& streams::reasoned(after) =~= streams::reasoned(at.1) + text_of(part, true)
        }),
{
    broadcast use streams::lemma_gathered_push;

    lemma_names();
    assert(stream::thought(part) <==> json::member(part, "thought"@) == Some(
        JsonView::Bool(true),
    ));
}

#[verifier::spinoff_prover]
#[verifier::rlimit(60)]
proof fn lemma_root(state: GeminiStreamView, root: JsonView)
    ensures
        match stream::with_root((state, Seq::empty()), root).1 {
            Ok(events) => streams::said(events) =~= frame_text(false)(root) && streams::reasoned(
                events,
            ) =~= frame_text(true)(root),
            Err(_) => frame_text(false)(root).len() == 0 && frame_text(true)(root).len() == 0,
        },
{
    broadcast use {streams::lemma_gathered_push, streams::lemma_gathered_add};

    lemma_names();
    let none = Seq::<StreamEventView>::empty();
    let at = stream::with_inference((state, none), root);
    streams::lemma_silent(at.1, streams::text_part());
    streams::lemma_silent(at.1, streams::reasoning_part());
    let begun = stream::with_status(stream::with_start(at, root), root);
    if let Some(candidate) = decode::first_candidate(root) {
        let (_, found) = web_search_decode::emitted(
            begun.0.search,
            web_search_decode::result_of(web_search_decode::gemini_metadata(candidate)),
        );
        streams::lemma_silent(found, streams::text_part());
        streams::lemma_silent(found, streams::reasoning_part());
        let searched = stream::with_search(begun, candidate);
        let parts = decode::parts_in(candidate);
        lemma_parts(stream::with_given_ids(searched, parts), parts, 0, false, false);
    }
}

proof fn lemma_frame(state: GeminiStreamView, frame: Seq<u8>)
    ensures
        ({
            let result = GeminiStreamDecoder::frame_step(state, frame).1;
            &&& streams::faithful(result, frame, streams::text_part(), frame_text(false))
            &&& streams::faithful(result, frame, streams::reasoning_part(), frame_text(true))
        }),
{
    if let Some(root) = streams::root_in(frame) {
        lemma_root(state, root);
    }
}

proof fn lemma_stream(state: GeminiStreamView, frames: Seq<Seq<u8>>, thought: bool)
    ensures
        ({
            let events = streams::after_frames::<GeminiStreamDecoder>(
                state,
                Seq::empty(),
                frames,
                0,
            ).1;
            (if thought {
                streams::reasoned(events)
            } else {
                streams::said(events)
            }) == streams::told(frames, 0, frame_text(thought))
        }),
{
    let none = Seq::<StreamEventView>::empty();
    let part = frame_text(thought);
    let event_part = if thought {
        streams::reasoning_part()
    } else {
        streams::text_part()
    };
    assert forall|state: GeminiStreamView, frame: Seq<u8>|
        streams::faithful(
            (#[trigger] GeminiStreamDecoder::frame_step(state, frame)).1,
            frame,
            event_part,
            part,
        ) by {
        lemma_frame(state, frame);
    }
    streams::lemma_told::<GeminiStreamDecoder>(state, none, frames, 0, event_part, part);
    assert(streams::gathered(none, event_part) + streams::told(frames, 0, part) =~= streams::told(
        frames,
        0,
        part,
    ));
}

/// The answer that a stream tells is the text of its parts that are no thoughts, and the
/// reasoning is that of its thoughts, each put together in order.
pub proof fn a_stream_tells_what_its_parts_say(state: GeminiStreamView, frames: Seq<Seq<u8>>)
    ensures
        ({
            let events = streams::after_frames::<GeminiStreamDecoder>(
                state,
                Seq::empty(),
                frames,
                0,
            ).1;
            &&& streams::said(events) == streams::told(frames, 0, frame_text(false))
            &&& streams::reasoned(events) == streams::told(frames, 0, frame_text(true))
        }),
{
    lemma_stream(state, frames, false);
    lemma_stream(state, frames, true);
}

/// A part that calls a function gives the call whole: its name, its arguments as text,
/// the id that the provider gave, and the signature that stands beside it. The stream
/// then stops for a tool, whatever reason it gives.
#[verifier::spinoff_prover]
#[verifier::rlimit(40)]
pub proof fn a_call_is_told_whole(
    at: stream::Step,
    part: JsonView,
    texted: bool,
    reasoned: bool,
    called: Seq<char>,
    args: JsonView,
)
    requires
        json::str_in(json::member2(part, "functionCall"@, "name"@)) == Some(called),
        json::member2(part, "functionCall"@, "args"@) == Some(args),
    ensures
        ({
            let (after, events) = stream::with_part(at, part, texted, reasoned);
            let given = json::str_in(json::member2(part, "functionCall"@, "id"@));
            let signed = json::str_at(part, "thoughtSignature"@);
            let n = at.1.len() as int;
            &&& events.len() == n + if signed is Some {
                2int
            } else {
                1int
            }
            &&& events[n] matches StreamEventView::ToolCallDelta {
                block,
                id,
                provider_id,
                name,
                arguments_fragment,
            } && {
                &&& block == at.0.next_block
                &&& name == called
                &&& arguments_fragment == json::text_of(args)
                &&& provider_id == given
                &&& given is Some ==> Some(id) == given
            }
            &&& signed is Some ==> events[n + 1] == (StreamEventView::ThoughtSignature {
                block: at.0.next_block,
                signature: signed->0,
            })
            &&& after.saw_tool_call
            &&& !after.done ==> (stream::ended((after, Seq::empty())).1.last() matches
                StreamEventView::End { stop_reason, .. } && stop_reason is ToolUse)
        }),
{
    lemma_names();
}

/// A stream of no calls ends with the reason that its candidate finished for.
#[verifier::spinoff_prover]
pub proof fn a_stream_ends_with_its_reason(state: GeminiStreamView, finish: Seq<char>)
    requires
        !state.done,
        !state.saw_tool_call,
        state.stop == Some(decode::stop_of(Some(finish))),
    ensures
        stream::ended((state, Seq::empty())).1.last() matches StreamEventView::End {
            stop_reason,
            ..
        } && {
            &&& stop_reason is MaxTokens <==> finish == "MAX_TOKENS"@
            &&& stop_reason is EndTurn <==> finish == "STOP"@
            &&& stop_reason is Refusal <==> finish == "SAFETY"@ || finish == "RECITATION"@ || finish
                == "PROHIBITED_CONTENT"@
        },
{
    lemma_names();
}

proof fn lemma_stop_stays(at: stream::Step, parts: Seq<JsonView>, i: int, texted: bool, reasoned: bool)
    ensures
        ({
            let after = stream::with_parts(at, parts, i, texted, reasoned).0;
            &&& after.stop == at.0.stop
            &&& after.done == at.0.done
        }),
    decreases parts.len() - i,
{
    if 0 <= i < parts.len() {
        lemma_stop_stays(
            stream::with_part(at, parts[i], texted, reasoned),
            parts,
            i + 1,
            texted || (stream::textual(parts[i]) && !stream::thought(parts[i])),
            reasoned || (stream::textual(parts[i]) && stream::thought(parts[i])),
        );
    }
}

/// The reason that a frame gives is the one that is remembered; a prompt that was blocked
/// is a refusal.
#[verifier::spinoff_prover]
#[verifier::rlimit(40)]
pub proof fn a_frame_is_remembered_by_its_reason(state: GeminiStreamView, root: JsonView)
    requires
        json::at(root, "error"@) == JsonView::Null,
    ensures
        ({
            let after = stream::with_root((state, Seq::empty()), root).0;
            let candidates = json::items_in(json::member(root, "candidates"@));
            let finish = json::str_at(candidates[0], "finishReason"@);
            &&& candidates.len() > 0 && finish is Some ==> after.stop == Some(
                decode::stop_of(finish),
            )
            &&& (candidates.len() == 0 || finish is None) && json::str_in(
                json::member2(root, "promptFeedback"@, "blockReason"@),
            ) is Some ==> after.stop is Some && after.stop->0 is Refusal
        }),
{
    lemma_names();
    let none = Seq::<StreamEventView>::empty();
    let at = stream::with_inference((state, none), root);
    let begun = stream::with_status(stream::with_start(at, root), root);
    if let Some(candidate) = decode::first_candidate(root) {
        let searched = stream::with_search(begun, candidate);
        let parts = decode::parts_in(candidate);
        lemma_stop_stays(stream::with_given_ids(searched, parts), parts, 0, false, false);
    }
}

/// The names on the wire, told apart.
#[verifier::spinoff_prover]
proof fn lemma_names()
    ensures
        ":"@.len() == 1,
        "id"@.len() == 2,
        "STOP"@.len() == 4,
        "args"@.len() == 4,
        "name"@.len() == 4,
        "text"@.len() == 4,
        "STOP"@[0] == 'S',
        "args"@[0] == 'a',
        "name"@[0] == 'n',
        "text"@[0] == 't',
        "error"@.len() == 5,
        "parts"@.len() == 5,
        "token"@.len() == 5,
        "error"@[0] == 'e',
        "parts"@[0] == 'p',
        "token"@[0] == 't',
        "SAFETY"@.len() == 6,
        "exceed"@.len() == 6,
        "status"@.len() == 6,
        "SAFETY"@[0] == 'S',
        "exceed"@[0] == 'e',
        "status"@[0] == 's',
        "content"@.len() == 7,
        "thought"@.len() == 7,
        "content"@[0] == 'c',
        "thought"@[0] == 't',
        "INTERNAL"@.len() == 8,
        "NOT_FOUND"@.len() == 9,
        "MAX_TOKENS"@.len() == 10,
        "RECITATION"@.len() == 10,
        "candidates"@.len() == 10,
        "MAX_TOKENS"@[0] == 'M',
        "RECITATION"@[0] == 'R',
        "candidates"@[0] == 'c',
        "UNAVAILABLE"@.len() == 11,
        "blockReason"@.len() == 11,
        "UNAVAILABLE"@[0] == 'U',
        "blockReason"@[0] == 'b',
        "finishReason"@.len() == 12,
        "functionCall"@.len() == 12,
        "modelVersion"@.len() == 12,
        "finishReason"@[1] == 'i',
        "functionCall"@[1] == 'u',
        "modelVersion"@[1] == 'o',
        "usageMetadata"@.len() == 13,
        "promptFeedback"@.len() == 14,
        "UNAUTHENTICATED"@.len() == 15,
        "INVALID_ARGUMENT"@.len() == 16,
        "promptTokenCount"@.len() == 16,
        "thoughtSignature"@.len() == 16,
        "INVALID_ARGUMENT"@[0] == 'I',
        "promptTokenCount"@[0] == 'p',
        "thoughtSignature"@[0] == 't',
        "PERMISSION_DENIED"@.len() == 17,
        "PROHIBITED_CONTENT"@.len() == 18,
        "RESOURCE_EXHAUSTED"@.len() == 18,
        "thoughtsTokenCount"@.len() == 18,
        "PROHIBITED_CONTENT"@[0] == 'P',
        "RESOURCE_EXHAUSTED"@[0] == 'R',
        "thoughtsTokenCount"@[0] == 't',
        "FAILED_PRECONDITION"@.len() == 19,
        "candidatesTokenCount"@.len() == 20,
        "cachedContentTokenCount"@.len() == 23,
{
    reveal_strlit(":");
    reveal_strlit("FAILED_PRECONDITION");
    reveal_strlit("INTERNAL");
    reveal_strlit("INVALID_ARGUMENT");
    reveal_strlit("MAX_TOKENS");
    reveal_strlit("NOT_FOUND");
    reveal_strlit("PERMISSION_DENIED");
    reveal_strlit("PROHIBITED_CONTENT");
    reveal_strlit("RECITATION");
    reveal_strlit("RESOURCE_EXHAUSTED");
    reveal_strlit("SAFETY");
    reveal_strlit("STOP");
    reveal_strlit("UNAUTHENTICATED");
    reveal_strlit("UNAVAILABLE");
    reveal_strlit("args");
    reveal_strlit("blockReason");
    reveal_strlit("cachedContentTokenCount");
    reveal_strlit("candidates");
    reveal_strlit("candidatesTokenCount");
    reveal_strlit("content");
    reveal_strlit("error");
    reveal_strlit("exceed");
    reveal_strlit("finishReason");
    reveal_strlit("functionCall");
    reveal_strlit("id");
    reveal_strlit("modelVersion");
    reveal_strlit("name");
    reveal_strlit("parts");
    reveal_strlit("promptFeedback");
    reveal_strlit("promptTokenCount");
    reveal_strlit("status");
    reveal_strlit("text");
    reveal_strlit("thought");
    reveal_strlit("thoughtSignature");
    reveal_strlit("thoughtsTokenCount");
    reveal_strlit("token");
    reveal_strlit("usageMetadata");
}

} // verus!
