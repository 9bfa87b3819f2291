//! The stream decoder. Each frame is a whole response, not a delta of one, so block
//! indices are given out here.

use crate::codecs::extras::HeaderViews;
use crate::codecs::gemini::decode;
use crate::codecs::inference::{self, StreamInference, StreamInferenceView};
use crate::codecs::openai::chat;
use crate::codecs::stream::{self, Frame, FrameView};
use crate::codecs::web_search_decode::{self, SearchStream, SearchStreamView};
use crate::codecs::{CodecContext, Decoded, EventDecoder};
use crate::json::{self, Json, JsonView};
use crate::protocol::error;
use crate::protocol::{
    InferenceReport, InferenceReportView, LlmError, LlmErrorView, StopReason, StopReasonView,
    StreamEvent, StreamEventView, UsageReport, UsageReportView,
};
use crate::views;
use vstd::prelude::*;

verus! {

broadcast use {crate::views::group_views, crate::json::group_json};

pub struct GeminiStreamDecoder {
    inference: StreamInference,
    started: bool,
    next_block: u64,
    text_block: Option<u64>,
    reasoning_block: Option<u64>,
    usage_raw: Option<Json>,
    stop: Option<StopReason>,
    saw_tool_call: bool,
    used_call_ids: Vec<String>,
    done: bool,
    search: SearchStream,
}

pub struct GeminiStreamView {
    pub inference: StreamInferenceView,
    pub started: bool,
    pub next_block: u64,
    pub text_block: Option<u64>,
    pub reasoning_block: Option<u64>,
    /// The usage object as sent. This wire restates all of it, so the latest one
    /// counts.
    pub usage_raw: Option<JsonView>,
    pub stop: Option<StopReasonView>,
    pub saw_tool_call: bool,
    /// The ids that calls have had, the provider's and those made here.
    pub used_call_ids: Seq<Seq<char>>,
    pub done: bool,
    pub search: SearchStreamView,
}

impl View for GeminiStreamDecoder {
    type V = GeminiStreamView;

    closed spec fn view(&self) -> GeminiStreamView {
        GeminiStreamView {
            inference: self.inference@,
            started: self.started,
            next_block: self.next_block,
            text_block: self.text_block,
            reasoning_block: self.reasoning_block,
            usage_raw: self.usage_raw.deep_view(),
            stop: self.stop.deep_view(),
            saw_tool_call: self.saw_tool_call,
            used_call_ids: self.used_call_ids.deep_view(),
            done: self.done,
            search: self.search@,
        }
    }
}

/// The state before anything arrived.
pub open spec fn gemini_start(context: CodecContext) -> GeminiStreamView {
    GeminiStreamView {
        inference: inference::stream_start(context.profile),
        started: false,
        next_block: 0,
        text_block: None,
        reasoning_block: None,
        usage_raw: None,
        stop: None,
        saw_tool_call: false,
        used_call_ids: Seq::empty(),
        done: false,
        search: SearchStreamView { seen: Seq::empty(), snapshots: Seq::empty() },
    }
}

/// A state with the events so far.
pub type Step = (GeminiStreamView, Seq<StreamEventView>);

/// A step as the outcome of a frame.
pub open spec fn outcome(at: Step) -> (GeminiStreamView, Decoded) {
    (at.0, Ok(at.1))
}

/// The report of what was counted.
pub open spec fn usage_so_far(state: GeminiStreamView) -> UsageReportView {
    decode::report_of(state.usage_raw, state.done)
}

/// The terminal event, which comes once. A turn that called a tool is a tool turn
/// even though this wire finishes it with `STOP`.
pub open spec fn ended(at: Step) -> Step {
    let (state, events) = at;
    if state.done {
        at
    } else {
        let state = GeminiStreamView { done: true, ..state };
        (
            state,
            events.push(
                StreamEventView::End {
                    stop_reason: if state.saw_tool_call {
                        StopReasonView::ToolUse
                    } else {
                        match state.stop {
                            Some(reason) => reason,
                            None => StopReasonView::EndTurn,
                        }
                    },
                    usage: usage_so_far(state),
                    inference: state.inference.report,
                },
            ),
        )
    }
}

/// What the event says of inference.
pub open spec fn with_inference(at: Step, root: JsonView) -> Step {
    let next = inference::stream_observed(at.0.inference, root);
    (
        GeminiStreamView { inference: next, ..at.0 },
        at.1 + inference::report_events(at.0.inference.report, next.report),
    )
}

pub open spec fn with_start(at: Step, root: JsonView) -> Step {
    if at.0.started {
        at
    } else {
        (
            GeminiStreamView { started: true, ..at.0 },
            at.1.push(
                StreamEventView::Start {
                    model: json::text_or_empty(root, "modelVersion"@),
                    response_id: None,
                },
            ),
        )
    }
}

/// What a frame says beside its candidates: the usage, and whether the prompt was
/// blocked.
pub open spec fn with_status(at: Step, root: JsonView) -> Step {
    (
        GeminiStreamView {
            usage_raw: match decode::usage_in(root) {
                Some(usage) => Some(usage),
                None => at.0.usage_raw,
            },
            stop: if decode::blocked(root) {
                Some(StopReasonView::Refusal)
            } else {
                at.0.stop
            },
            ..at.0
        },
        at.1,
    )
}

/// The block that is given out next.
pub open spec fn with_next(state: GeminiStreamView) -> GeminiStreamView {
    GeminiStreamView { next_block: chat::decode::plus(state.next_block, 1), ..state }
}

/// The events with a signature, where there is one.
pub open spec fn with_signature(
    events: Seq<StreamEventView>,
    block: u64,
    signature: Option<Seq<char>>,
) -> Seq<StreamEventView> {
    match signature {
        Some(signature) => events.push(StreamEventView::ThoughtSignature { block, signature }),
        None => events,
    }
}

/// A call. Its arguments arrive whole.
pub open spec fn with_call(at: Step, call: JsonView, signature: Option<Seq<char>>) -> Step {
    let block = at.0.next_block;
    let (id, used) = decode::identified(call, at.0.used_call_ids);
    (
        GeminiStreamView {
            saw_tool_call: true,
            used_call_ids: used,
            text_block: None,
            reasoning_block: None,
            ..with_next(at.0)
        },
        with_signature(
            at.1.push(
                StreamEventView::ToolCallDelta {
                    block,
                    id,
                    provider_id: json::str_at(call, "id"@),
                    name: json::text_or_empty(call, "name"@),
                    arguments_fragment: json::text_of(json::at(call, "args"@)),
                },
            ),
            block,
            signature,
        ),
    )
}

/// Thinking. A second part of it in one frame is a block of its own, and a
/// signature closes the block.
pub open spec fn with_thought(at: Step, text: Seq<char>, signature: Option<Seq<char>>, again: bool) -> Step {
    let opened = if at.0.reasoning_block is None || again {
        GeminiStreamView { reasoning_block: Some(at.0.next_block), ..with_next(at.0) }
    } else {
        at.0
    };
    let block = opened.reasoning_block->0;
    (
        GeminiStreamView {
            text_block: None,
            reasoning_block: if signature is Some {
                None
            } else {
                Some(block)
            },
            ..opened
        },
        with_signature(
            at.1.push(StreamEventView::ReasoningDelta { block, text }),
            block,
            signature,
        ),
    )
}

/// Text, in the same way.
pub open spec fn with_text(at: Step, text: Seq<char>, signature: Option<Seq<char>>, again: bool) -> Step {
    let opened = if at.0.text_block is None || again {
        GeminiStreamView { text_block: Some(at.0.next_block), ..with_next(at.0) }
    } else {
        at.0
    };
    let block = opened.text_block->0;
    (
        GeminiStreamView {
            reasoning_block: None,
            text_block: if signature is Some {
                None
            } else {
                Some(block)
            },
            ..opened
        },
        with_signature(
            at.1.push(StreamEventView::TextDelta { block, text }),
            block,
            signature,
        ),
    )
}

/// Whether a part is thinking.
pub open spec fn thought(part: JsonView) -> bool {
    json::bool_at(part, "thought"@) == Some(true)
}

/// Whether a part is no call, and has text.
pub open spec fn textual(part: JsonView) -> bool {
    json::member(part, "functionCall"@) is None && json::str_at(part, "text"@) is Some
}

/// One part, given whether the frame has shown text, or thinking, before.
pub open spec fn with_part(at: Step, part: JsonView, texted: bool, reasoned: bool) -> Step {
    let signature = json::str_at(part, "thoughtSignature"@);
    match json::member(part, "functionCall"@) {
        Some(call) => with_call(at, call, signature),
        None => match json::str_at(part, "text"@) {
            None => at,
            Some(text) => if thought(part) {
                with_thought(at, text, signature, reasoned)
            } else {
                with_text(at, text, signature, texted)
            },
        },
    }
}

pub open spec fn with_parts(at: Step, parts: Seq<JsonView>, i: int, texted: bool, reasoned: bool) -> Step
    decreases parts.len() - i,
{
    if i < 0 || i >= parts.len() {
        at
    } else {
        with_parts(
            with_part(at, parts[i], texted, reasoned),
            parts,
            i + 1,
            texted || (textual(parts[i]) && !thought(parts[i])),
            reasoned || (textual(parts[i]) && thought(parts[i])),
        )
    }
}

pub open spec fn with_search(at: Step, candidate: JsonView) -> Step {
    let (search, events) = web_search_decode::emitted(
        at.0.search,
        web_search_decode::result_of(web_search_decode::gemini_metadata(candidate)),
    );
    (GeminiStreamView { search, ..at.0 }, at.1 + events)
}

/// The ids that the provider gives are used before any other is made.
pub open spec fn with_given_ids(at: Step, parts: Seq<JsonView>) -> Step {
    (
        GeminiStreamView {
            used_call_ids: decode::given_ids(parts, 0, at.0.used_call_ids),
            ..at.0
        },
        at.1,
    )
}

pub open spec fn with_candidate(at: Step, candidate: JsonView) -> Step {
    let shown = with_parts(
        with_given_ids(with_search(at, candidate), decode::parts_in(candidate)),
        decode::parts_in(candidate),
        0,
        false,
        false,
    );
    match json::str_at(candidate, "finishReason"@) {
        Some(finish) => (
            GeminiStreamView { stop: Some(decode::stop_of(Some(finish))), ..shown.0 },
            shown.1,
        ),
        None => shown,
    }
}

/// One frame.
pub open spec fn with_root(at: Step, root: JsonView) -> (GeminiStreamView, Decoded) {
    let observed = with_inference(at, root);
    if json::at(root, "error"@) != JsonView::Null {
        (observed.0, Err(decode::classified(500, root, None)))
    } else {
        let begun = with_status(with_start(observed, root), root);
        outcome(
            match decode::first_candidate(root) {
                Some(candidate) => with_candidate(begun, candidate),
                None => begun,
            },
        )
    }
}

pub open spec fn no_json() -> LlmErrorView {
    error::invalid_view("stream frame is not valid JSON"@)
}

pub open spec fn interrupted() -> LlmErrorView {
    LlmErrorView::StreamInterrupted {
        message: "provider stream ended before a terminal event"@,
    }
}

fn push_signature(out: &mut Vec<StreamEvent>, block: u64, signature: Option<String>)
    ensures
        final(out).deep_view() == with_signature(
            old(out).deep_view(),
            block,
            signature.deep_view(),
        ),
{
    if let Some(signature) = signature {
        out.push(StreamEvent::ThoughtSignature { block, signature });
    }
}

impl GeminiStreamDecoder {
    pub fn configured(context: &CodecContext) -> (decoder: Self)
        ensures
            decoder@ == gemini_start(*context),
    {
        GeminiStreamDecoder {
            inference: StreamInference::new(context),
            started: false,
            next_block: 0,
            text_block: None,
            reasoning_block: None,
            usage_raw: None,
            stop: None,
            saw_tool_call: false,
            used_call_ids: Vec::new(),
            done: false,
            search: SearchStream::new(),
        }
    }

    fn finish_into(&mut self, out: &mut Vec<StreamEvent>)
        ensures
            (final(self)@, final(out).deep_view()) == ended((old(self)@, old(out).deep_view())),
    {
        if self.done {
            return;
        }
        self.done = true;
        let stop_reason = if self.saw_tool_call {
            StopReason::ToolUse
        } else {
            match &self.stop {
                Some(reason) => reason.dup(),
                None => StopReason::EndTurn,
            }
        };
        out.push(
            StreamEvent::End {
                stop_reason,
                usage: decode::report(self.usage_raw.as_ref(), self.done),
                inference: self.inference.report.dup(),
            },
        );
    }

    fn take_block(&mut self) -> (block: u64)
        ensures
            block == old(self)@.next_block,
            final(self)@ == with_next(old(self)@),
    {
        let block = self.next_block;
        self.next_block = block.saturating_add(1);
        block
    }

    fn call(&mut self, call: &Json, signature: Option<String>, out: &mut Vec<StreamEvent>)
        ensures
            (final(self)@, final(out).deep_view()) == with_call(
                (old(self)@, old(out).deep_view()),
                call@,
                signature.deep_view(),
            ),
    {
        let block = self.take_block();
        self.saw_tool_call = true;
        self.text_block = None;
        self.reasoning_block = None;
        let (id, provider_id) = decode::call_id(call, &mut self.used_call_ids);
        let args = json::member_or_null(call, "args");
        out.push(
            StreamEvent::ToolCallDelta {
                block,
                id,
                provider_id,
                name: json::text_at(call, "name"),
                arguments_fragment: json::to_text(&args),
            },
        );
        push_signature(out, block, signature);
    }

    fn thought(&mut self, text: &str, signature: Option<String>, again: bool, out: &mut Vec<
        StreamEvent,
    >)
        ensures
            (final(self)@, final(out).deep_view()) == with_thought(
                (old(self)@, old(out).deep_view()),
                text@,
                signature.deep_view(),
                again,
            ),
    {
        self.text_block = None;
        if again {
            self.reasoning_block = None;
        }
        let block = match self.reasoning_block {
            Some(block) => block,
            None => self.take_block(),
        };
        self.reasoning_block = if signature.is_some() {
            None
        } else {
            Some(block)
        };
        out.push(StreamEvent::ReasoningDelta { block, text: text.to_owned() });
        push_signature(out, block, signature);
    }

    fn text(&mut self, text: &str, signature: Option<String>, again: bool, out: &mut Vec<
        StreamEvent,
    >)
        ensures
            (final(self)@, final(out).deep_view()) == with_text(
                (old(self)@, old(out).deep_view()),
                text@,
                signature.deep_view(),
                again,
            ),
    {
        self.reasoning_block = None;
        if again {
            self.text_block = None;
        }
        let block = match self.text_block {
            Some(block) => block,
            None => self.take_block(),
        };
        self.text_block = if signature.is_some() {
            None
        } else {
            Some(block)
        };
        out.push(StreamEvent::TextDelta { block, text: text.to_owned() });
        push_signature(out, block, signature);
    }

    fn parts(&mut self, parts: &Vec<Json>, out: &mut Vec<StreamEvent>)
        ensures
            (final(self)@, final(out).deep_view()) == with_parts(
                (old(self)@, old(out).deep_view()),
                parts.deep_view(),
                0,
                false,
                false,
            ),
    {
        let ghost first = (self@, out.deep_view());
        let mut texted = false;
        let mut reasoned = false;
        let mut i: usize = 0;
        while i < parts.len()
            invariant
                i <= parts.len(),
                with_parts(first, parts.deep_view(), 0, false, false) == with_parts(
                    (self@, out.deep_view()),
                    parts.deep_view(),
                    i as int,
                    texted,
                    reasoned,
                ),
            decreases parts.len() - i,
        {
            assert(parts.deep_view()[i as int] == parts@[i as int]@);
            let part = &parts[i];
            let signature = json::owned_text_in(part.get("thoughtSignature"));
            if let Some(call) = part.get("functionCall") {
                self.call(call, signature, out);
            } else if let Some(text) = part.str_at("text") {
                let thought = match part.bool_at("thought") {
                    Some(thought) => thought,
                    None => false,
                };
                if thought {
                    self.thought(text, signature, reasoned, out);
                    reasoned = true;
                } else {
                    self.text(text, signature, texted, out);
                    texted = true;
                }
            }
            i = i + 1;
        }
    }

    fn candidate(&mut self, candidate: &Json, out: &mut Vec<StreamEvent>)
        ensures
            (final(self)@, final(out).deep_view()) == with_candidate(
                (old(self)@, old(out).deep_view()),
                candidate@,
            ),
    {
        self.search.emit(web_search_decode::gemini(candidate), out);
        if let Some(parts) = web_search_decode::items_of(candidate.get2("content", "parts")) {
            decode::provider_call_ids(parts, &mut self.used_call_ids);
            self.parts(parts, out);
        }
        if let Some(finish) = candidate.str_at("finishReason") {
            self.stop = Some(decode::stop_reason(Some(finish)));
        }
    }

    fn event(&mut self, root: &Json) -> (result: Result<Vec<StreamEvent>, LlmError>)
        ensures
            (final(self)@, views::res(result)) == with_root((old(self)@, Seq::empty()), root@),
    {
        let mut out: Vec<StreamEvent> = Vec::new();
        self.inference.observe(root, &mut out);
        if !json::is_null(root.get("error")) {
            return Err(decode::classify_error(500, root, None));
        }
        if !self.started {
            self.started = true;
            out.push(
                StreamEvent::Start {
                    model: json::text_at(root, "modelVersion"),
                    response_id: None,
                },
            );
        }
        if let Some(usage) = decode::find_usage(root) {
            self.usage_raw = Some(usage.dup());
        }
        if decode::prompt_feedback_is_blocking(root) {
            self.stop = Some(StopReason::Refusal);
        }
        if let Some(candidate) = decode::find_candidate(root) {
            self.candidate(candidate, &mut out);
        }
        Ok(out)
    }
}

impl EventDecoder for GeminiStreamDecoder {
    open spec fn frame_step(state: GeminiStreamView, frame: Seq<u8>) -> (GeminiStreamView, Decoded) {
        match stream::framed(
            frame,
            "stream frame is not valid UTF-8"@,
            "stream frame is not valid JSON"@,
        ) {
            Err(error) => (state, Err(error)),
            Ok(FrameView::Blank) => outcome((state, Seq::empty())),
            // This wire has no sentinel.
            Ok(FrameView::Sentinel) => (state, Err(no_json())),
            Ok(FrameView::Root(root)) => with_root((state, Seq::empty()), root),
        }
    }

    open spec fn finish_step(state: GeminiStreamView) -> (GeminiStreamView, Decoded) {
        if !state.done && state.stop is None {
            (state, Err(interrupted()))
        } else {
            outcome(ended((state, Seq::empty())))
        }
    }

    open spec fn headers_step(state: GeminiStreamView, headers: HeaderViews) -> GeminiStreamView {
        GeminiStreamView {
            inference: inference::headers_seen(state.inference, headers),
            ..state
        }
    }

    open spec fn report_of(state: GeminiStreamView) -> InferenceReportView {
        state.inference.report
    }

    open spec fn usage_of(state: GeminiStreamView) -> UsageReportView {
        usage_so_far(state)
    }

    fn decode_frame(&mut self, frame: &[u8]) -> (result: Result<Vec<StreamEvent>, LlmError>) {
        let read = stream::read_frame(
            frame,
            "stream frame is not valid UTF-8",
            "stream frame is not valid JSON",
        )?;
        match read {
            Frame::Blank => Ok(Vec::new()),
            Frame::Sentinel => Err(error::invalid("stream frame is not valid JSON")),
            Frame::Root(root) => self.event(&root),
        }
    }

    fn finish(&mut self) -> (result: Result<Vec<StreamEvent>, LlmError>) {
        if !self.done && self.stop.is_none() {
            return Err(
                LlmError::StreamInterrupted {
                    message: "provider stream ended before a terminal event".to_owned(),
                },
            );
        }
        let mut out: Vec<StreamEvent> = Vec::new();
        self.finish_into(&mut out);
        Ok(out)
    }

    fn set_response_headers(&mut self, headers: &Vec<(String, String)>) {
        self.inference.headers(headers);
    }

    fn inference_report(&self) -> (report: InferenceReport) {
        self.inference.report.dup()
    }

    fn usage_report(&self) -> (report: UsageReport) {
        decode::report(self.usage_raw.as_ref(), self.done)
    }
}

proof fn lemma_parts_keep_ids(at: Step, parts: Seq<JsonView>, i: int, texted: bool, reasoned: bool)
    ensures
        at.0.used_call_ids.is_prefix_of(with_parts(at, parts, i, texted, reasoned).0.used_call_ids),
    decreases parts.len() - i,
{
    if 0 <= i < parts.len() {
        lemma_parts_keep_ids(
            with_part(at, parts[i], texted, reasoned),
            parts,
            i + 1,
            texted || (textual(parts[i]) && !thought(parts[i])),
            reasoned || (textual(parts[i]) && thought(parts[i])),
        );
    }
}

proof fn lemma_given_ids_keep(parts: Seq<JsonView>, i: int, used: Seq<Seq<char>>)
    ensures
        used.is_prefix_of(decode::given_ids(parts, i, used)),
    decreases parts.len() - i,
{
    if 0 <= i < parts.len() {
        if let Some(id) = json::str_in(json::member2(parts[i], "functionCall"@, "id"@)) {
            lemma_given_ids_keep(parts, i + 1, used.push(id));
        } else {
            lemma_given_ids_keep(parts, i + 1, used);
        }
    }
}

/// An id stays used to the end of the stream, so that no later call gets it.
pub proof fn a_used_id_stays_used(state: GeminiStreamView, frame: Seq<u8>)
    ensures
        state.used_call_ids.is_prefix_of(
            GeminiStreamDecoder::frame_step(state, frame).0.used_call_ids,
        ),
{
    if let Ok(FrameView::Root(root)) = stream::framed(
        frame,
        "stream frame is not valid UTF-8"@,
        "stream frame is not valid JSON"@,
    ) {
        let at: Step = (state, Seq::empty());
        let begun = with_status(with_start(with_inference(at, root), root), root);
        if let Some(candidate) = decode::first_candidate(root) {
            let parts = decode::parts_in(candidate);
            let searched = with_search(begun, candidate);
            lemma_given_ids_keep(parts, 0, searched.0.used_call_ids);
            lemma_parts_keep_ids(with_given_ids(searched, parts), parts, 0, false, false);
        }
    }
}

/// A stream that stops before it said why it ends is an interruption.
pub proof fn a_cut_stream_is_an_interruption(state: GeminiStreamView)
    ensures
        (state.done || state.stop is Some) <==> GeminiStreamDecoder::finish_step(state).1 is Ok,
        !(state.done || state.stop is Some) ==> GeminiStreamDecoder::finish_step(
            state,
        ).1->Err_0 is StreamInterrupted,
{
}

/// Between two steps there is an opening event where the stream began, a terminal one
/// where it ended, and no other of either.
spec fn counted(a: Step, b: Step) -> bool {
    &&& stream::ends(b.1) + stream::one(a.0.done) == stream::ends(a.1) + stream::one(b.0.done)
    &&& stream::starts(b.1) + stream::one(a.0.started) == stream::starts(a.1) + stream::one(
        b.0.started,
    )
}

proof fn lemma_ended_counted(at: Step)
    ensures
        counted(at, ended(at)),
{
    if !at.0.done {
        stream::lemma_event(at.1, ended(at).1.last());
        assert(ended(at).1 =~= at.1.push(ended(at).1.last()));
    }
}

proof fn lemma_part_counted(at: Step, part: JsonView, texted: bool, reasoned: bool)
    ensures
        counted(at, with_part(at, part, texted, reasoned)),
{
    let shown = with_part(at, part, texted, reasoned);
    if shown.1.len() > at.1.len() {
        let event = shown.1[at.1.len() as int];
        stream::lemma_event(at.1, event);
        let first = at.1.push(event);
        if shown.1.len() > first.len() {
            stream::lemma_event(first, shown.1.last());
            assert(shown.1 =~= first.push(shown.1.last()));
        } else {
            assert(shown.1 =~= first);
        }
    }
}

proof fn lemma_parts_counted(at: Step, parts: Seq<JsonView>, i: int, texted: bool, reasoned: bool)
    ensures
        counted(at, with_parts(at, parts, i, texted, reasoned)),
    decreases parts.len() - i,
{
    if 0 <= i < parts.len() {
        lemma_part_counted(at, parts[i], texted, reasoned);
        lemma_parts_counted(
            with_part(at, parts[i], texted, reasoned),
            parts,
            i + 1,
            texted || (textual(parts[i]) && !thought(parts[i])),
            reasoned || (textual(parts[i]) && thought(parts[i])),
        );
    }
}

proof fn lemma_candidate_counted(at: Step, candidate: JsonView)
    ensures
        counted(at, with_candidate(at, candidate)),
{
    let (_, events) = web_search_decode::emitted(
        at.0.search,
        web_search_decode::result_of(web_search_decode::gemini_metadata(candidate)),
    );
    stream::lemma_events(at.1, events);
    lemma_parts_counted(
        with_given_ids(with_search(at, candidate), decode::parts_in(candidate)),
        decode::parts_in(candidate),
        0,
        false,
        false,
    );
}

proof fn lemma_frame_counted(state: GeminiStreamView, frame: Seq<u8>)
    ensures
        ({
            let (after, result) = GeminiStreamDecoder::frame_step(state, frame);
            &&& result matches Ok(events) ==> counted((state, Seq::empty()), (after, events))
            &&& result is Err ==> after.done == state.done && after.started == state.started
        }),
{
    let at: Step = (state, Seq::empty());
    if let Ok(FrameView::Root(root)) = stream::framed(
        frame,
        "stream frame is not valid UTF-8"@,
        "stream frame is not valid JSON"@,
    ) {
        let next = inference::stream_observed(state.inference, root);
        stream::lemma_events(at.1, inference::report_events(state.inference.report, next.report));
        let observed = with_inference(at, root);
        let opened = with_start(observed, root);
        if !observed.0.started {
            stream::lemma_event(observed.1, opened.1.last());
            assert(opened.1 =~= observed.1.push(opened.1.last()));
        }
        if let Some(candidate) = decode::first_candidate(root) {
            lemma_candidate_counted(with_status(opened, root), candidate);
        }
    }
}

proof fn lemma_frames_counted(
    state: GeminiStreamView,
    events: Seq<StreamEventView>,
    frames: Seq<Seq<u8>>,
    i: int,
)
    ensures
        counted(
            (state, events),
            stream::after_frames::<GeminiStreamDecoder>(state, events, frames, i),
        ),
    decreases frames.len() - i,
{
    if 0 <= i < frames.len() {
        lemma_frame_counted(state, frames[i]);
        let (after, result) = GeminiStreamDecoder::frame_step(state, frames[i]);
        let next = match result {
            Ok(more) => {
                stream::lemma_joined(events, more);
                events + more
            },
            Err(_) => events,
        };
        lemma_frames_counted(after, next, frames, i + 1);
    }
}

/// Over its whole life a decoder gives one opening event at most, and one terminal
/// event at most.
pub proof fn a_stream_starts_and_ends_once(context: CodecContext, frames: Seq<Seq<u8>>)
    ensures
        ({
            let at = stream::after_frames::<GeminiStreamDecoder>(
                gemini_start(context),
                Seq::empty(),
                frames,
                0,
            );
            &&& stream::ends(at.1) <= 1
            &&& stream::starts(at.1) <= 1
            &&& GeminiStreamDecoder::finish_step(at.0).1 matches Ok(more) ==> stream::ends(at.1 + more) <= 1
                && stream::starts(at.1 + more) <= 1
        }),
{
    lemma_frames_counted(gemini_start(context), Seq::empty(), frames, 0);
    let at = stream::after_frames::<GeminiStreamDecoder>(gemini_start(context), Seq::empty(), frames, 0);
    lemma_ended_counted((at.0, Seq::empty()));
    if let Ok(more) = GeminiStreamDecoder::finish_step(at.0).1 {
        stream::lemma_joined(at.1, more);
    }
}

} // verus!
