//! The stream decoder. Block indices are given out here and only ever move
//! forward, so a consumer can tell one block from the next.

use crate::codecs::extras::HeaderViews;
use crate::codecs::inference::{self, StreamInference, StreamInferenceView};
use crate::codecs::openai::chat::decode;
use crate::codecs::stream::{self, Frame, FrameView};
use crate::codecs::web_search_decode;
use crate::codecs::{CodecContext, Decoded, EventDecoder};
use crate::json::{self, Json, JsonView};
use crate::protocol::{
    InferenceReport, InferenceReportView, LlmError, StopReason, StopReasonView, StreamEvent,
    StreamEventView, UsageReport, UsageReportView,
};
use crate::text;
use crate::views;
use vstd::prelude::*;

verus! {

broadcast use {crate::views::group_views, crate::json::group_json};

/// A tool call whose arguments arrive in fragments, keyed by the wire's own
/// index; the id and the name may come late.
pub struct ToolStream {
    pub wire_index: u64,
    pub block: u64,
    pub id: String,
    pub name: String,
}

pub struct ToolView {
    pub wire_index: u64,
    pub block: u64,
    pub id: Seq<char>,
    pub name: Seq<char>,
}

impl DeepView for ToolStream {
    type V = ToolView;

    open spec fn deep_view(&self) -> ToolView {
        ToolView {
            wire_index: self.wire_index,
            block: self.block,
            id: self.id@,
            name: self.name@,
        }
    }
}

pub struct OpenAiStreamDecoder {
    inference: StreamInference,
    separate: bool,
    started: bool,
    next_block: u64,
    text_block: Option<u64>,
    reasoning_block: Option<u64>,
    tools: Vec<ToolStream>,
    usage_raw: Option<Json>,
    stop: Option<StopReason>,
    done: bool,
}

pub struct ChatStreamView {
    pub inference: StreamInferenceView,
    pub separate: bool,
    pub started: bool,
    pub next_block: u64,
    pub text_block: Option<u64>,
    pub reasoning_block: Option<u64>,
    pub tools: Seq<ToolView>,
    /// The usage object as sent. This wire restates all of it, so the latest one
    /// counts.
    pub usage_raw: Option<JsonView>,
    pub stop: Option<StopReasonView>,
    pub done: bool,
}

impl View for OpenAiStreamDecoder {
    type V = ChatStreamView;

    closed spec fn view(&self) -> ChatStreamView {
        ChatStreamView {
            inference: self.inference@,
            separate: self.separate,
            started: self.started,
            next_block: self.next_block,
            text_block: self.text_block,
            reasoning_block: self.reasoning_block,
            tools: self.tools.deep_view(),
            usage_raw: self.usage_raw.deep_view(),
            stop: self.stop.deep_view(),
            done: self.done,
        }
    }
}

/// The state before anything arrived.
pub open spec fn chat_start(context: CodecContext) -> ChatStreamView {
    ChatStreamView {
        inference: inference::stream_start(context.profile),
        separate: decode::separate_reasoning_of(context.profile),
        started: false,
        next_block: 0,
        text_block: None,
        reasoning_block: None,
        tools: Seq::empty(),
        usage_raw: None,
        stop: None,
        done: false,
    }
}

/// A state with the events so far.
pub type Step = (ChatStreamView, Seq<StreamEventView>);

/// The report of what was counted.
pub open spec fn usage_so_far(state: ChatStreamView) -> UsageReportView {
    let report = decode::report_of(state.usage_raw, state.separate);
    UsageReportView { complete: report.complete && state.done, ..report }
}

/// The terminal event, which comes once: the sentinel and the end of the bytes are
/// two ways to reach the same place.
pub open spec fn ended(at: Step) -> Step {
    let (state, events) = at;
    if state.done {
        at
    } else {
        let state = ChatStreamView { done: true, ..state };
        (
            state,
            events.push(
                StreamEventView::End {
                    stop_reason: match state.stop {
                        Some(reason) => reason,
                        None => StopReasonView::EndTurn,
                    },
                    usage: usage_so_far(state),
                    inference: state.inference.report,
                },
            ),
        )
    }
}

/// What the event says of inference.
pub open spec fn with_inference(at: Step, root: JsonView) -> Step {
    let next = inference::stream_observed(at.0.inference, root);
    (
        ChatStreamView { inference: next, ..at.0 },
        at.1 + inference::report_events(at.0.inference.report, next.report),
    )
}

/// The first event names the model.
pub open spec fn with_start(at: Step, root: JsonView) -> Step {
    if at.0.started {
        at
    } else {
        (
            ChatStreamView { started: true, ..at.0 },
            at.1.push(
                StreamEventView::Start {
                    model: json::text_or_empty(root, "model"@),
                    response_id: None,
                },
            ),
        )
    }
}

/// Usage may arrive on its own frame after the last choice. The frames before it say
/// null.
pub open spec fn with_usage(at: Step, root: JsonView) -> Step {
    match web_search_decode::unless_null(json::at(root, "usage"@)) {
        Some(usage) => (ChatStreamView { usage_raw: Some(usage), ..at.0 }, at.1),
        None => at,
    }
}

/// The block that is given out next.
pub open spec fn with_next(state: ChatStreamView) -> ChatStreamView {
    ChatStreamView { next_block: decode::plus(state.next_block, 1), ..state }
}

pub open spec fn with_reasoning(at: Step, delta: JsonView) -> Step {
    match json::str_at(delta, "reasoning_content"@) {
        None => at,
        Some(text) => {
            let state = match at.0.reasoning_block {
                Some(_) => at.0,
                None => ChatStreamView {
                    reasoning_block: Some(at.0.next_block),
                    ..with_next(at.0)
                },
            };
            (
                state,
                at.1.push(
                    StreamEventView::ReasoningDelta { block: state.reasoning_block->0, text },
                ),
            )
        },
    }
}

pub open spec fn with_text(at: Step, delta: JsonView) -> Step {
    match json::str_at(delta, "content"@) {
        None => at,
        Some(text) => if text.len() == 0 {
            at
        } else {
            let state = match at.0.text_block {
                Some(_) => at.0,
                None => ChatStreamView { text_block: Some(at.0.next_block), ..with_next(at.0) },
            };
            (state, at.1.push(StreamEventView::TextDelta { block: state.text_block->0, text }))
        },
    }
}

/// The place of the call with the wire's index, from the `i`th on.
pub open spec fn slot_of(tools: Seq<ToolView>, wire_index: u64, i: int) -> int
    decreases tools.len() - i,
{
    if i < 0 || i >= tools.len() || tools[i].wire_index == wire_index {
        i
    } else {
        slot_of(tools, wire_index, i + 1)
    }
}

/// The text that was known, or else what came.
pub open spec fn known_or(known: Seq<char>, came: Option<Seq<char>>) -> Seq<char> {
    match came {
        Some(came) => if known.len() == 0 {
            came
        } else {
            known
        },
        None => known,
    }
}

/// One fragment of a call. A later one may still be the first to carry the id or
/// the name.
pub open spec fn with_fragment(at: Step, call: JsonView) -> Step {
    let wire_index = json::count_in(json::member(call, "index"@));
    let function = json::at(call, "function"@);
    let slot = slot_of(at.0.tools, wire_index, 0);
    let fresh = slot >= at.0.tools.len();
    let known = if fresh {
        ToolView {
            wire_index,
            block: at.0.next_block,
            id: Seq::empty(),
            name: Seq::empty(),
        }
    } else {
        at.0.tools[slot]
    };
    let tool = ToolView {
        id: known_or(known.id, json::str_at(call, "id"@)),
        name: known_or(known.name, json::str_at(function, "name"@)),
        ..known
    };
    (
        if fresh {
            ChatStreamView { tools: at.0.tools.push(tool), ..with_next(at.0) }
        } else {
            ChatStreamView { tools: at.0.tools.update(slot, tool), ..at.0 }
        },
        at.1.push(
            StreamEventView::ToolCallDelta {
                block: tool.block,
                id: tool.id,
                provider_id: None,
                name: tool.name,
                arguments_fragment: json::text_or_empty(function, "arguments"@),
            },
        ),
    )
}

pub open spec fn with_fragments(at: Step, calls: Seq<JsonView>, i: int) -> Step
    decreases calls.len() - i,
{
    if i < 0 || i >= calls.len() {
        at
    } else {
        with_fragments(with_fragment(at, calls[i]), calls, i + 1)
    }
}

pub open spec fn with_delta(at: Step, delta: JsonView) -> Step {
    with_fragments(
        with_text(with_reasoning(at, delta), delta),
        json::items_in(json::member(delta, "tool_calls"@)),
        0,
    )
}

pub open spec fn with_finish(at: Step, choice: JsonView) -> Step {
    match json::str_at(choice, "finish_reason"@) {
        Some(finish) => (
            ChatStreamView { stop: Some(decode::stop_of(Some(finish))), ..at.0 },
            at.1,
        ),
        None => at,
    }
}

pub open spec fn with_choice(at: Step, choice: JsonView) -> Step {
    with_finish(with_delta(at, json::at(choice, "delta"@)), choice)
}

/// One event.
pub open spec fn with_root(at: Step, root: JsonView) -> Step {
    let begun = with_usage(with_start(with_inference(at, root), root), root);
    match decode::first_choice(root) {
        Some(choice) => with_choice(begun, choice),
        None => begun,
    }
}

/// A step as the outcome of a frame.
pub open spec fn outcome(at: Step) -> (ChatStreamView, Decoded) {
    (at.0, Ok(at.1))
}

fn keep_known(known: &mut String, came: Option<&str>)
    ensures
        final(known)@ == known_or(old(known)@, came.deep_view()),
{
    if let Some(came) = came {
        if text::is_empty(known) {
            *known = came.to_owned();
        }
    }
}

impl OpenAiStreamDecoder {
    pub fn configured(context: &CodecContext) -> (decoder: Self)
        ensures
            decoder@ == chat_start(*context),
    {
        let decoder = OpenAiStreamDecoder {
            inference: StreamInference::new(context),
            separate: decode::separate_reasoning(&context.profile),
            started: false,
            next_block: 0,
            text_block: None,
            reasoning_block: None,
            tools: Vec::new(),
            usage_raw: None,
            stop: None,
            done: false,
        };
        assert(decoder@.tools =~= Seq::empty());
        decoder
    }

    fn report(&self) -> (report: UsageReport)
        ensures
            report@ == usage_so_far(self@),
    {
        let report = decode::report(self.usage_raw.as_ref(), self.separate);
        UsageReport { reported: report.reported, complete: report.complete && self.done }
    }

    fn finish_into(&mut self, out: &mut Vec<StreamEvent>)
        ensures
            (final(self)@, final(out).deep_view()) == ended((old(self)@, old(out).deep_view())),
    {
        if self.done {
            return;
        }
        self.done = true;
        let stop_reason = match &self.stop {
            Some(reason) => reason.dup(),
            None => StopReason::EndTurn,
        };
        out.push(
            StreamEvent::End {
                stop_reason,
                usage: self.report(),
                inference: self.inference.report.dup(),
            },
        );
    }

    fn start(&mut self, root: &Json, out: &mut Vec<StreamEvent>)
        ensures
            (final(self)@, final(out).deep_view()) == with_start(
                (old(self)@, old(out).deep_view()),
                root@,
            ),
    {
        if !self.started {
            self.started = true;
            out.push(
                StreamEvent::Start { model: json::text_at(root, "model"), response_id: None },
            );
        }
    }

    fn reasoning(&mut self, delta: &Json, out: &mut Vec<StreamEvent>)
        ensures
            (final(self)@, final(out).deep_view()) == with_reasoning(
                (old(self)@, old(out).deep_view()),
                delta@,
            ),
    {
        if let Some(text) = delta.str_at("reasoning_content") {
            let block = match self.reasoning_block {
                Some(block) => block,
                None => {
                    let block = self.next_block;
                    self.next_block = block.saturating_add(1);
                    self.reasoning_block = Some(block);
                    block
                },
            };
            out.push(StreamEvent::ReasoningDelta { block, text: text.to_owned() });
        }
    }

    fn text(&mut self, delta: &Json, out: &mut Vec<StreamEvent>)
        ensures
            (final(self)@, final(out).deep_view()) == with_text(
                (old(self)@, old(out).deep_view()),
                delta@,
            ),
    {
        if let Some(text) = delta.str_at("content") {
            if !text::is_empty(text) {
                let block = match self.text_block {
                    Some(block) => block,
                    None => {
                        let block = self.next_block;
                        self.next_block = block.saturating_add(1);
                        self.text_block = Some(block);
                        block
                    },
                };
                out.push(StreamEvent::TextDelta { block, text: text.to_owned() });
            }
        }
    }

    fn find_slot(&self, wire_index: u64) -> (slot: usize)
        ensures
            slot == slot_of(self@.tools, wire_index, 0),
            slot <= self@.tools.len(),
    {
        let mut i: usize = 0;
        while i < self.tools.len()
            invariant
                i <= self.tools.len(),
                slot_of(self@.tools, wire_index, 0) == slot_of(self@.tools, wire_index, i as int),
            decreases self.tools.len() - i,
        {
            assert(self@.tools[i as int] == self.tools@[i as int].deep_view());
            if self.tools[i].wire_index == wire_index {
                return i;
            }
            i = i + 1;
        }
        i
    }

    fn tool_fragment(&mut self, call: &Json, out: &mut Vec<StreamEvent>)
        ensures
            (final(self)@, final(out).deep_view()) == with_fragment(
                (old(self)@, old(out).deep_view()),
                call@,
            ),
    {
        let ghost before = self@;
        let wire_index = json::count(call.get("index"));
        let none = Json::Null;
        let function = match call.get("function") {
            Some(function) => function,
            None => &none,
        };
        let slot = self.find_slot(wire_index);
        let mut tool = ToolStream {
            wire_index,
            block: self.next_block,
            id: String::new(),
            name: String::new(),
        };
        if slot < self.tools.len() {
            assert(before.tools[slot as int] == self.tools@[slot as int].deep_view());
            tool.block = self.tools[slot].block;
            tool.id = self.tools[slot].id.clone();
            tool.name = self.tools[slot].name.clone();
            assert(tool.deep_view() == before.tools[slot as int]) by {
                self.lemma_slot(wire_index, 0);
            }
        } else {
            assert(tool.id@ =~= Seq::empty());
        }
        keep_known(&mut tool.id, call.str_at("id"));
        keep_known(&mut tool.name, function.str_at("name"));
        out.push(
            StreamEvent::ToolCallDelta {
                block: tool.block,
                id: tool.id.clone(),
                provider_id: None,
                name: tool.name.clone(),
                arguments_fragment: json::text_at(function, "arguments"),
            },
        );
        let ghost kept = tool.deep_view();
        if slot < self.tools.len() {
            self.tools.set(slot, tool);
            assert(self@.tools =~= before.tools.update(slot as int, kept));
        } else {
            self.next_block = self.next_block.saturating_add(1);
            self.tools.push(tool);
        }
    }

    proof fn lemma_slot(&self, wire_index: u64, i: int)
        requires
            0 <= i,
        ensures
            slot_of(self@.tools, wire_index, i) < self@.tools.len() ==> 0 <= slot_of(
                self@.tools,
                wire_index,
                i,
            ) && self@.tools[slot_of(self@.tools, wire_index, i)].wire_index == wire_index,
        decreases self@.tools.len() - i,
    {
        if i < self@.tools.len() && self@.tools[i].wire_index != wire_index {
            self.lemma_slot(wire_index, i + 1);
        }
    }

    fn fragments(&mut self, calls: &Vec<Json>, out: &mut Vec<StreamEvent>)
        ensures
            (final(self)@, final(out).deep_view()) == with_fragments(
                (old(self)@, old(out).deep_view()),
                calls.deep_view(),
                0,
            ),
    {
        let ghost first = (self@, out.deep_view());
        let mut i: usize = 0;
        while i < calls.len()
            invariant
                i <= calls.len(),
                with_fragments(first, calls.deep_view(), 0) == with_fragments(
                    (self@, out.deep_view()),
                    calls.deep_view(),
                    i as int,
                ),
            decreases calls.len() - i,
        {
            assert(calls.deep_view()[i as int] == calls@[i as int]@);
            self.tool_fragment(&calls[i], out);
            i = i + 1;
        }
    }

    fn choice(&mut self, choice: &Json, out: &mut Vec<StreamEvent>)
        ensures
            (final(self)@, final(out).deep_view()) == with_choice(
                (old(self)@, old(out).deep_view()),
                choice@,
            ),
    {
        let none = Json::Null;
        let delta = match choice.get("delta") {
            Some(delta) => delta,
            None => &none,
        };
        self.reasoning(delta, out);
        self.text(delta, out);
        if let Some(calls) = web_search_decode::items_of(delta.get("tool_calls")) {
            self.fragments(calls, out);
        }
        if let Some(finish) = choice.str_at("finish_reason") {
            self.stop = Some(decode::stop_reason(Some(finish)));
        }
    }

    fn event(&mut self, root: &Json, out: &mut Vec<StreamEvent>)
        ensures
            (final(self)@, final(out).deep_view()) == with_root(
                (old(self)@, old(out).deep_view()),
                root@,
            ),
    {
        self.inference.observe(root, out);
        self.start(root, out);
        if let Some(usage) = decode::find_usage(root) {
            if !json::is_null(Some(usage)) {
                self.usage_raw = Some(usage.dup());
            }
        }
        if let Some(choice) = decode::find_choice(root) {
            self.choice(choice, out);
        }
    }
}

impl EventDecoder for OpenAiStreamDecoder {
    open spec fn frame_step(state: ChatStreamView, frame: Seq<u8>) -> (ChatStreamView, Decoded) {
        match stream::framed(
            frame,
            "OpenAI stream frame is not valid UTF-8"@,
            "OpenAI stream frame is not valid JSON"@,
        ) {
            Err(error) => (state, Err(error)),
            Ok(FrameView::Blank) => outcome((state, Seq::empty())),
            Ok(FrameView::Sentinel) => outcome(ended((state, Seq::empty()))),
            Ok(FrameView::Root(root)) => outcome(with_root((state, Seq::empty()), root)),
        }
    }

    open spec fn finish_step(state: ChatStreamView) -> (ChatStreamView, Decoded) {
        outcome(ended((state, Seq::empty())))
    }

    open spec fn headers_step(state: ChatStreamView, headers: HeaderViews) -> ChatStreamView {
        ChatStreamView {
            inference: inference::headers_seen(state.inference, headers),
            ..state
        }
    }

    open spec fn report_of(state: ChatStreamView) -> InferenceReportView {
        state.inference.report
    }

    open spec fn usage_of(state: ChatStreamView) -> UsageReportView {
        usage_so_far(state)
    }

    fn decode_frame(&mut self, frame: &[u8]) -> (result: Result<Vec<StreamEvent>, LlmError>) {
        let read = stream::read_frame(
            frame,
            "OpenAI stream frame is not valid UTF-8",
            "OpenAI stream frame is not valid JSON",
        )?;
        let mut out: Vec<StreamEvent> = Vec::new();
        match read {
            Frame::Blank => {},
            Frame::Sentinel => self.finish_into(&mut out),
            Frame::Root(root) => self.event(&root, &mut out),
        }
        Ok(out)
    }

    fn finish(&mut self) -> (result: Result<Vec<StreamEvent>, LlmError>) {
        let mut out: Vec<StreamEvent> = Vec::new();
        self.finish_into(&mut out);
        Ok(out)
    }

    fn set_response_headers(&mut self, headers: &Vec<(String, String)>) {
        self.inference.headers(headers);
    }

    fn inference_report(&self) -> (report: InferenceReport) {
        self.inference.report.dup()
    }

    fn usage_report(&self) -> (report: UsageReport) {
        self.report()
    }
}

/// The terminal event comes once: after it, neither the sentinel nor the end of
/// the bytes adds anything.
pub proof fn the_end_comes_once(state: ChatStreamView)
    ensures
        ({
            let (after, first) = OpenAiStreamDecoder::finish_step(state);
            &&& after.done
            &&& OpenAiStreamDecoder::finish_step(after) == (after, Ok::<
                Seq<StreamEventView>,
                crate::protocol::LlmErrorView,
            >(Seq::empty()))
        }),
{
}

/// Between two steps there is an opening event where the stream began, a terminal one
/// where it ended, and no other of either.
spec fn counted(a: Step, b: Step) -> bool {
    &&& stream::ends(b.1) + stream::one(a.0.done) == stream::ends(a.1) + stream::one(b.0.done)
    &&& stream::starts(b.1) + stream::one(a.0.started) == stream::starts(a.1) + stream::one(
        b.0.started,
    )
}

proof fn lemma_ended_counted(at: Step)
    ensures
        counted(at, ended(at)),
{
    if !at.0.done {
        stream::lemma_event(at.1, ended(at).1.last());
        assert(ended(at).1 =~= at.1.push(ended(at).1.last()));
    }
}

proof fn lemma_fragments_counted(at: Step, calls: Seq<JsonView>, i: int)
    ensures
        counted(at, with_fragments(at, calls, i)),
    decreases calls.len() - i,
{
    if 0 <= i < calls.len() {
        let next = with_fragment(at, calls[i]);
        stream::lemma_event(at.1, next.1.last());
        assert(next.1 =~= at.1.push(next.1.last()));
        lemma_fragments_counted(next, calls, i + 1);
    }
}

proof fn lemma_delta_counted(at: Step, delta: JsonView)
    ensures
        counted(at, with_delta(at, delta)),
{
    let reasoned = with_reasoning(at, delta);
    if let Some(_) = json::str_at(delta, "reasoning_content"@) {
        stream::lemma_event(at.1, reasoned.1.last());
        assert(reasoned.1 =~= at.1.push(reasoned.1.last()));
    }
    let texted = with_text(reasoned, delta);
    if let Some(text) = json::str_at(delta, "content"@) {
        if text.len() > 0 {
            stream::lemma_event(reasoned.1, texted.1.last());
            assert(texted.1 =~= reasoned.1.push(texted.1.last()));
        }
    }
    lemma_fragments_counted(texted, json::items_in(json::member(delta, "tool_calls"@)), 0);
}

proof fn lemma_root_counted(at: Step, root: JsonView)
    ensures
        counted(at, with_root(at, root)),
{
    let next = inference::stream_observed(at.0.inference, root);
    stream::lemma_events(at.1, inference::report_events(at.0.inference.report, next.report));
    let observed = with_inference(at, root);
    let opened = with_start(observed, root);
    if !observed.0.started {
        stream::lemma_event(observed.1, opened.1.last());
        assert(opened.1 =~= observed.1.push(opened.1.last()));
    }
    let begun = with_usage(opened, root);
    if let Some(choice) = decode::first_choice(root) {
        lemma_delta_counted(begun, json::at(choice, "delta"@));
    }
}

proof fn lemma_frame_counted(state: ChatStreamView, frame: Seq<u8>)
    ensures
        ({
            let (after, result) = OpenAiStreamDecoder::frame_step(state, frame);
            &&& result matches Ok(events) ==> counted((state, Seq::empty()), (after, events))
            &&& result is Err ==> after == state
        }),
{
    let at: Step = (state, Seq::empty());
    if let Ok(read) = stream::framed(
        frame,
        "OpenAI stream frame is not valid UTF-8"@,
        "OpenAI stream frame is not valid JSON"@,
    ) {
        match read {
            FrameView::Blank => {},
            FrameView::Sentinel => {
                lemma_ended_counted(at);
            },
            FrameView::Root(root) => {
                lemma_root_counted(at, root);
            },
        }
    }
}

proof fn lemma_frames_counted(
    state: ChatStreamView,
    events: Seq<StreamEventView>,
    frames: Seq<Seq<u8>>,
    i: int,
)
    ensures
        counted(
            (state, events),
            stream::after_frames::<OpenAiStreamDecoder>(state, events, frames, i),
        ),
    decreases frames.len() - i,
{
    if 0 <= i < frames.len() {
        lemma_frame_counted(state, frames[i]);
        let (after, result) = OpenAiStreamDecoder::frame_step(state, frames[i]);
        let next = match result {
            Ok(more) => {
                stream::lemma_joined(events, more);
                events + more
            },
            Err(_) => events,
        };
        lemma_frames_counted(after, next, frames, i + 1);
    }
}

/// Over its whole life a decoder gives one opening event at most, and one terminal
/// event at most.
pub proof fn a_stream_starts_and_ends_once(context: CodecContext, frames: Seq<Seq<u8>>)
    ensures
        ({
            let at = stream::after_frames::<OpenAiStreamDecoder>(
                chat_start(context),
                Seq::empty(),
                frames,
                0,
            );
            &&& stream::ends(at.1) <= 1
            &&& stream::starts(at.1) <= 1
            &&& OpenAiStreamDecoder::finish_step(at.0).1 matches Ok(more) ==> stream::ends(at.1 + more) <= 1
                && stream::starts(at.1 + more) <= 1
        }),
{
    lemma_frames_counted(chat_start(context), Seq::empty(), frames, 0);
    let at = stream::after_frames::<OpenAiStreamDecoder>(chat_start(context), Seq::empty(), frames, 0);
    lemma_ended_counted((at.0, Seq::empty()));
    if let Ok(more) = OpenAiStreamDecoder::finish_step(at.0).1 {
        stream::lemma_joined(at.1, more);
    }
}

} // verus!
