//! The stream decoder. This wire names its own block indices: the start of a block
//! carries the index, and every delta refers back to it.
//!
//! Search metadata holds the untouched start, delta and stop frames under
//! `events`. In order, and with the deltas combined by index, they rebuild the
//! native blocks.

use crate::codecs::anthropic::decode;
use crate::codecs::extras::HeaderViews;
use crate::codecs::inference::{self, StreamInference, StreamInferenceView};
use crate::codecs::openai::chat;
use crate::codecs::stream::{self, Frame, FrameView};
use crate::codecs::usage;
use crate::codecs::web_search_decode;
use crate::codecs::{CodecContext, Decoded, EventDecoder};
use crate::json::{self, Entries, Json, JsonView};
use crate::protocol::error;
use crate::protocol::{
    ContentBlock, ContentBlockView, InferenceReport, InferenceReportView, LlmError, LlmErrorView,
    ProtocolFamily, StopReason, StopReasonView, StreamEvent, StreamEventView, UsageReport,
    UsageReportView,
};
use crate::text;
use crate::views;
use vstd::prelude::*;

verus! {

broadcast use {crate::views::group_views, crate::json::group_json};

/// A tool call that a block opened: only the opening frame carries its id and name.
pub struct Tool {
    pub block: u64,
    pub id: String,
    pub name: String,
}

pub struct ToolView {
    pub block: u64,
    pub id: Seq<char>,
    pub name: Seq<char>,
}

impl DeepView for Tool {
    type V = ToolView;

    open spec fn deep_view(&self) -> ToolView {
        ToolView { block: self.block, id: self.id@, name: self.name@ }
    }
}

/// An open block of a type that this library does not model, with the argument
/// text so far.
pub struct Native {
    pub block: u64,
    pub value: Vec<(String, Json)>,
    pub arguments: String,
}

pub struct NativeView {
    pub block: u64,
    pub value: Entries,
    pub arguments: Seq<char>,
}

impl DeepView for Native {
    type V = NativeView;

    open spec fn deep_view(&self) -> NativeView {
        NativeView {
            block: self.block,
            value: self.value.deep_view(),
            arguments: self.arguments@,
        }
    }
}

pub struct AnthropicStreamDecoder {
    inference: StreamInference,
    tools: Vec<Tool>,
    usage_raw: Option<Json>,
    final_output_count_reported: bool,
    stop: Option<StopReason>,
    done: bool,
    search_blocks: Vec<u64>,
    native_blocks: Vec<Native>,
}

pub struct AnthropicStreamView {
    pub inference: StreamInferenceView,
    pub tools: Seq<ToolView>,
    /// The usage object, folded over the frames that report it: a later report
    /// restates only some counters.
    pub usage_raw: Option<JsonView>,
    /// The output count is final only where the end of the message states it.
    pub final_output_count_reported: bool,
    pub stop: Option<StopReasonView>,
    pub done: bool,
    pub search_blocks: Seq<u64>,
    pub native_blocks: Seq<NativeView>,
}

impl View for AnthropicStreamDecoder {
    type V = AnthropicStreamView;

    closed spec fn view(&self) -> AnthropicStreamView {
        AnthropicStreamView {
            inference: self.inference@,
            tools: self.tools.deep_view(),
            usage_raw: self.usage_raw.deep_view(),
            final_output_count_reported: self.final_output_count_reported,
            stop: self.stop.deep_view(),
            done: self.done,
            search_blocks: self.search_blocks@,
            native_blocks: self.native_blocks.deep_view(),
        }
    }
}

/// The state before anything arrived.
pub open spec fn anthropic_start(context: CodecContext) -> AnthropicStreamView {
    AnthropicStreamView {
        inference: inference::stream_start(context.profile),
        tools: Seq::empty(),
        usage_raw: None,
        final_output_count_reported: false,
        stop: None,
        done: false,
        search_blocks: Seq::empty(),
        native_blocks: Seq::empty(),
    }
}

/// A state with the events so far.
pub type Step = (AnthropicStreamView, Seq<StreamEventView>);

/// A step as the outcome of a frame.
pub open spec fn outcome(at: Step) -> (AnthropicStreamView, Decoded) {
    (at.0, Ok(at.1))
}

/// The report of what was counted.
pub open spec fn usage_so_far(state: AnthropicStreamView) -> UsageReportView {
    decode::report_of(state.usage_raw, state.done && state.final_output_count_reported)
}

/// The terminal event, which comes once.
pub open spec fn ended(at: Step) -> Step {
    let (state, events) = at;
    if state.done {
        at
    } else {
        let state = AnthropicStreamView { done: true, ..state };
        (
            state,
            events.push(
                StreamEventView::End {
                    stop_reason: match state.stop {
                        Some(reason) => reason,
                        None => StopReasonView::EndTurn,
                    },
                    usage: usage_so_far(state),
                    inference: state.inference.report,
                },
            ),
        )
    }
}

/// What the event says of inference.
pub open spec fn with_inference(at: Step, root: JsonView) -> Step {
    let next = inference::stream_observed(at.0.inference, root);
    (
        AnthropicStreamView { inference: next, ..at.0 },
        at.1 + inference::report_events(at.0.inference.report, next.report),
    )
}

/// The block that an event belongs to.
pub open spec fn index_of(root: JsonView) -> u64 {
    json::count_in(json::member(root, "index"@))
}

/// The usage so far with what a frame reports.
pub open spec fn with_usage(at: Step, reported: JsonView) -> Step {
    (
        AnthropicStreamView {
            usage_raw: Some(
                match at.0.usage_raw {
                    Some(seed) => usage::folded(seed, reported),
                    None => reported,
                },
            ),
            ..at.0
        },
        at.1 + web_search_decode::search_events(
            web_search_decode::result_of(
                web_search_decode::with_counters(Seq::empty(), Some(reported)),
            ),
        ),
    )
}

pub open spec fn with_message_start(at: Step, root: JsonView) -> Step {
    let message = json::at(root, "message"@);
    let counted = match chat::decode::usage_in(message) {
        Some(reported) => with_usage(at, reported),
        None => at,
    };
    (
        counted.0,
        counted.1.push(
            StreamEventView::Start {
                model: json::text_or_empty(message, "model"@),
                response_id: json::str_at(message, "id"@),
            },
        ),
    )
}

/// An untouched frame, as search metadata.
pub open spec fn with_search_frame(at: Step, root: JsonView) -> Step {
    (
        at.0,
        at.1 + web_search_decode::search_events(web_search_decode::single("events"@, root)),
    )
}

/// Whether the library models blocks of the type.
pub open spec fn modelled(kind: Seq<char>) -> bool {
    kind == "text"@ || kind == "thinking"@ || kind == "redacted_thinking"@ || kind == "tool_use"@
}

/// The place of the block among the open native ones, from the `i`th on.
pub open spec fn native_place(natives: Seq<NativeView>, block: u64, i: int) -> int
    decreases natives.len() - i,
{
    if i < 0 || i >= natives.len() || natives[i].block == block {
        i
    } else {
        native_place(natives, block, i + 1)
    }
}

/// The open native blocks with one more, in place of an open one of its index.
pub open spec fn with_native(natives: Seq<NativeView>, native: NativeView) -> Seq<NativeView> {
    let place = native_place(natives, native.block, 0);
    if place < natives.len() {
        natives.update(place, native)
    } else {
        natives.push(native)
    }
}

/// The open native block of the index.
pub open spec fn native_of(natives: Seq<NativeView>, block: u64) -> Option<NativeView> {
    let place = native_place(natives, block, 0);
    if place < natives.len() {
        Some(natives[place])
    } else {
        None
    }
}

pub open spec fn with_native_start(at: Step, root: JsonView) -> Step {
    match (json::at(root, "content_block"@), json::str_at(
        json::at(root, "content_block"@),
        "type"@,
    )) {
        (JsonView::Object(value), Some(kind)) => if modelled(kind) {
            at
        } else {
            (
                AnthropicStreamView {
                    native_blocks: with_native(
                        at.0.native_blocks,
                        NativeView { block: index_of(root), value, arguments: Seq::empty() },
                    ),
                    ..at.0
                },
                at.1,
            )
        },
        _ => at,
    }
}

pub open spec fn with_search_start(at: Step, root: JsonView) -> Step {
    let block = json::at(root, "content_block"@);
    let noted = if web_search_decode::search_block(block) {
        (
            AnthropicStreamView {
                search_blocks: at.0.search_blocks.push(index_of(root)),
                ..at.0
            },
            at.1,
        )
    } else {
        at
    };
    if web_search_decode::searched(block) {
        with_search_frame(noted, root)
    } else {
        noted
    }
}

pub open spec fn with_redacted(at: Step, root: JsonView) -> Step {
    let block = json::at(root, "content_block"@);
    match decode::block_of(block) {
        Some(ContentBlockView::RedactedThinking { data }) => if json::is_kind(
            block,
            "redacted_thinking"@,
        ) {
            (
                at.0,
                at.1.push(StreamEventView::RedactedThinking { block: index_of(root), data }),
            )
        } else {
            at
        },
        _ => at,
    }
}

pub open spec fn with_tool(at: Step, root: JsonView) -> Step {
    let block = json::at(root, "content_block"@);
    if json::is_kind(block, "tool_use"@) {
        let tool = ToolView {
            block: index_of(root),
            id: json::text_or_empty(block, "id"@),
            name: json::text_or_empty(block, "name"@),
        };
        (
            AnthropicStreamView { tools: at.0.tools.push(tool), ..at.0 },
            at.1.push(
                StreamEventView::ToolCallDelta {
                    block: tool.block,
                    id: tool.id,
                    provider_id: None,
                    name: tool.name,
                    arguments_fragment: Seq::empty(),
                },
            ),
        )
    } else {
        at
    }
}

pub open spec fn with_block_start(at: Step, root: JsonView) -> Step {
    with_tool(with_redacted(with_search_start(with_native_start(at, root), root), root), root)
}

/// A native block after a delta: argument text is collected, a signature and
/// connector text become part of the block.
pub open spec fn native_after(native: NativeView, delta: JsonView) -> NativeView {
    if json::is_kind(delta, "input_json_delta"@) {
        NativeView {
            arguments: native.arguments + json::text_or_empty(delta, "partial_json"@),
            ..native
        }
    } else if json::is_kind(delta, "signature_delta"@) {
        NativeView {
            value: json::put(native.value, "signature"@, json::at(delta, "signature"@)),
            ..native
        }
    } else if json::is_kind(delta, "connector_text_delta"@) {
        NativeView {
            value: json::put(
                native.value,
                "connector_text"@,
                JsonView::Str(
                    json::text_or_empty(JsonView::Object(native.value), "connector_text"@)
                        + json::text_or_empty(delta, "connector_text"@),
                ),
            ),
            ..native
        }
    } else {
        native
    }
}

pub open spec fn with_native_delta(at: Step, block: u64, delta: JsonView) -> Step {
    match native_of(at.0.native_blocks, block) {
        Some(native) => (
            AnthropicStreamView {
                native_blocks: at.0.native_blocks.update(
                    native_place(at.0.native_blocks, block, 0),
                    native_after(native, delta),
                ),
                ..at.0
            },
            at.1,
        ),
        None => at,
    }
}

/// Whether a delta cites a search result.
pub open spec fn cites(delta: JsonView) -> bool {
    json::is_kind(delta, "citations_delta"@) && json::is_kind(
        json::at(delta, "citation"@),
        "web_search_result_location"@,
    )
}

pub open spec fn with_search_delta(at: Step, root: JsonView) -> Step {
    if at.0.search_blocks.contains(index_of(root)) || cites(json::at(root, "delta"@)) {
        with_search_frame(at, root)
    } else {
        at
    }
}

pub open spec fn with_raw_delta(at: Step, block: u64, delta: JsonView) -> Step {
    if json::is_kind(delta, "citations_delta"@) || json::is_kind(
        delta,
        "connector_text_delta"@,
    ) {
        (
            at.0,
            at.1.push(
                StreamEventView::NativeDelta {
                    block,
                    protocol: ProtocolFamily::AnthropicMessages,
                    delta,
                },
            ),
        )
    } else {
        at
    }
}

/// The first call of the block, from the `i`th on.
pub open spec fn tool_of(tools: Seq<ToolView>, block: u64, i: int) -> Option<ToolView>
    decreases tools.len() - i,
{
    if i < 0 || i >= tools.len() {
        None
    } else if tools[i].block == block {
        Some(tools[i])
    } else {
        tool_of(tools, block, i + 1)
    }
}

/// The event that a delta makes, if it makes one; an unknown type makes none.
pub open spec fn delta_event(state: AnthropicStreamView, block: u64, delta: JsonView) -> Option<
    StreamEventView,
> {
    if json::is_kind(delta, "text_delta"@) {
        Some(StreamEventView::TextDelta { block, text: json::text_or_empty(delta, "text"@) })
    } else if json::is_kind(delta, "thinking_delta"@) {
        Some(
            StreamEventView::ReasoningDelta { block, text: json::text_or_empty(delta, "thinking"@) },
        )
    } else if json::is_kind(delta, "signature_delta"@) {
        if native_of(state.native_blocks, block) is Some {
            None
        } else {
            Some(
                StreamEventView::ThoughtSignature {
                    block,
                    signature: json::text_or_empty(delta, "signature"@),
                },
            )
        }
    } else if json::is_kind(delta, "input_json_delta"@) {
        match tool_of(state.tools, block, 0) {
            Some(tool) => Some(
                StreamEventView::ToolCallDelta {
                    block,
                    id: tool.id,
                    provider_id: None,
                    name: tool.name,
                    arguments_fragment: json::text_or_empty(delta, "partial_json"@),
                },
            ),
            None => None,
        }
    } else {
        None
    }
}

pub open spec fn with_block_delta(at: Step, root: JsonView) -> Step {
    let block = index_of(root);
    let delta = json::at(root, "delta"@);
    let shown = with_raw_delta(
        with_search_delta(with_native_delta(at, block, delta), root),
        block,
        delta,
    );
    match delta_event(shown.0, block, delta) {
        Some(event) => (shown.0, shown.1.push(event)),
        None => shown,
    }
}

/// A native block that is over, with its arguments parsed into it.
pub open spec fn native_value(native: NativeView) -> Result<Entries, LlmErrorView> {
    if native.arguments.len() == 0 {
        Ok(native.value)
    } else {
        match json::parsed(vstd::utf8::encode_utf8(native.arguments)) {
            Ok(input) => Ok(json::put(native.value, "input"@, input)),
            Err(_) => Err(
                error::invalid_view("provider returned malformed native tool arguments"@),
            ),
        }
    }
}

/// The end of the block itself, with the frame where it belongs to a search.
pub open spec fn with_block_end(at: Step, root: JsonView) -> Step {
    let block = index_of(root);
    let closed = (at.0, at.1.push(StreamEventView::BlockEnd { block }));
    if at.0.search_blocks.contains(block) {
        with_search_frame(closed, root)
    } else {
        closed
    }
}

pub open spec fn with_block_stop(at: Step, root: JsonView) -> (AnthropicStreamView, Decoded) {
    let block = index_of(root);
    match native_of(at.0.native_blocks, block) {
        None => outcome(with_block_end(at, root)),
        Some(native) => {
            let state = AnthropicStreamView {
                native_blocks: at.0.native_blocks.remove(
                    native_place(at.0.native_blocks, block, 0),
                ),
                ..at.0
            };
            match native_value(native) {
                Err(error) => (state, Err(error)),
                Ok(value) => outcome(
                    with_block_end(
                        (
                            state,
                            at.1.push(
                                StreamEventView::ProviderContent {
                                    block,
                                    protocol: ProtocolFamily::AnthropicMessages,
                                    value: JsonView::Object(value),
                                },
                            ),
                        ),
                        root,
                    ),
                ),
            }
        },
    }
}

pub open spec fn with_message_delta(at: Step, root: JsonView) -> Step {
    let stopped = match json::str_in(json::member2(root, "delta"@, "stop_reason"@)) {
        Some(reason) => (
            AnthropicStreamView { stop: Some(decode::stop_of(Some(reason))), ..at.0 },
            at.1,
        ),
        None => at,
    };
    match chat::decode::usage_in(root) {
        Some(reported) => with_usage(
            (
                AnthropicStreamView {
                    final_output_count_reported: stopped.0.final_output_count_reported
                        || usage::counter_of(reported, "output_tokens"@) is Some,
                    ..stopped.0
                },
                stopped.1,
            ),
            reported,
        ),
        None => stopped,
    }
}

/// One event, by its type; an unknown one is ignored.
pub open spec fn with_kind(at: Step, kind: Seq<char>, root: JsonView) -> (
    AnthropicStreamView,
    Decoded,
) {
    if kind == "message_start"@ {
        outcome(with_message_start(at, root))
    } else if kind == "content_block_start"@ {
        outcome(with_block_start(at, root))
    } else if kind == "content_block_delta"@ {
        outcome(with_block_delta(at, root))
    } else if kind == "content_block_stop"@ {
        with_block_stop(at, root)
    } else if kind == "message_delta"@ {
        outcome(with_message_delta(at, root))
    } else if kind == "message_stop"@ {
        outcome(ended(at))
    } else if kind == "error"@ {
        (at.0, Err(decode::classified(500, root, None)))
    } else {
        outcome(at)
    }
}

pub open spec fn with_root(at: Step, root: JsonView) -> (AnthropicStreamView, Decoded) {
    let observed = with_inference(at, root);
    match json::str_at(root, "type"@) {
        Some(kind) => with_kind(observed, kind, root),
        None => outcome(observed),
    }
}

pub open spec fn no_json() -> LlmErrorView {
    error::invalid_view("stream frame is not valid JSON"@)
}

pub open spec fn interrupted() -> LlmErrorView {
    LlmErrorView::StreamInterrupted {
        message: "provider stream ended before a terminal event"@,
    }
}

impl AnthropicStreamDecoder {
    pub fn configured(context: &CodecContext) -> (decoder: Self)
        ensures
            decoder@ == anthropic_start(*context),
    {
        let decoder = AnthropicStreamDecoder {
            inference: StreamInference::new(context),
            tools: Vec::new(),
            usage_raw: None,
            final_output_count_reported: false,
            stop: None,
            done: false,
            search_blocks: Vec::new(),
            native_blocks: Vec::new(),
        };
        assert(decoder@.tools =~= Seq::empty());
        assert(decoder@.native_blocks =~= Seq::empty());
        decoder
    }

    fn report(&self) -> (report: UsageReport)
        ensures
            report@ == usage_so_far(self@),
    {
        decode::report(self.usage_raw.as_ref(), self.done && self.final_output_count_reported)
    }

    fn finish_into(&mut self, out: &mut Vec<StreamEvent>)
        ensures
            (final(self)@, final(out).deep_view()) == ended((old(self)@, old(out).deep_view())),
    {
        if self.done {
            return;
        }
        self.done = true;
        let stop_reason = match &self.stop {
            Some(reason) => reason.dup(),
            None => StopReason::EndTurn,
        };
        out.push(
            StreamEvent::End {
                stop_reason,
                usage: self.report(),
                inference: self.inference.report.dup(),
            },
        );
    }

    /// Folds one frame's usage over what earlier frames reported.
    fn fold_usage(&mut self, reported: &Json, out: &mut Vec<StreamEvent>)
        ensures
            (final(self)@, final(out).deep_view()) == with_usage(
                (old(self)@, old(out).deep_view()),
                reported@,
            ),
    {
        let mut held: Option<Json> = None;
        std::mem::swap(&mut held, &mut self.usage_raw);
        let folded = match held {
            Some(seed) => usage::fold(seed, reported),
            None => reported.dup(),
        };
        self.usage_raw = Some(folded);
        web_search_decode::push_search(
            web_search_decode::with_usage(None, Some(reported)),
            out,
        );
    }

    fn message_start(&mut self, root: &Json, out: &mut Vec<StreamEvent>)
        ensures
            (final(self)@, final(out).deep_view()) == with_message_start(
                (old(self)@, old(out).deep_view()),
                root@,
            ),
    {
        let none = Json::Null;
        let message = json::member_or(root, "message", &none);
        if let Some(reported) = chat::decode::find_usage(message) {
            self.fold_usage(reported, out);
        }
        out.push(
            StreamEvent::Start {
                model: json::text_at(message, "model"),
                response_id: json::owned_text_in(message.get("id")),
            },
        );
    }

    fn find_native(&self, block: u64) -> (place: usize)
        ensures
            place == native_place(self@.native_blocks, block, 0),
            place <= self@.native_blocks.len(),
            self@.native_blocks.len() == self.native_blocks@.len(),
    {
        let mut i: usize = 0;
        while i < self.native_blocks.len()
            invariant
                i <= self.native_blocks.len(),
                native_place(self@.native_blocks, block, 0) == native_place(
                    self@.native_blocks,
                    block,
                    i as int,
                ),
            decreases self.native_blocks.len() - i,
        {
            assert(self@.native_blocks[i as int] == self.native_blocks@[i as int].deep_view());
            if self.native_blocks[i].block == block {
                return i;
            }
            i = i + 1;
        }
        i
    }

    fn has_search_block(&self, block: u64) -> (result: bool)
        ensures
            result == self@.search_blocks.contains(block),
    {
        let mut i: usize = 0;
        while i < self.search_blocks.len()
            invariant
                i <= self.search_blocks.len(),
                forall|k: int| 0 <= k < i ==> self@.search_blocks[k] != block,
            decreases self.search_blocks.len() - i,
        {
            if self.search_blocks[i] == block {
                assert(self@.search_blocks[i as int] == block);
                return true;
            }
            i = i + 1;
        }
        false
    }

    fn native_start(&mut self, root: &Json)
        ensures
            forall|events: Seq<StreamEventView>|
                #![trigger with_native_start((old(self)@, events), root@)]
                (final(self)@, events) == with_native_start((old(self)@, events), root@),
    {
        let ghost before = self@;
        let none = Json::Null;
        let block = json::member_or(root, "content_block", &none);
        let unmodelled = match block.str_at("type") {
            Some(kind) => !(text::same(kind, "text") || text::same(kind, "thinking")
                || text::same(kind, "redacted_thinking") || text::same(kind, "tool_use")),
            None => false,
        };
        if let Json::Object(value) = block {
            if unmodelled {
                let index = json::count(root.get("index"));
                let native = Native {
                    block: index,
                    value: json::dup_entries(value),
                    arguments: String::new(),
                };
                assert(native.arguments@ =~= Seq::empty());
                let place = self.find_native(index);
                let ghost view = native.deep_view();
                if place < self.native_blocks.len() {
                    self.native_blocks.set(place, native);
                    assert(self@.native_blocks =~= before.native_blocks.update(
                        place as int,
                        view,
                    ));
                } else {
                    self.native_blocks.push(native);
                }
            }
        }
    }

    fn search_start(&mut self, root: &Json, out: &mut Vec<StreamEvent>)
        ensures
            (final(self)@, final(out).deep_view()) == with_search_start(
                (old(self)@, old(out).deep_view()),
                root@,
            ),
    {
        let none = Json::Null;
        let block = json::member_or(root, "content_block", &none);
        if web_search_decode::is_anthropic_search_block(block) {
            self.search_blocks.push(json::count(root.get("index")));
        }
        if web_search_decode::is_searched(block) {
            web_search_decode::push_search(
                web_search_decode::single_result("events", root.dup()),
                out,
            );
        }
    }

    fn redacted(&mut self, root: &Json, out: &mut Vec<StreamEvent>)
        ensures
            (final(self)@, final(out).deep_view()) == with_redacted(
                (old(self)@, old(out).deep_view()),
                root@,
            ),
    {
        let none = Json::Null;
        let block = json::member_or(root, "content_block", &none);
        if json::kind_is(block, "redacted_thinking") {
            if let Some(ContentBlock::RedactedThinking { data }) = decode::decode_block(block) {
                out.push(
                    StreamEvent::RedactedThinking { block: json::count(root.get("index")), data },
                );
            }
        }
    }

    fn tool(&mut self, root: &Json, out: &mut Vec<StreamEvent>)
        ensures
            (final(self)@, final(out).deep_view()) == with_tool(
                (old(self)@, old(out).deep_view()),
                root@,
            ),
    {
        let none = Json::Null;
        let block = json::member_or(root, "content_block", &none);
        if json::kind_is(block, "tool_use") {
            let index = json::count(root.get("index"));
            let id = json::text_at(block, "id");
            let name = json::text_at(block, "name");
            self.tools.push(Tool { block: index, id: id.clone(), name: name.clone() });
            let arguments_fragment = String::new();
            assert(arguments_fragment@ =~= Seq::empty());
            out.push(
                StreamEvent::ToolCallDelta {
                    block: index,
                    id,
                    provider_id: None,
                    name,
                    arguments_fragment,
                },
            );
        }
    }

    fn block_start(&mut self, root: &Json, out: &mut Vec<StreamEvent>)
        ensures
            (final(self)@, final(out).deep_view()) == with_block_start(
                (old(self)@, old(out).deep_view()),
                root@,
            ),
    {
        let ghost first = (self@, out.deep_view());
        self.native_start(root);
        assert((self@, out.deep_view()) == with_native_start(first, root@));
        self.search_start(root, out);
        self.redacted(root, out);
        self.tool(root, out);
    }

    fn native_delta(&mut self, block: u64, delta: &Json)
        ensures
            forall|events: Seq<StreamEventView>|
                #![trigger with_native_delta((old(self)@, events), block, delta@)]
                (final(self)@, events) == with_native_delta(
                    (old(self)@, events),
                    block,
                    delta@,
                ),
    {
        let ghost before = self@;
        let place = self.find_native(block);
        if place >= self.native_blocks.len() {
            return;
        }
        assert(before.native_blocks[place as int] == self.native_blocks@[place as int].deep_view());
        let mut value = json::dup_entries(&self.native_blocks[place].value);
        let mut arguments = self.native_blocks[place].arguments.clone();
        let index = self.native_blocks[place].block;
        if json::kind_is(delta, "input_json_delta") {
            arguments.append(&json::text_at(delta, "partial_json"));
        } else if json::kind_is(delta, "signature_delta") {
            json::set(&mut value, "signature", json::member_or_null(delta, "signature"));
        } else if json::kind_is(delta, "connector_text_delta") {
            let held = match json::text_in(json::find(&value, "connector_text")) {
                Some(text) => text.to_owned(),
                None => String::new(),
            };
            assert(held@ =~= json::text_or_empty(
                JsonView::Object(value.deep_view()),
                "connector_text"@,
            ));
            let text = text::cat2(&held, &json::text_at(delta, "connector_text"));
            json::set(&mut value, "connector_text", Json::Str(text));
        }
        let native = Native { block: index, value, arguments };
        let ghost view = native.deep_view();
        assert(view == native_after(before.native_blocks[place as int], delta@));
        self.native_blocks.set(place, native);
        assert(self@.native_blocks =~= before.native_blocks.update(place as int, view));
    }

    fn find_tool(&self, block: u64) -> (result: Option<&Tool>)
        ensures
            result.deep_view() == tool_of(self@.tools, block, 0),
    {
        let mut i: usize = 0;
        while i < self.tools.len()
            invariant
                i <= self.tools.len(),
                tool_of(self@.tools, block, 0) == tool_of(self@.tools, block, i as int),
            decreases self.tools.len() - i,
        {
            assert(self@.tools[i as int] == self.tools@[i as int].deep_view());
            if self.tools[i].block == block {
                return Some(&self.tools[i]);
            }
            i = i + 1;
        }
        None
    }

    fn event_of(&self, block: u64, delta: &Json) -> (event: Option<StreamEvent>)
        ensures
            event.deep_view() == delta_event(self@, block, delta@),
    {
        if json::kind_is(delta, "text_delta") {
            Some(StreamEvent::TextDelta { block, text: json::text_at(delta, "text") })
        } else if json::kind_is(delta, "thinking_delta") {
            Some(StreamEvent::ReasoningDelta { block, text: json::text_at(delta, "thinking") })
        } else if json::kind_is(delta, "signature_delta") {
            if self.find_native(block) < self.native_blocks.len() {
                None
            } else {
                Some(
                    StreamEvent::ThoughtSignature {
                        block,
                        signature: json::text_at(delta, "signature"),
                    },
                )
            }
        } else if json::kind_is(delta, "input_json_delta") {
            match self.find_tool(block) {
                Some(tool) => Some(
                    StreamEvent::ToolCallDelta {
                        block,
                        id: tool.id.clone(),
                        provider_id: None,
                        name: tool.name.clone(),
                        arguments_fragment: json::text_at(delta, "partial_json"),
                    },
                ),
                None => None,
            }
        } else {
            None
        }
    }

    fn block_delta(&mut self, root: &Json, out: &mut Vec<StreamEvent>)
        ensures
            (final(self)@, final(out).deep_view()) == with_block_delta(
                (old(self)@, old(out).deep_view()),
                root@,
            ),
    {
        let ghost first = (self@, out.deep_view());
        let none = Json::Null;
        let block = json::count(root.get("index"));
        let delta = json::member_or(root, "delta", &none);
        self.native_delta(block, delta);
        assert((self@, out.deep_view()) == with_native_delta(first, block, delta@));
        let cited = json::kind_is(delta, "citations_delta") && json::kind_is(
            json::member_or(delta, "citation", &none),
            "web_search_result_location",
        );
        if self.has_search_block(block) || cited {
            web_search_decode::push_search(
                web_search_decode::single_result("events", root.dup()),
                out,
            );
        }
        if json::kind_is(delta, "citations_delta") || json::kind_is(
            delta,
            "connector_text_delta",
        ) {
            out.push(
                StreamEvent::NativeDelta {
                    block,
                    protocol: ProtocolFamily::AnthropicMessages,
                    delta: delta.dup(),
                },
            );
        }
        if let Some(event) = self.event_of(block, delta) {
            out.push(event);
        }
    }

    fn block_end(&mut self, root: &Json, out: &mut Vec<StreamEvent>)
        ensures
            (final(self)@, final(out).deep_view()) == with_block_end(
                (old(self)@, old(out).deep_view()),
                root@,
            ),
    {
        let block = json::count(root.get("index"));
        out.push(StreamEvent::BlockEnd { block });
        if self.has_search_block(block) {
            web_search_decode::push_search(
                web_search_decode::single_result("events", root.dup()),
                out,
            );
        }
    }

    fn block_stop(&mut self, root: &Json, out: Vec<StreamEvent>) -> (result: Result<
        Vec<StreamEvent>,
        LlmError,
    >)
        ensures
            (final(self)@, views::res(result)) == with_block_stop(
                (old(self)@, out.deep_view()),
                root@,
            ),
    {
        let ghost before = self@;
        let mut out = out;
        let block = json::count(root.get("index"));
        let place = self.find_native(block);
        if place < self.native_blocks.len() {
            assert(before.native_blocks[place as int]
                == self.native_blocks@[place as int].deep_view());
            let native = self.native_blocks.remove(place);
            assert(self@.native_blocks =~= before.native_blocks.remove(place as int));
            let value = finish_native(native)?;
            out.push(
                StreamEvent::ProviderContent {
                    block,
                    protocol: ProtocolFamily::AnthropicMessages,
                    value: Json::Object(value),
                },
            );
        }
        self.block_end(root, &mut out);
        Ok(out)
    }

    fn message_delta(&mut self, root: &Json, out: &mut Vec<StreamEvent>)
        ensures
            (final(self)@, final(out).deep_view()) == with_message_delta(
                (old(self)@, old(out).deep_view()),
                root@,
            ),
    {
        if let Some(reason) = json::text_in(root.get2("delta", "stop_reason")) {
            self.stop = Some(decode::stop_reason(Some(reason)));
        }
        if let Some(reported) = chat::decode::find_usage(root) {
            if usage::counter(reported, "output_tokens").is_some() {
                self.final_output_count_reported = true;
            }
            self.fold_usage(reported, out);
        }
    }

    fn kind(&mut self, kind: &str, root: &Json, out: Vec<StreamEvent>) -> (result: Result<
        Vec<StreamEvent>,
        LlmError,
    >)
        ensures
            (final(self)@, views::res(result)) == with_kind(
                (old(self)@, out.deep_view()),
                kind@,
                root@,
            ),
    {
        let mut out = out;
        if text::same(kind, "message_start") {
            self.message_start(root, &mut out);
        } else if text::same(kind, "content_block_start") {
            self.block_start(root, &mut out);
        } else if text::same(kind, "content_block_delta") {
            self.block_delta(root, &mut out);
        } else if text::same(kind, "content_block_stop") {
            return self.block_stop(root, out);
        } else if text::same(kind, "message_delta") {
            self.message_delta(root, &mut out);
        } else if text::same(kind, "message_stop") {
            self.finish_into(&mut out);
        } else if text::same(kind, "error") {
            return Err(decode::classify_error(500, root, None));
        }
        Ok(out)
    }
}

fn finish_native(native: Native) -> (result: Result<Vec<(String, Json)>, LlmError>)
    ensures
        views::res(result) == native_value(native.deep_view()),
{
    let mut value = native.value;
    if !text::is_empty(&native.arguments) {
        match json::parse(native.arguments.as_str().as_bytes()) {
            Ok(input) => json::set(&mut value, "input", input),
            Err(_) => return Err(
                error::invalid("provider returned malformed native tool arguments"),
            ),
        }
    }
    Ok(value)
}

impl EventDecoder for AnthropicStreamDecoder {
    open spec fn frame_step(state: AnthropicStreamView, frame: Seq<u8>) -> (
        AnthropicStreamView,
        Decoded,
    ) {
        match stream::framed(
            frame,
            "stream frame is not valid UTF-8"@,
            "stream frame is not valid JSON"@,
        ) {
            Err(error) => (state, Err(error)),
            Ok(FrameView::Blank) => outcome((state, Seq::empty())),
            // This wire has no sentinel.
            Ok(FrameView::Sentinel) => (state, Err(no_json())),
            Ok(FrameView::Root(root)) => with_root((state, Seq::empty()), root),
        }
    }

    open spec fn finish_step(state: AnthropicStreamView) -> (AnthropicStreamView, Decoded) {
        if !state.done && state.stop is None {
            (state, Err(interrupted()))
        } else {
            outcome(ended((state, Seq::empty())))
        }
    }

    open spec fn headers_step(state: AnthropicStreamView, headers: HeaderViews) -> AnthropicStreamView {
        AnthropicStreamView {
            inference: inference::headers_seen(state.inference, headers),
            ..state
        }
    }

    open spec fn report_of(state: AnthropicStreamView) -> InferenceReportView {
        state.inference.report
    }

    open spec fn usage_of(state: AnthropicStreamView) -> UsageReportView {
        usage_so_far(state)
    }

    fn decode_frame(&mut self, frame: &[u8]) -> (result: Result<Vec<StreamEvent>, LlmError>) {
        let read = stream::read_frame(
            frame,
            "stream frame is not valid UTF-8",
            "stream frame is not valid JSON",
        )?;
        let mut out: Vec<StreamEvent> = Vec::new();
        match read {
            Frame::Blank => Ok(out),
            Frame::Sentinel => Err(error::invalid("stream frame is not valid JSON")),
            Frame::Root(root) => {
                self.inference.observe(&root, &mut out);
                match root.str_at("type") {
                    Some(kind) => self.kind(kind, &root, out),
                    None => Ok(out),
                }
            },
        }
    }

    fn finish(&mut self) -> (result: Result<Vec<StreamEvent>, LlmError>) {
        if !self.done && self.stop.is_none() {
            return Err(
                LlmError::StreamInterrupted {
                    message: "provider stream ended before a terminal event".to_owned(),
                },
            );
        }
        let mut out: Vec<StreamEvent> = Vec::new();
        self.finish_into(&mut out);
        Ok(out)
    }

    fn set_response_headers(&mut self, headers: &Vec<(String, String)>) {
        self.inference.headers(headers);
    }

    fn inference_report(&self) -> (report: InferenceReport) {
        self.inference.report.dup()
    }

    fn usage_report(&self) -> (report: UsageReport) {
        self.report()
    }
}

/// Usage counts only as complete once the end of the message stated the output
/// count and the turn is over.
pub proof fn provisional_usage_is_not_complete(state: AnthropicStreamView)
    ensures
        AnthropicStreamDecoder::usage_of(state).complete ==> state.done
            && state.final_output_count_reported,
{
}

/// A stream that stops before it said why it ends is an interruption.
pub proof fn a_cut_stream_is_an_interruption(state: AnthropicStreamView)
    ensures
        (state.done || state.stop is Some) <==> AnthropicStreamDecoder::finish_step(state).1 is Ok,
        !(state.done || state.stop is Some) ==> AnthropicStreamDecoder::finish_step(
            state,
        ).1->Err_0 is StreamInterrupted,
{
}

/// Between two steps there is a terminal event where the stream ended, and no other.
spec fn counted(a: Step, b: Step) -> bool {
    stream::ends(b.1) + stream::one(a.0.done) == stream::ends(a.1) + stream::one(b.0.done)
}

proof fn lemma_ended_counted(at: Step)
    ensures
        counted(at, ended(at)),
{
    if !at.0.done {
        stream::lemma_event(at.1, ended(at).1.last());
        assert(ended(at).1 =~= at.1.push(ended(at).1.last()));
    }
}

proof fn lemma_search_counted(at: Step, root: JsonView)
    ensures
        counted(at, with_search_frame(at, root)),
{
    stream::lemma_events(
        at.1,
        web_search_decode::search_events(web_search_decode::single("events"@, root)),
    );
}

proof fn lemma_usage_counted(at: Step, reported: JsonView)
    ensures
        counted(at, with_usage(at, reported)),
{
    stream::lemma_events(
        at.1,
        web_search_decode::search_events(
            web_search_decode::result_of(
                web_search_decode::with_counters(Seq::empty(), Some(reported)),
            ),
        ),
    );
}

proof fn lemma_message_start_counted(at: Step, root: JsonView)
    ensures
        counted(at, with_message_start(at, root)),
{
    let message = json::at(root, "message"@);
    let tallied = match chat::decode::usage_in(message) {
        Some(reported) => {
            lemma_usage_counted(at, reported);
            with_usage(at, reported)
        },
        None => at,
    };
    let begun = with_message_start(at, root);
    stream::lemma_event(tallied.1, begun.1.last());
    assert(begun.1 =~= tallied.1.push(begun.1.last()));
}

proof fn lemma_block_start_counted(at: Step, root: JsonView)
    ensures
        counted(at, with_block_start(at, root)),
{
    let native = with_native_start(at, root);
    let noted = (
        AnthropicStreamView {
            search_blocks: native.0.search_blocks.push(index_of(root)),
            ..native.0
        },
        native.1,
    );
    lemma_search_counted(noted, root);
    lemma_search_counted(native, root);
    let searched = with_search_start(native, root);
    let redacted = with_redacted(searched, root);
    if redacted.1.len() > searched.1.len() {
        stream::lemma_event(searched.1, redacted.1.last());
        assert(redacted.1 =~= searched.1.push(redacted.1.last()));
    }
    let called = with_tool(redacted, root);
    if called.1.len() > redacted.1.len() {
        stream::lemma_event(redacted.1, called.1.last());
        assert(called.1 =~= redacted.1.push(called.1.last()));
    }
}

proof fn lemma_block_delta_counted(at: Step, root: JsonView)
    ensures
        counted(at, with_block_delta(at, root)),
{
    let block = index_of(root);
    let delta = json::at(root, "delta"@);
    let native = with_native_delta(at, block, delta);
    lemma_search_counted(native, root);
    let searched = with_search_delta(native, root);
    let shown = with_raw_delta(searched, block, delta);
    if shown.1.len() > searched.1.len() {
        stream::lemma_event(searched.1, shown.1.last());
        assert(shown.1 =~= searched.1.push(shown.1.last()));
    }
    if let Some(event) = delta_event(shown.0, block, delta) {
        stream::lemma_event(shown.1, event);
    }
}

proof fn lemma_block_end_counted(at: Step, root: JsonView)
    ensures
        counted(at, with_block_end(at, root)),
{
    let event = StreamEventView::BlockEnd { block: index_of(root) };
    stream::lemma_event(at.1, event);
    lemma_search_counted((at.0, at.1.push(event)), root);
}

/// A step that the outcome of a kind of frame is, and that is counted.
spec fn counts(at: Step, result: (AnthropicStreamView, Decoded)) -> bool {
    match result.1 {
        Ok(events) => counted(at, (result.0, events)),
        Err(_) => result.0.done == at.0.done,
    }
}

proof fn lemma_block_stop_counted(at: Step, root: JsonView)
    ensures
        counts(at, with_block_stop(at, root)),
{
    let block = index_of(root);
    match native_of(at.0.native_blocks, block) {
        None => {
            lemma_block_end_counted(at, root);
        },
        Some(native) => {
            if let Ok(value) = native_value(native) {
                let state = AnthropicStreamView {
                    native_blocks: at.0.native_blocks.remove(
                        native_place(at.0.native_blocks, block, 0),
                    ),
                    ..at.0
                };
                let event = StreamEventView::ProviderContent {
                    block,
                    protocol: ProtocolFamily::AnthropicMessages,
                    value: JsonView::Object(value),
                };
                stream::lemma_event(at.1, event);
                lemma_block_end_counted((state, at.1.push(event)), root);
            }
        },
    }
}

proof fn lemma_message_delta_counted(at: Step, root: JsonView)
    ensures
        counted(at, with_message_delta(at, root)),
{
    let stopped = match json::str_in(json::member2(root, "delta"@, "stop_reason"@)) {
        Some(reason) => (
            AnthropicStreamView { stop: Some(decode::stop_of(Some(reason))), ..at.0 },
            at.1,
        ),
        None => at,
    };
    if let Some(reported) = chat::decode::usage_in(root) {
        lemma_usage_counted(
            (
                AnthropicStreamView {
                    final_output_count_reported: stopped.0.final_output_count_reported
                        || usage::counter_of(reported, "output_tokens"@) is Some,
                    ..stopped.0
                },
                stopped.1,
            ),
            reported,
        );
    }
}

#[verifier::spinoff_prover]
proof fn lemma_kind_counted(at: Step, kind: Seq<char>, root: JsonView)
    ensures
        counts(at, with_kind(at, kind, root)),
{
    if kind == "message_start"@ {
        lemma_message_start_counted(at, root);
    } else if kind == "content_block_start"@ {
        lemma_block_start_counted(at, root);
    } else if kind == "content_block_delta"@ {
        lemma_block_delta_counted(at, root);
    } else if kind == "content_block_stop"@ {
        lemma_block_stop_counted(at, root);
    } else if kind == "message_delta"@ {
        lemma_message_delta_counted(at, root);
    } else if kind == "message_stop"@ {
        lemma_ended_counted(at);
    }
}

proof fn lemma_frame_counted(state: AnthropicStreamView, frame: Seq<u8>)
    ensures
        counts(
            (state, Seq::empty()),
            AnthropicStreamDecoder::frame_step(state, frame),
        ),
{
    let at: Step = (state, Seq::empty());
    if let Ok(FrameView::Root(root)) = stream::framed(
        frame,
        "stream frame is not valid UTF-8"@,
        "stream frame is not valid JSON"@,
    ) {
        let next = inference::stream_observed(state.inference, root);
        stream::lemma_events(at.1, inference::report_events(state.inference.report, next.report));
        if let Some(kind) = json::str_at(root, "type"@) {
            lemma_kind_counted(with_inference(at, root), kind, root);
        }
    }
}

proof fn lemma_frames_counted(
    state: AnthropicStreamView,
    events: Seq<StreamEventView>,
    frames: Seq<Seq<u8>>,
    i: int,
)
    ensures
        counted(
            (state, events),
            stream::after_frames::<AnthropicStreamDecoder>(state, events, frames, i),
        ),
    decreases frames.len() - i,
{
    if 0 <= i < frames.len() {
        lemma_frame_counted(state, frames[i]);
        let (after, result) = AnthropicStreamDecoder::frame_step(state, frames[i]);
        let next = match result {
            Ok(more) => {
                stream::lemma_joined(events, more);
                events + more
            },
            Err(_) => events,
        };
        lemma_frames_counted(after, next, frames, i + 1);
    }
}

/// Over its whole life a decoder gives one terminal event at most.
pub proof fn a_stream_ends_once(context: CodecContext, frames: Seq<Seq<u8>>)
    ensures
        ({
            let at = stream::after_frames::<AnthropicStreamDecoder>(
                anthropic_start(context),
                Seq::empty(),
                frames,
                0,
            );
            &&& stream::ends(at.1) <= 1
            &&& AnthropicStreamDecoder::finish_step(at.0).1 matches Ok(more) ==> stream::ends(at.1 + more) <= 1
        }),
{
    lemma_frames_counted(anthropic_start(context), Seq::empty(), frames, 0);
    let at = stream::after_frames::<AnthropicStreamDecoder>(anthropic_start(context), Seq::empty(), frames, 0);
    lemma_ended_counted((at.0, Seq::empty()));
    if let Ok(more) = AnthropicStreamDecoder::finish_step(at.0).1 {
        stream::lemma_joined(at.1, more);
    }
}

} // verus!
