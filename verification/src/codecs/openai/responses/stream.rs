//! The stream decoder. Every event names the output it belongs to, so block
//! indices come from the wire.

use crate::codecs::extras::HeaderViews;
use crate::codecs::file_search_decode::{self, FileSearchStream};
use crate::codecs::inference::{self, StreamInference, StreamInferenceView};
use crate::codecs::openai::chat;
use crate::codecs::openai::responses::decode;
use crate::codecs::stream::{self, Frame, FrameView};
use crate::codecs::web_search_decode::{self, SearchStream, SearchStreamView};
use crate::codecs::{CodecContext, Decoded, EventDecoder};
use crate::json::{self, Json, JsonView};
use crate::protocol::{
    InferenceReport, InferenceReportView, LlmError, LlmErrorView, ProtocolFamily, StopReason,
    StopReasonView, StreamEvent, StreamEventView, UsageReport, UsageReportView,
};
use crate::text;
use crate::views;
use vstd::prelude::*;

verus! {

broadcast use {crate::views::group_views, crate::json::group_json};

/// A call that was announced: the deltas that follow carry its index alone.
pub struct Call {
    pub block: u64,
    pub id: String,
    pub name: String,
}

pub struct CallView {
    pub block: u64,
    pub id: Seq<char>,
    pub name: Seq<char>,
}

impl DeepView for Call {
    type V = CallView;

    open spec fn deep_view(&self) -> CallView {
        CallView { block: self.block, id: self.id@, name: self.name@ }
    }
}

pub struct ResponsesStreamDecoder {
    inference: StreamInference,
    started: bool,
    reasoning_items: Vec<u64>,
    calls: Vec<Call>,
    usage_raw: Option<Json>,
    stop: Option<StopReason>,
    saw_tool_call: bool,
    saw_refusal: bool,
    done: bool,
    search: SearchStream,
    file_search: FileSearchStream,
}

pub struct ResponsesStreamView {
    pub inference: StreamInferenceView,
    pub started: bool,
    /// The blocks whose reasoning was shown.
    pub reasoning_items: Seq<u64>,
    pub calls: Seq<CallView>,
    /// The usage object as sent.
    pub usage_raw: Option<JsonView>,
    pub stop: Option<StopReasonView>,
    pub saw_tool_call: bool,
    pub saw_refusal: bool,
    pub done: bool,
    pub search: SearchStreamView,
    pub file_search: Seq<Seq<char>>,
}

impl View for ResponsesStreamDecoder {
    type V = ResponsesStreamView;

    closed spec fn view(&self) -> ResponsesStreamView {
        ResponsesStreamView {
            inference: self.inference@,
            started: self.started,
            reasoning_items: self.reasoning_items@,
            calls: self.calls.deep_view(),
            usage_raw: self.usage_raw.deep_view(),
            stop: self.stop.deep_view(),
            saw_tool_call: self.saw_tool_call,
            saw_refusal: self.saw_refusal,
            done: self.done,
            search: self.search@,
            file_search: self.file_search@,
        }
    }
}

/// The state before anything arrived.
pub open spec fn responses_start(context: CodecContext) -> ResponsesStreamView {
    ResponsesStreamView {
        inference: inference::stream_start(context.profile),
        started: false,
        reasoning_items: Seq::empty(),
        calls: Seq::empty(),
        usage_raw: None,
        stop: None,
        saw_tool_call: false,
        saw_refusal: false,
        done: false,
        search: SearchStreamView { seen: Seq::empty(), snapshots: Seq::empty() },
        file_search: Seq::empty(),
    }
}

/// A state with the events so far.
pub type Step = (ResponsesStreamView, Seq<StreamEventView>);

/// The report of what was counted.
pub open spec fn usage_so_far(state: ResponsesStreamView) -> UsageReportView {
    decode::report_of(state.usage_raw, state.done)
}

/// Why the turn ended: what the response said of itself, unless it is a plain
/// end; else a call asks for a tool, else a refusal ends the turn.
pub open spec fn ending(state: ResponsesStreamView) -> StopReasonView {
    if state.stop is Some && state.stop->0 != StopReasonView::EndTurn {
        state.stop->0
    } else if state.saw_tool_call {
        StopReasonView::ToolUse
    } else if state.saw_refusal {
        StopReasonView::Refusal
    } else {
        StopReasonView::EndTurn
    }
}

/// The terminal event, which comes once.
pub open spec fn ended(at: Step) -> Step {
    let (state, events) = at;
    if state.done {
        at
    } else {
        let state = ResponsesStreamView { done: true, ..state };
        (
            state,
            events.push(
                StreamEventView::End {
                    stop_reason: ending(state),
                    usage: usage_so_far(state),
                    inference: state.inference.report,
                },
            ),
        )
    }
}

/// What the event says of inference.
pub open spec fn with_inference(at: Step, root: JsonView) -> Step {
    let next = inference::stream_observed(at.0.inference, root);
    (
        ResponsesStreamView { inference: next, ..at.0 },
        at.1 + inference::report_events(at.0.inference.report, next.report),
    )
}

/// The output that an event belongs to.
pub open spec fn index_of(root: JsonView) -> u64 {
    json::count_in(json::member(root, "output_index"@))
}

/// A result of web searches.
pub open spec fn with_search(at: Step, found: Option<crate::protocol::WebSearchResultView>) -> Step {
    let (search, events) = web_search_decode::emitted(at.0.search, found);
    (ResponsesStreamView { search, ..at.0 }, at.1 + events)
}

/// The searches of knowledge bases in a body.
pub open spec fn with_file_search(at: Step, body: JsonView) -> Step {
    let (shown, events) = file_search_decode::emitted_of(
        at.0.file_search,
        file_search_decode::search_calls(body),
        0,
        at.1,
    );
    (ResponsesStreamView { file_search: shown, ..at.0 }, events)
}

pub open spec fn with_annotation(at: Step, root: JsonView) -> Step {
    let annotation = json::at(root, "annotation"@);
    if json::is_kind(annotation, "url_citation"@) {
        with_search(
            at,
            web_search_decode::single(
                "annotations"@,
                web_search_decode::placed(
                    index_of(root),
                    json::count_in(json::member(root, "content_index"@)),
                    annotation,
                ),
            ),
        )
    } else {
        at
    }
}

/// Reasoning is shown once per output.
pub open spec fn with_reasoning(at: Step, block: u64, item: JsonView) -> Step {
    if json::is_kind(item, "reasoning"@) && !at.0.reasoning_items.contains(block) {
        (
            ResponsesStreamView {
                reasoning_items: at.0.reasoning_items.push(block),
                ..at.0
            },
            at.1.push(
                StreamEventView::ProviderContent {
                    block,
                    protocol: ProtocolFamily::OpenAiResponses,
                    value: item,
                },
            ),
        )
    } else {
        at
    }
}

pub open spec fn with_reasonings(at: Step, items: Seq<JsonView>, i: int) -> Step
    decreases items.len() - i,
{
    if i < 0 || i >= items.len() {
        at
    } else {
        with_reasonings(with_reasoning(at, i as u64, items[i]), items, i + 1)
    }
}

/// A refusal that an item may hold.
pub open spec fn with_refusal(at: Step, refused: bool) -> Step {
    (ResponsesStreamView { saw_refusal: at.0.saw_refusal || refused, ..at.0 }, at.1)
}

pub open spec fn with_item_done(at: Step, root: JsonView) -> Step {
    let item = json::at(root, "item"@);
    let shown = with_refusal(with_reasoning(at, index_of(root), item), decode::refuses(item));
    let searched = if json::is_kind(item, "file_search_call"@) {
        with_file_search(shown, json::obj1("output"@, JsonView::Array(seq![item])))
    } else {
        shown
    };
    if json::is_kind(item, "web_search_call"@) {
        with_search(searched, web_search_decode::single("web_search_calls"@, item))
    } else {
        searched
    }
}

pub open spec fn with_created(at: Step, root: JsonView) -> Step {
    if at.0.started {
        at
    } else {
        let response = json::at(root, "response"@);
        (
            ResponsesStreamView { started: true, ..at.0 },
            at.1.push(
                StreamEventView::Start {
                    model: json::text_or_empty(response, "model"@),
                    response_id: json::str_at(response, "id"@),
                },
            ),
        )
    }
}

pub open spec fn with_item_added(at: Step, root: JsonView) -> Step {
    let item = json::at(root, "item"@);
    let noted = with_refusal(at, decode::refuses(item));
    if json::is_kind(item, "function_call"@) {
        let call = CallView {
            block: index_of(root),
            id: json::text_or_empty(item, "call_id"@),
            name: json::text_or_empty(item, "name"@),
        };
        (
            ResponsesStreamView {
                saw_tool_call: true,
                calls: noted.0.calls.push(call),
                ..noted.0
            },
            noted.1.push(
                StreamEventView::ToolCallDelta {
                    block: call.block,
                    id: call.id,
                    provider_id: None,
                    name: call.name,
                    arguments_fragment: Seq::empty(),
                },
            ),
        )
    } else {
        noted
    }
}

/// The first call of the block, from the `i`th on.
pub open spec fn call_of(calls: Seq<CallView>, block: u64, i: int) -> Option<CallView>
    decreases calls.len() - i,
{
    if i < 0 || i >= calls.len() {
        None
    } else if calls[i].block == block {
        Some(calls[i])
    } else {
        call_of(calls, block, i + 1)
    }
}

pub open spec fn with_arguments(at: Step, root: JsonView) -> Step {
    match call_of(at.0.calls, index_of(root), 0) {
        Some(call) => (
            at.0,
            at.1.push(
                StreamEventView::ToolCallDelta {
                    block: index_of(root),
                    id: call.id,
                    provider_id: None,
                    name: call.name,
                    arguments_fragment: json::text_or_empty(root, "delta"@),
                },
            ),
        ),
        None => at,
    }
}

/// Whether an item from the `i`th on refuses.
pub open spec fn any_refuses(items: Seq<JsonView>, i: int) -> bool
    decreases items.len() - i,
{
    if i < 0 || i >= items.len() {
        false
    } else {
        decode::refuses(items[i]) || any_refuses(items, i + 1)
    }
}

pub open spec fn with_completed(at: Step, response: JsonView) -> Step {
    let items = json::items_in(json::member(response, "output"@));
    let searched = with_search(
        with_file_search(with_reasonings(at, items, 0), response),
        web_search_decode::result_of(
            web_search_decode::with_counters(
                web_search_decode::responses_metadata(response),
                json::member(response, "usage"@),
            ),
        ),
    );
    let counted = match chat::decode::usage_in(response) {
        Some(usage) => (
            ResponsesStreamView { usage_raw: Some(usage), ..searched.0 },
            searched.1,
        ),
        None => searched,
    };
    let noted = with_refusal(counted, any_refuses(items, 0));
    ended(
        (ResponsesStreamView { stop: Some(decode::stop_of(response)), ..noted.0 }, noted.1),
    )
}

/// The error object of an error event, which may be the event itself.
pub open spec fn error_envelope(root: JsonView) -> JsonView {
    if json::member(root, "error"@) is Some {
        root
    } else {
        json::obj1("error"@, root)
    }
}

/// One event, by its type; an unknown one is ignored.
pub open spec fn with_kind(at: Step, kind: Seq<char>, root: JsonView) -> (
    ResponsesStreamView,
    Decoded,
) {
    if kind == "response.output_text.annotation.added"@ {
        outcome(with_annotation(at, root))
    } else if kind == "response.output_item.done"@ {
        outcome(with_item_done(at, root))
    } else if kind == "response.created"@ {
        outcome(with_created(at, root))
    } else if kind == "response.output_item.added"@ {
        outcome(with_item_added(at, root))
    } else if kind == "response.output_text.delta"@ {
        outcome(
            (
                at.0,
                at.1.push(
                    StreamEventView::TextDelta {
                        block: index_of(root),
                        text: json::text_or_empty(root, "delta"@),
                    },
                ),
            ),
        )
    } else if kind == "response.refusal.delta"@ || kind == "response.refusal.done"@ {
        outcome(with_refusal(at, true))
    } else if kind == "response.content_part.added"@ || kind == "response.content_part.done"@ {
        outcome(with_refusal(at, decode::refuses(json::at(root, "part"@))))
    } else if kind == "response.reasoning_text.delta"@ || kind
        == "response.reasoning_summary_text.delta"@ {
        outcome(
            (
                at.0,
                at.1.push(
                    StreamEventView::ReasoningDelta {
                        block: index_of(root),
                        text: json::text_or_empty(root, "delta"@),
                    },
                ),
            ),
        )
    } else if kind == "response.function_call_arguments.delta"@ {
        outcome(with_arguments(at, root))
    } else if kind == "response.completed"@ || kind == "response.incomplete"@ {
        outcome(with_completed(at, json::at(root, "response"@)))
    } else if kind == "response.failed"@ {
        (
            at.0,
            Err(chat::decode::classified(500, json::at(root, "response"@), None)),
        )
    } else if kind == "error"@ {
        (at.0, Err(chat::decode::classified(500, error_envelope(root), None)))
    } else {
        outcome(at)
    }
}

pub open spec fn with_root(at: Step, root: JsonView) -> (ResponsesStreamView, Decoded) {
    let observed = with_inference(at, root);
    match json::str_at(root, "type"@) {
        Some(kind) => with_kind(observed, kind, root),
        None => outcome(observed),
    }
}

/// A step as the outcome of a frame.
pub open spec fn outcome(at: Step) -> (ResponsesStreamView, Decoded) {
    (at.0, Ok(at.1))
}

pub open spec fn interrupted() -> LlmErrorView {
    LlmErrorView::StreamInterrupted {
        message: "provider stream ended before a terminal event"@,
    }
}

impl ResponsesStreamDecoder {
    pub fn configured(context: &CodecContext) -> (decoder: Self)
        ensures
            decoder@ == responses_start(*context),
    {
        let decoder = ResponsesStreamDecoder {
            inference: StreamInference::new(context),
            started: false,
            reasoning_items: Vec::new(),
            calls: Vec::new(),
            usage_raw: None,
            stop: None,
            saw_tool_call: false,
            saw_refusal: false,
            done: false,
            search: SearchStream::new(),
            file_search: FileSearchStream::new(),
        };
        assert(decoder@.calls =~= Seq::empty());
        decoder
    }

    fn finish_into(&mut self, out: &mut Vec<StreamEvent>)
        ensures
            (final(self)@, final(out).deep_view()) == ended((old(self)@, old(out).deep_view())),
    {
        if self.done {
            return;
        }
        self.done = true;
        let stop = match &self.stop {
            Some(StopReason::EndTurn) => None,
            Some(reason) => Some(reason.dup()),
            None => None,
        };
        let stop_reason = match stop {
            Some(reason) => reason,
            None => if self.saw_tool_call {
                StopReason::ToolUse
            } else if self.saw_refusal {
                StopReason::Refusal
            } else {
                StopReason::EndTurn
            },
        };
        assert(stop_reason@ == ending(self@));
        out.push(
            StreamEvent::End {
                stop_reason,
                usage: decode::report(self.usage_raw.as_ref(), self.done),
                inference: self.inference.report.dup(),
            },
        );
    }

    fn has_reasoning(&self, block: u64) -> (result: bool)
        ensures
            result == self@.reasoning_items.contains(block),
    {
        let mut i: usize = 0;
        while i < self.reasoning_items.len()
            invariant
                i <= self.reasoning_items.len(),
                forall|k: int| 0 <= k < i ==> self@.reasoning_items[k] != block,
            decreases self.reasoning_items.len() - i,
        {
            if self.reasoning_items[i] == block {
                assert(self@.reasoning_items[i as int] == block);
                return true;
            }
            i = i + 1;
        }
        false
    }

    fn emit_reasoning(&mut self, block: u64, item: &Json, out: &mut Vec<StreamEvent>)
        ensures
            (final(self)@, final(out).deep_view()) == with_reasoning(
                (old(self)@, old(out).deep_view()),
                block,
                item@,
            ),
    {
        if json::kind_is(item, "reasoning") && !self.has_reasoning(block) {
            self.reasoning_items.push(block);
            out.push(
                StreamEvent::ProviderContent {
                    block,
                    protocol: ProtocolFamily::OpenAiResponses,
                    value: item.dup(),
                },
            );
        }
    }

    fn emit_reasonings(&mut self, items: &Vec<Json>, out: &mut Vec<StreamEvent>)
        ensures
            (final(self)@, final(out).deep_view()) == with_reasonings(
                (old(self)@, old(out).deep_view()),
                items.deep_view(),
                0,
            ),
    {
        let ghost first = (self@, out.deep_view());
        let mut i: usize = 0;
        while i < items.len()
            invariant
                i <= items.len(),
                with_reasonings(first, items.deep_view(), 0) == with_reasonings(
                    (self@, out.deep_view()),
                    items.deep_view(),
                    i as int,
                ),
            decreases items.len() - i,
        {
            assert(items.deep_view()[i as int] == items@[i as int]@);
            self.emit_reasoning(i as u64, &items[i], out);
            i = i + 1;
        }
    }

    fn annotation(&mut self, root: &Json, out: &mut Vec<StreamEvent>)
        ensures
            (final(self)@, final(out).deep_view()) == with_annotation(
                (old(self)@, old(out).deep_view()),
                root@,
            ),
    {
        let none = Json::Null;
        let annotation = json::member_or(root, "annotation", &none);
        if json::kind_is(annotation, "url_citation") {
            let placed = web_search_decode::place(
                json::count(root.get("output_index")),
                json::count(root.get("content_index")),
                annotation,
            );
            self.search.emit(web_search_decode::single_result("annotations", placed), out);
        }
    }

    fn item_done(&mut self, root: &Json, out: &mut Vec<StreamEvent>)
        ensures
            (final(self)@, final(out).deep_view()) == with_item_done(
                (old(self)@, old(out).deep_view()),
                root@,
            ),
    {
        let none = Json::Null;
        let item = json::member_or(root, "item", &none);
        self.emit_reasoning(json::count(root.get("output_index")), item, out);
        if decode::has_refusal(item) {
            self.saw_refusal = true;
        }
        if json::kind_is(item, "file_search_call") {
            let body = json::object1("output", json::array1(item.dup()));
            self.file_search.emit(&body, out);
        }
        if json::kind_is(item, "web_search_call") {
            self.search.emit(web_search_decode::single_result("web_search_calls", item.dup()), out);
        }
    }

    fn created(&mut self, root: &Json, out: &mut Vec<StreamEvent>)
        ensures
            (final(self)@, final(out).deep_view()) == with_created(
                (old(self)@, old(out).deep_view()),
                root@,
            ),
    {
        if !self.started {
            self.started = true;
            let none = Json::Null;
            let response = json::member_or(root, "response", &none);
            out.push(
                StreamEvent::Start {
                    model: json::text_at(response, "model"),
                    response_id: json::owned_text_in(response.get("id")),
                },
            );
        }
    }

    fn item_added(&mut self, root: &Json, out: &mut Vec<StreamEvent>)
        ensures
            (final(self)@, final(out).deep_view()) == with_item_added(
                (old(self)@, old(out).deep_view()),
                root@,
            ),
    {
        let none = Json::Null;
        let item = json::member_or(root, "item", &none);
        if decode::has_refusal(item) {
            self.saw_refusal = true;
        }
        if json::kind_is(item, "function_call") {
            self.saw_tool_call = true;
            let block = json::count(root.get("output_index"));
            let id = json::text_at(item, "call_id");
            let name = json::text_at(item, "name");
            self.calls.push(Call { block, id: id.clone(), name: name.clone() });
            let arguments_fragment = String::new();
            assert(arguments_fragment@ =~= Seq::empty());
            out.push(
                StreamEvent::ToolCallDelta {
                    block,
                    id,
                    provider_id: None,
                    name,
                    arguments_fragment,
                },
            );
        }
    }

    fn find_call(&self, block: u64) -> (result: Option<&Call>)
        ensures
            result.deep_view() == call_of(self@.calls, block, 0),
    {
        let mut i: usize = 0;
        while i < self.calls.len()
            invariant
                i <= self.calls.len(),
                call_of(self@.calls, block, 0) == call_of(self@.calls, block, i as int),
            decreases self.calls.len() - i,
        {
            assert(self@.calls[i as int] == self.calls@[i as int].deep_view());
            if self.calls[i].block == block {
                return Some(&self.calls[i]);
            }
            i = i + 1;
        }
        None
    }

    fn arguments(&mut self, root: &Json, out: &mut Vec<StreamEvent>)
        ensures
            (final(self)@, final(out).deep_view()) == with_arguments(
                (old(self)@, old(out).deep_view()),
                root@,
            ),
    {
        let block = json::count(root.get("output_index"));
        if let Some(call) = self.find_call(block) {
            out.push(
                StreamEvent::ToolCallDelta {
                    block,
                    id: call.id.clone(),
                    provider_id: None,
                    name: call.name.clone(),
                    arguments_fragment: json::text_at(root, "delta"),
                },
            );
        }
    }

    fn completed(&mut self, response: &Json, out: &mut Vec<StreamEvent>)
        ensures
            (final(self)@, final(out).deep_view()) == with_completed(
                (old(self)@, old(out).deep_view()),
                response@,
            ),
    {
        let items = web_search_decode::items_of(response.get("output"));
        if let Some(items) = items {
            self.emit_reasonings(items, out);
        }
        self.file_search.emit(response, out);
        self.search.emit(web_search_decode::responses_with_usage(response), out);
        if let Some(usage) = chat::decode::find_usage(response) {
            self.usage_raw = Some(usage.dup());
        }
        let refused = match items {
            Some(items) => some_refusal(items),
            None => false,
        };
        if refused {
            self.saw_refusal = true;
        }
        self.stop = Some(decode::stop_reason(response));
        self.finish_into(out);
    }

    fn kind(&mut self, kind: &str, root: &Json, out: Vec<StreamEvent>) -> (result: Result<
        Vec<StreamEvent>,
        LlmError,
    >)
        ensures
            (final(self)@, views::res(result)) == with_kind(
                (old(self)@, out.deep_view()),
                kind@,
                root@,
            ),
    {
        let mut out = out;
        let none = Json::Null;
        if text::same(kind, "response.output_text.annotation.added") {
            self.annotation(root, &mut out);
        } else if text::same(kind, "response.output_item.done") {
            self.item_done(root, &mut out);
        } else if text::same(kind, "response.created") {
            self.created(root, &mut out);
        } else if text::same(kind, "response.output_item.added") {
            self.item_added(root, &mut out);
        } else if text::same(kind, "response.output_text.delta") {
            out.push(
                StreamEvent::TextDelta {
                    block: json::count(root.get("output_index")),
                    text: json::text_at(root, "delta"),
                },
            );
        } else if text::same(kind, "response.refusal.delta") || text::same(
            kind,
            "response.refusal.done",
        ) {
            self.saw_refusal = true;
        } else if text::same(kind, "response.content_part.added") || text::same(
            kind,
            "response.content_part.done",
        ) {
            if decode::has_refusal(json::member_or(root, "part", &none)) {
                self.saw_refusal = true;
            }
        } else if text::same(kind, "response.reasoning_text.delta") || text::same(
            kind,
            "response.reasoning_summary_text.delta",
        ) {
            out.push(
                StreamEvent::ReasoningDelta {
                    block: json::count(root.get("output_index")),
                    text: json::text_at(root, "delta"),
                },
            );
        } else if text::same(kind, "response.function_call_arguments.delta") {
            self.arguments(root, &mut out);
        } else if text::same(kind, "response.completed") || text::same(
            kind,
            "response.incomplete",
        ) {
            self.completed(json::member_or(root, "response", &none), &mut out);
        } else if text::same(kind, "response.failed") {
            return Err(decode::classify_error(500, json::member_or(root, "response", &none), None));
        } else if text::same(kind, "error") {
            if root.get("error").is_some() {
                return Err(decode::classify_error(500, root, None));
            }
            let envelope = json::object1("error", root.dup());
            return Err(decode::classify_error(500, &envelope, None));
        }
        Ok(out)
    }
}

fn some_refusal(items: &Vec<Json>) -> (result: bool)
    ensures
        result == any_refuses(items.deep_view(), 0),
{
    let mut i: usize = 0;
    while i < items.len()
        invariant
            i <= items.len(),
            any_refuses(items.deep_view(), 0) == any_refuses(items.deep_view(), i as int),
        decreases items.len() - i,
    {
        assert(items.deep_view()[i as int] == items@[i as int]@);
        if decode::has_refusal(&items[i]) {
            return true;
        }
        i = i + 1;
    }
    false
}

impl EventDecoder for ResponsesStreamDecoder {
    open spec fn frame_step(state: ResponsesStreamView, frame: Seq<u8>) -> (
        ResponsesStreamView,
        Decoded,
    ) {
        match stream::framed(
            frame,
            "stream frame is not valid UTF-8"@,
            "stream frame is not valid JSON"@,
        ) {
            Err(error) => (state, Err(error)),
            Ok(FrameView::Blank) => outcome((state, Seq::empty())),
            Ok(FrameView::Sentinel) => outcome(ended((state, Seq::empty()))),
            Ok(FrameView::Root(root)) => with_root((state, Seq::empty()), root),
        }
    }

    open spec fn finish_step(state: ResponsesStreamView) -> (ResponsesStreamView, Decoded) {
        if state.done {
            (state, Ok(Seq::empty()))
        } else {
            (state, Err(interrupted()))
        }
    }

    open spec fn headers_step(state: ResponsesStreamView, headers: HeaderViews) -> ResponsesStreamView {
        ResponsesStreamView {
            inference: inference::headers_seen(state.inference, headers),
            ..state
        }
    }

    open spec fn report_of(state: ResponsesStreamView) -> InferenceReportView {
        state.inference.report
    }

    open spec fn usage_of(state: ResponsesStreamView) -> UsageReportView {
        usage_so_far(state)
    }

    fn decode_frame(&mut self, frame: &[u8]) -> (result: Result<Vec<StreamEvent>, LlmError>) {
        let read = stream::read_frame(
            frame,
            "stream frame is not valid UTF-8",
            "stream frame is not valid JSON",
        )?;
        let mut out: Vec<StreamEvent> = Vec::new();
        match read {
            Frame::Blank => Ok(out),
            Frame::Sentinel => {
                self.finish_into(&mut out);
                Ok(out)
            },
            Frame::Root(root) => {
                self.inference.observe(&root, &mut out);
                match root.str_at("type") {
                    Some(kind) => self.kind(kind, &root, out),
                    None => Ok(out),
                }
            },
        }
    }

    fn finish(&mut self) -> (result: Result<Vec<StreamEvent>, LlmError>) {
        if !self.done {
            return Err(
                LlmError::StreamInterrupted {
                    message: "provider stream ended before a terminal event".to_owned(),
                },
            );
        }
        Ok(Vec::new())
    }

    fn set_response_headers(&mut self, headers: &Vec<(String, String)>) {
        self.inference.headers(headers);
    }

    fn inference_report(&self) -> (report: InferenceReport) {
        self.inference.report.dup()
    }

    fn usage_report(&self) -> (report: UsageReport) {
        decode::report(self.usage_raw.as_ref(), self.done)
    }
}

/// A stream that stops before its terminal event is an interruption.
pub proof fn a_cut_stream_is_an_interruption(state: ResponsesStreamView)
    ensures
        state.done <==> ResponsesStreamDecoder::finish_step(state).1 is Ok,
        !state.done ==> ResponsesStreamDecoder::finish_step(state).1->Err_0 is StreamInterrupted,
{
}

/// Between two steps there is an opening event where the stream began, a terminal one
/// where it ended, and no other of either.
spec fn counted(a: Step, b: Step) -> bool {
    &&& stream::ends(b.1) + stream::one(a.0.done) == stream::ends(a.1) + stream::one(b.0.done)
    &&& stream::starts(b.1) + stream::one(a.0.started) == stream::starts(a.1) + stream::one(
        b.0.started,
    )
}

proof fn lemma_search_counted(at: Step, found: Option<crate::protocol::WebSearchResultView>)
    ensures
        counted(at, with_search(at, found)),
{
    stream::lemma_events(at.1, web_search_decode::emitted(at.0.search, found).1);
}

proof fn lemma_calls_counted(
    shown: Seq<Seq<char>>,
    calls: Seq<JsonView>,
    i: int,
    events: Seq<StreamEventView>,
)
    ensures
        stream::ends(file_search_decode::emitted_of(shown, calls, i, events).1) == stream::ends(
            events,
        ),
        stream::starts(file_search_decode::emitted_of(shown, calls, i, events).1)
            == stream::starts(events),
    decreases calls.len() - i,
{
    if 0 <= i < calls.len() {
        let print = json::text_of(calls[i]);
        if shown.contains(print) {
            lemma_calls_counted(shown, calls, i + 1, events);
        } else {
            let event = StreamEventView::FileSearch {
                result: file_search_decode::result_of_calls(seq![calls[i]])->0,
            };
            stream::lemma_event(events, event);
            lemma_calls_counted(shown.push(print), calls, i + 1, events.push(event));
        }
    }
}

proof fn lemma_file_search_counted(at: Step, body: JsonView)
    ensures
        counted(at, with_file_search(at, body)),
{
    lemma_calls_counted(
        at.0.file_search,
        file_search_decode::search_calls(body),
        0,
        at.1,
    );
}

proof fn lemma_reasoning_counted(at: Step, block: u64, item: JsonView)
    ensures
        counted(at, with_reasoning(at, block, item)),
{
    stream::lemma_event(
        at.1,
        StreamEventView::ProviderContent {
            block,
            protocol: ProtocolFamily::OpenAiResponses,
            value: item,
        },
    );
}

proof fn lemma_reasonings_counted(at: Step, items: Seq<JsonView>, i: int)
    ensures
        counted(at, with_reasonings(at, items, i)),
    decreases items.len() - i,
{
    if 0 <= i < items.len() {
        lemma_reasoning_counted(at, i as u64, items[i]);
        lemma_reasonings_counted(with_reasoning(at, i as u64, items[i]), items, i + 1);
    }
}

proof fn lemma_ended_counted(at: Step)
    ensures
        counted(at, ended(at)),
        ended(at).0.done,
{
    if !at.0.done {
        stream::lemma_event(at.1, ended(at).1.last());
        assert(ended(at).1 =~= at.1.push(ended(at).1.last()));
    }
}

proof fn lemma_completed_counted(at: Step, response: JsonView)
    ensures
        counted(at, with_completed(at, response)),
{
    let items = json::items_in(json::member(response, "output"@));
    lemma_reasonings_counted(at, items, 0);
    let reasoned = with_reasonings(at, items, 0);
    lemma_file_search_counted(reasoned, response);
    let filed = with_file_search(reasoned, response);
    let found = web_search_decode::result_of(
        web_search_decode::with_counters(
            web_search_decode::responses_metadata(response),
            json::member(response, "usage"@),
        ),
    );
    lemma_search_counted(filed, found);
    let searched = with_search(filed, found);
    let tallied = match chat::decode::usage_in(response) {
        Some(usage) => (
            ResponsesStreamView { usage_raw: Some(usage), ..searched.0 },
            searched.1,
        ),
        None => searched,
    };
    let noted = with_refusal(tallied, any_refuses(items, 0));
    lemma_ended_counted(
        (ResponsesStreamView { stop: Some(decode::stop_of(response)), ..noted.0 }, noted.1),
    );
}

proof fn lemma_item_done_counted(at: Step, root: JsonView)
    ensures
        counted(at, with_item_done(at, root)),
{
    let item = json::at(root, "item"@);
    lemma_reasoning_counted(at, index_of(root), item);
    let shown = with_refusal(with_reasoning(at, index_of(root), item), decode::refuses(item));
    let body = json::obj1("output"@, JsonView::Array(seq![item]));
    lemma_file_search_counted(shown, body);
    let searched = if json::is_kind(item, "file_search_call"@) {
        with_file_search(shown, body)
    } else {
        shown
    };
    lemma_search_counted(searched, web_search_decode::single("web_search_calls"@, item));
}

proof fn lemma_annotation_counted(at: Step, root: JsonView)
    ensures
        counted(at, with_annotation(at, root)),
{
    lemma_search_counted(
        at,
        web_search_decode::single(
            "annotations"@,
            web_search_decode::placed(
                index_of(root),
                json::count_in(json::member(root, "content_index"@)),
                json::at(root, "annotation"@),
            ),
        ),
    );
}

proof fn lemma_created_counted(at: Step, root: JsonView)
    ensures
        counted(at, with_created(at, root)),
{
    let response = json::at(root, "response"@);
    stream::lemma_event(
        at.1,
        StreamEventView::Start {
            model: json::text_or_empty(response, "model"@),
            response_id: json::str_at(response, "id"@),
        },
    );
}

proof fn lemma_item_added_counted(at: Step, root: JsonView)
    ensures
        counted(at, with_item_added(at, root)),
{
    let item = json::at(root, "item"@);
    stream::lemma_event(
        at.1,
        StreamEventView::ToolCallDelta {
            block: index_of(root),
            id: json::text_or_empty(item, "call_id"@),
            provider_id: None,
            name: json::text_or_empty(item, "name"@),
            arguments_fragment: Seq::empty(),
        },
    );
}

proof fn lemma_arguments_counted(at: Step, root: JsonView)
    ensures
        counted(at, with_arguments(at, root)),
{
    if let Some(call) = call_of(at.0.calls, index_of(root), 0) {
        stream::lemma_event(
            at.1,
            StreamEventView::ToolCallDelta {
                block: index_of(root),
                id: call.id,
                provider_id: None,
                name: call.name,
                arguments_fragment: json::text_or_empty(root, "delta"@),
            },
        );
    }
}

/// A step that the outcome of a kind of frame is, and that is counted.
spec fn counts(at: Step, result: (ResponsesStreamView, Decoded)) -> bool {
    match result.1 {
        Ok(events) => counted(at, (result.0, events)),
        Err(_) => result.0 == at.0,
    }
}

#[verifier::spinoff_prover]
#[verifier::rlimit(40)]
proof fn lemma_kind_counted(at: Step, kind: Seq<char>, root: JsonView)
    ensures
        counts(at, with_kind(at, kind, root)),
{
    let block = index_of(root);
    let text = json::text_or_empty(root, "delta"@);
    stream::lemma_event(at.1, StreamEventView::TextDelta { block, text });
    stream::lemma_event(at.1, StreamEventView::ReasoningDelta { block, text });
    if kind == "response.output_text.annotation.added"@ {
        lemma_annotation_counted(at, root);
    } else if kind == "response.output_item.done"@ {
        lemma_item_done_counted(at, root);
    } else if kind == "response.created"@ {
        lemma_created_counted(at, root);
    } else if kind == "response.output_item.added"@ {
        lemma_item_added_counted(at, root);
    } else if kind == "response.function_call_arguments.delta"@ {
        lemma_arguments_counted(at, root);
    } else if kind == "response.completed"@ || kind == "response.incomplete"@ {
        lemma_completed_counted(at, json::at(root, "response"@));
    }
}

proof fn lemma_frame_counted(state: ResponsesStreamView, frame: Seq<u8>)
    ensures
        ({
            let (after, result) = ResponsesStreamDecoder::frame_step(state, frame);
            &&& result matches Ok(events) ==> counted((state, Seq::empty()), (after, events))
            &&& result is Err ==> after.done == state.done && after.started == state.started
            &&& state.done ==> after.done
            &&& state.started ==> after.started
        }),
{
    let at: Step = (state, Seq::empty());
    if let Ok(read) = stream::framed(
        frame,
        "stream frame is not valid UTF-8"@,
        "stream frame is not valid JSON"@,
    ) {
        match read {
            FrameView::Blank => {},
            FrameView::Sentinel => {
                lemma_ended_counted(at);
            },
            FrameView::Root(root) => {
                let next = inference::stream_observed(state.inference, root);
                stream::lemma_events(
                    at.1,
                    inference::report_events(state.inference.report, next.report),
                );
                let observed = with_inference(at, root);
                if let Some(kind) = json::str_at(root, "type"@) {
                    lemma_kind_counted(observed, kind, root);
                }
            },
        }
    }
}

proof fn lemma_frames_counted(
    state: ResponsesStreamView,
    events: Seq<StreamEventView>,
    frames: Seq<Seq<u8>>,
    i: int,
)
    ensures
        counted((state, events), stream::after_frames::<ResponsesStreamDecoder>(state, events, frames, i)),
    decreases frames.len() - i,
{
    if 0 <= i < frames.len() {
        lemma_frame_counted(state, frames[i]);
        let (after, result) = ResponsesStreamDecoder::frame_step(state, frames[i]);
        let next = match result {
            Ok(more) => {
                stream::lemma_joined(events, more);
                events + more
            },
            Err(_) => events,
        };
        lemma_frames_counted(after, next, frames, i + 1);
    }
}

/// Over its whole life a decoder gives one opening event at most, and one terminal
/// event at most.
pub proof fn a_stream_starts_and_ends_once(context: CodecContext, frames: Seq<Seq<u8>>)
    ensures
        ({
            let at = stream::after_frames::<ResponsesStreamDecoder>(
                responses_start(context),
                Seq::empty(),
                frames,
                0,
            );
            &&& stream::ends(at.1) <= 1
            &&& stream::starts(at.1) <= 1
            &&& ResponsesStreamDecoder::finish_step(at.0).1 matches Ok(more) ==> stream::ends(at.1 + more) <= 1
                && stream::starts(at.1 + more) <= 1
        }),
{
    lemma_frames_counted(responses_start(context), Seq::empty(), frames, 0);
    let at = stream::after_frames::<ResponsesStreamDecoder>(responses_start(context), Seq::empty(), frames, 0);
    lemma_ended_counted((at.0, Seq::empty()));
    if let Ok(more) = ResponsesStreamDecoder::finish_step(at.0).1 {
        stream::lemma_joined(at.1, more);
    }
}

/// After the terminal event there is no other: no frame brings one, and neither the
/// sentinel nor the end of the bytes brings anything.
pub proof fn the_end_comes_once(state: ResponsesStreamView, frame: Seq<u8>)
    requires
        state.done,
    ensures
        ResponsesStreamDecoder::frame_step(state, frame).0.done,
        ResponsesStreamDecoder::frame_step(state, frame).1 matches Ok(events) ==> stream::ends(events) == 0,
        stream::framed(
            frame,
            "stream frame is not valid UTF-8"@,
            "stream frame is not valid JSON"@,
        ) == Ok::<FrameView, LlmErrorView>(FrameView::Sentinel) ==> (
        ResponsesStreamDecoder::frame_step(state, frame) == (state, Ok::<
            Seq<StreamEventView>,
            LlmErrorView,
        >(Seq::empty()))),
        ResponsesStreamDecoder::finish_step(state) == (state, Ok::<
            Seq<StreamEventView>,
            LlmErrorView,
        >(Seq::empty())),
{
    lemma_frame_counted(state, frame);
}

} // verus!
