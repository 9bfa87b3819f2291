//! Raw-byte framing for decoders whose events arrive as server-sent events. A
//! batch keeps earlier events in front of an error.

use crate::codecs::extras::HeaderViews;
use crate::codecs::{self, Decoded, EventDecoder, Items, StreamDecoder};
use crate::framing::sse::{self, SplitterView, SseFrameSplitter};
use crate::json::{self, Json, JsonView};
use crate::protocol::error;
use crate::protocol::{
    InferenceReport, InferenceReportView, LlmError, LlmErrorView, StreamEvent, StreamEventView,
    UsageReport, UsageReportView,
};
use crate::text;
use crate::views;
use vstd::prelude::*;

verus! {

broadcast use crate::views::group_views;

/// What a frame holds: a JSON event, nothing, or the sentinel that some
/// endpoints end with.
pub enum Frame {
    Root(Json),
    Blank,
    Sentinel,
}

pub enum FrameView {
    Root(JsonView),
    Blank,
    Sentinel,
}

impl DeepView for Frame {
    type V = FrameView;

    open spec fn deep_view(&self) -> FrameView {
        match self {
            Frame::Root(root) => FrameView::Root(root@),
            Frame::Blank => FrameView::Blank,
            Frame::Sentinel => FrameView::Sentinel,
        }
    }
}

/// What a frame holds, or which of the two messages says what it is not.
pub open spec fn framed(frame: Seq<u8>, no_utf8: Seq<char>, no_json: Seq<char>) -> Result<
    FrameView,
    LlmErrorView,
> {
    match text::utf8_text(frame) {
        None => Err(error::invalid_view(no_utf8)),
        Some(text) => {
            let data = text::trimmed(text);
            if data == "[DONE]"@ {
                Ok(FrameView::Sentinel)
            } else if data.len() == 0 {
                Ok(FrameView::Blank)
            } else {
                match json::parsed(vstd::utf8::encode_utf8(data)) {
                    Ok(root) => Ok(FrameView::Root(root)),
                    Err(_) => Err(error::invalid_view(no_json)),
                }
            }
        },
    }
}

pub fn read_frame(frame: &[u8], no_utf8: &str, no_json: &str) -> (result: Result<Frame, LlmError>)
    ensures
        views::res(result) == framed(frame@, no_utf8@, no_json@),
{
    let text = match text::of_utf8(frame) {
        Some(text) => text,
        None => return Err(error::invalid(no_utf8)),
    };
    let data = text::trim(&text);
    if text::same(&data, "[DONE]") {
        Ok(Frame::Sentinel)
    } else if text::is_empty(&data) {
        Ok(Frame::Blank)
    } else {
        match json::parse(data.as_str().as_bytes()) {
            Ok(root) => Ok(Frame::Root(root)),
            Err(_) => Err(error::invalid(no_json)),
        }
    }
}

pub struct SseDecoder<D: EventDecoder> {
    inner: D,
    framing: SseFrameSplitter,
    ended: bool,
}

pub struct SseView<S> {
    pub inner: S,
    pub framing: SplitterView,
    pub ended: bool,
}

impl<D: EventDecoder> View for SseDecoder<D> {
    type V = SseView<D::V>;

    closed spec fn view(&self) -> SseView<D::V> {
        SseView { inner: self.inner@, framing: self.framing@, ended: self.ended }
    }
}

/// The state before any byte came in.
pub open spec fn fresh<S>(inner: S) -> SseView<S> {
    SseView {
        inner,
        framing: SplitterView { buffer: Seq::empty(), skip_lf: false },
        ended: false,
    }
}

/// What has come out, and whether the stream is over.
pub struct Out {
    pub items: Items,
    pub ended: bool,
}

/// What comes out once the events from the `i`th on are there: none after the
/// terminal one.
pub open spec fn with_events(out: Out, events: Seq<StreamEventView>, i: int) -> Out
    decreases events.len() - i,
{
    if i < 0 || i >= events.len() || out.ended {
        out
    } else {
        with_events(
            Out {
                items: out.items.push(Ok(events[i])),
                ended: events[i] is End,
            },
            events,
            i + 1,
        )
    }
}

/// What comes out once a frame's result is there. An error ends the stream.
pub open spec fn with_result(out: Out, result: Decoded) -> Out {
    match result {
        Ok(events) => with_events(out, events, 0),
        Err(error) => Out { items: out.items.push(Err(error)), ended: true },
    }
}

/// The decoder and what has come out, once the frames from the `i`th on are
/// there: none after the stream is over.
pub open spec fn with_frames<D: EventDecoder>(
    state: D::V,
    out: Out,
    frames: Seq<Seq<u8>>,
    i: int,
) -> (D::V, Out)
    decreases frames.len() - i,
{
    if i < 0 || i >= frames.len() || out.ended {
        (state, out)
    } else {
        let (next, result) = D::frame_step(state, frames[i]);
        with_frames::<D>(next, with_result(out, result), frames, i + 1)
    }
}

pub open spec fn nothing() -> Out {
    Out { items: Seq::empty(), ended: false }
}

/// The state after a chunk, and what comes out of it.
pub open spec fn after_chunk<D: EventDecoder>(state: SseView<D::V>, bytes: Seq<u8>) -> (
    SseView<D::V>,
    Items,
) {
    if state.ended {
        (state, Seq::empty())
    } else {
        let pushed = sse::pushed(state.framing, bytes);
        let (inner, out) = with_frames::<D>(state.inner, nothing(), pushed.frames, 0);
        let out = if !out.ended && pushed.overflow {
            with_result(out, Err(sse::overflow_error()))
        } else {
            out
        };
        (SseView { inner, framing: pushed.after, ended: out.ended }, out.items)
    }
}

/// The state after the end, and what comes out of it.
pub open spec fn after_end<D: EventDecoder>(state: SseView<D::V>) -> (SseView<D::V>, Items) {
    if state.ended {
        (state, Seq::empty())
    } else {
        let (inner, out) = match sse::event_frame(state.framing.buffer) {
            Some(frame) => {
                let (inner, result) = D::frame_step(state.inner, frame);
                (inner, with_result(nothing(), result))
            },
            None => (state.inner, nothing()),
        };
        let (inner, out) = if out.ended {
            (inner, out)
        } else {
            let (inner, result) = D::finish_step(inner);
            (inner, with_result(out, result))
        };
        (
            SseView {
                inner,
                framing: SplitterView { buffer: Seq::empty(), skip_lf: false },
                ended: true,
            },
            out.items,
        )
    }
}

proof fn lemma_items_push(items: Seq<Result<StreamEvent, LlmError>>, item: Result<StreamEvent, LlmError>)
    ensures
        codecs::item_views(items.push(item)) == codecs::item_views(items).push(views::res(item)),
{
    assert(codecs::item_views(items.push(item)) =~= codecs::item_views(items).push(
        views::res(item),
    ));
}

/// Appends a frame's result, and says whether the stream is over.
pub fn append(
    items: &mut Vec<Result<StreamEvent, LlmError>>,
    result: Result<Vec<StreamEvent>, LlmError>,
) -> (ended: bool)
    ensures
        ({
            let out = with_result(
                Out { items: codecs::item_views(old(items)@), ended: false },
                views::res(result),
            );
            codecs::item_views(final(items)@) == out.items && ended == out.ended
        }),
{
    match result {
        Ok(events) => {
            let ghost all = views::each(events@);
            let ghost whole = with_events(
                Out { items: codecs::item_views(old(items)@), ended: false },
                all,
                0,
            );
            let mut rest = events;
            let ghost mut i: int = 0;
            assert(all.skip(0) =~= all);
            while rest.len() > 0
                invariant
                    0 <= i <= all.len(),
                    views::each(rest@) == all.skip(i),
                    whole == with_events(
                        Out { items: codecs::item_views(items@), ended: false },
                        all,
                        i,
                    ),
                    whole == with_result(
                        Out { items: codecs::item_views(old(items)@), ended: false },
                        views::res(result),
                    ),
                decreases rest.len(),
            {
                let ghost before = rest@;
                let ghost so_far = items@;
                assert(views::each(before).len() == all.len() - i);
                assert(views::each(before)[0] == before[0].deep_view());
                assert(all.skip(i)[0] == all[i]);
                let event = rest.remove(0);
                assert(views::each(rest@) =~= views::each(before).skip(1));
                assert(all.skip(i).skip(1) =~= all.skip(i + 1));
                let terminal = match &event {
                    StreamEvent::End { .. } => true,
                    _ => false,
                };
                proof {
                    lemma_items_push(so_far, Ok(event));
                    i = i + 1;
                }
                items.push(Ok(event));
                if terminal {
                    let ghost done = Out { items: codecs::item_views(items@), ended: true };
                    assert(with_events(done, all, i) == done);
                    return true;
                }
            }
            false
        },
        Err(error) => {
            proof {
                lemma_items_push(items@, Err(error));
            }
            items.push(Err(error));
            true
        },
    }
}

impl<D: EventDecoder> SseDecoder<D> {
    pub fn new(inner: D) -> (decoder: Self)
        ensures
            decoder@ == fresh(inner@),
    {
        SseDecoder { inner, framing: SseFrameSplitter::new(), ended: false }
    }
}

impl<D: EventDecoder> StreamDecoder for SseDecoder<D> {
    open spec fn push_step(state: SseView<D::V>, bytes: Seq<u8>) -> (SseView<D::V>, Items) {
        after_chunk::<D>(state, bytes)
    }

    open spec fn close_step(state: SseView<D::V>) -> (SseView<D::V>, Items) {
        after_end::<D>(state)
    }

    open spec fn with_headers(state: SseView<D::V>, headers: HeaderViews) -> SseView<D::V> {
        SseView { inner: D::headers_step(state.inner, headers), ..state }
    }

    open spec fn known_inference(state: SseView<D::V>) -> InferenceReportView {
        D::report_of(state.inner)
    }

    open spec fn known_usage(state: SseView<D::V>) -> UsageReportView {
        D::usage_of(state.inner)
    }

    fn set_response_headers(&mut self, headers: &Vec<(String, String)>) {
        self.inner.set_response_headers(headers);
    }

    fn push_bytes(&mut self, bytes: &[u8]) -> (items: Vec<Result<StreamEvent, LlmError>>) {
        let mut items: Vec<Result<StreamEvent, LlmError>> = Vec::new();
        assert(codecs::item_views(items@) =~= Seq::empty());
        if self.ended {
            return items;
        }
        let ghost start = self@;
        let (frames, error) = self.framing.push_batch(bytes);
        let ghost pushed = sse::pushed(start.framing, bytes@);
        let ghost all = frames.deep_view();
        let ghost whole = with_frames::<D>(start.inner, nothing(), all, 0);
        let mut i: usize = 0;
        while i < frames.len() && !self.ended
            invariant
                i <= frames.len(),
                all == frames.deep_view(),
                self.framing@ == pushed.after,
                whole == with_frames::<D>(
                    self.inner@,
                    Out { items: codecs::item_views(items@), ended: self.ended },
                    all,
                    i as int,
                ),
            decreases frames.len() - i,
        {
            assert(all[i as int] == frames@[i as int].deep_view());
            assert(frames@[i as int].deep_view() =~= frames@[i as int]@);
            let result = self.inner.decode_frame(&frames[i]);
            self.ended = append(&mut items, result);
            i = i + 1;
        }
        assert(whole == (
            self.inner@,
            Out { items: codecs::item_views(items@), ended: self.ended },
        ));
        if !self.ended {
            if let Some(error) = error {
                self.ended = append(&mut items, Err(error));
            }
        }
        items
    }

    fn finish(&mut self) -> (items: Vec<Result<StreamEvent, LlmError>>) {
        let mut items: Vec<Result<StreamEvent, LlmError>> = Vec::new();
        assert(codecs::item_views(items@) =~= Seq::empty());
        if self.ended {
            return items;
        }
        let mut ended = false;
        match self.framing.finish() {
            Ok(Some(frame)) => {
                assert(frame.deep_view() =~= frame@);
                let result = self.inner.decode_frame(&frame);
                ended = append(&mut items, result);
            },
            Ok(None) => {},
            Err(error) => {
                ended = append(&mut items, Err(error));
            },
        }
        if !ended {
            let result = self.inner.finish();
            append(&mut items, result);
        }
        self.ended = true;
        items
    }

    fn inference_report(&self) -> (report: InferenceReport) {
        self.inner.inference_report()
    }

    fn usage_report(&self) -> (report: UsageReport) {
        self.inner.usage_report()
    }
}

/// Whether an item ends the stream.
pub open spec fn terminal(item: Result<StreamEventView, LlmErrorView>) -> bool {
    match item {
        Ok(event) => event is End,
        Err(_) => true,
    }
}

/// Only the last item can be terminal, and it is exactly where the stream is over.
pub open spec fn closed_by_last(out: Out) -> bool {
    &&& forall|k: int| 0 <= k < out.items.len() - 1 ==> !terminal(#[trigger] out.items[k])
    &&& out.ended == (out.items.len() > 0 && terminal(out.items.last()))
}

proof fn lemma_events_close(out: Out, events: Seq<StreamEventView>, i: int)
    requires
        closed_by_last(out),
    ensures
        closed_by_last(with_events(out, events, i)),
    decreases events.len() - i,
{
    if 0 <= i < events.len() && !out.ended {
        let next = Out { items: out.items.push(Ok(events[i])), ended: events[i] is End };
        assert(closed_by_last(next)) by {
            assert(next.items.last() == Ok::<StreamEventView, LlmErrorView>(events[i]));
            assert forall|k: int| 0 <= k < next.items.len() - 1 implies !terminal(
                #[trigger] next.items[k],
            ) by {
                assert(next.items[k] == out.items[k]);
                if k == out.items.len() - 1 {
                    assert(out.items.last() == out.items[k]);
                }
            }
        }
        lemma_events_close(next, events, i + 1);
    }
}

proof fn lemma_result_closes(out: Out, result: Decoded)
    requires
        closed_by_last(out),
        !out.ended,
    ensures
        closed_by_last(with_result(out, result)),
{
    match result {
        Ok(events) => lemma_events_close(out, events, 0),
        Err(error) => {
            let next = with_result(out, result);
            assert forall|k: int| 0 <= k < next.items.len() - 1 implies !terminal(
                #[trigger] next.items[k],
            ) by {
                assert(next.items[k] == out.items[k]);
                if k == out.items.len() - 1 {
                    assert(out.items.last() == out.items[k]);
                }
            }
        },
    }
}

proof fn lemma_frames_close<D: EventDecoder>(state: D::V, out: Out, frames: Seq<Seq<u8>>, i: int)
    requires
        closed_by_last(out),
    ensures
        closed_by_last(with_frames::<D>(state, out, frames, i).1),
    decreases frames.len() - i,
{
    if 0 <= i < frames.len() && !out.ended {
        let (next, result) = D::frame_step(state, frames[i]);
        lemma_result_closes(out, result);
        lemma_frames_close::<D>(next, with_result(out, result), frames, i + 1);
    }
}

/// Nothing follows the end. Of what a chunk or the end of the stream brings, only
/// the last item can be the terminal event or an error; once one has come out, or
/// the stream was closed, nothing comes out any more.
pub proof fn nothing_follows_the_end<D: EventDecoder>(state: SseView<D::V>, bytes: Seq<u8>)
    ensures
        ({
            let (after, items) = after_chunk::<D>(state, bytes);
            &&& forall|k: int| 0 <= k < items.len() - 1 ==> !terminal(#[trigger] items[k])
            &&& !state.ended ==> after.ended == (items.len() > 0 && terminal(items.last()))
            &&& state.ended ==> after.ended && items.len() == 0
        }),
        ({
            let (after, items) = after_end::<D>(state);
            &&& forall|k: int| 0 <= k < items.len() - 1 ==> !terminal(#[trigger] items[k])
            &&& after.ended
            &&& state.ended ==> items.len() == 0
        }),
{
    if !state.ended {
        let pushed = sse::pushed(state.framing, bytes);
        lemma_frames_close::<D>(state.inner, nothing(), pushed.frames, 0);
        let out = with_frames::<D>(state.inner, nothing(), pushed.frames, 0).1;
        if !out.ended {
            lemma_result_closes(out, Err(sse::overflow_error()));
        }
        let (inner, out) = match sse::event_frame(state.framing.buffer) {
            Some(frame) => {
                let (inner, result) = D::frame_step(state.inner, frame);
                lemma_result_closes(nothing(), result);
                (inner, with_result(nothing(), result))
            },
            None => (state.inner, nothing()),
        };
        if !out.ended {
            lemma_result_closes(out, D::finish_step(inner).1);
        }
    }
}

/// How many terminal events there are.
pub open spec fn ends(events: Seq<StreamEventView>) -> nat
    decreases events.len(),
{
    if events.len() == 0 {
        0
    } else {
        ends(events.drop_last()) + if events.last() is End {
            1nat
        } else {
            0nat
        }
    }
}

/// How many opening events there are.
pub open spec fn starts(events: Seq<StreamEventView>) -> nat
    decreases events.len(),
{
    if events.len() == 0 {
        0
    } else {
        starts(events.drop_last()) + if events.last() is Start {
            1nat
        } else {
            0nat
        }
    }
}

pub open spec fn one(flag: bool) -> nat {
    if flag {
        1
    } else {
        0
    }
}

pub(crate) proof fn lemma_event(events: Seq<StreamEventView>, event: StreamEventView)
    ensures
        ends(events.push(event)) == ends(events) + one(event is End),
        starts(events.push(event)) == starts(events) + one(event is Start),
{
    assert(events.push(event).drop_last() =~= events);
}

/// A list of at most one event that neither opens nor ends changes no count.
pub(crate) proof fn lemma_events(events: Seq<StreamEventView>, more: Seq<StreamEventView>)
    requires
        more.len() <= 1,
        more.len() == 1 ==> more[0] !is End && more[0] !is Start,
    ensures
        ends(events + more) == ends(events),
        starts(events + more) == starts(events),
{
    if more.len() == 1 {
        assert(events + more =~= events.push(more[0]));
        lemma_event(events, more[0]);
    } else {
        assert(events + more =~= events);
    }
}

/// What the events say, put together: `part` is what one event says.
pub open spec fn gathered(
    events: Seq<StreamEventView>,
    part: spec_fn(StreamEventView) -> Seq<char>,
) -> Seq<char>
    decreases events.len(),
{
    if events.len() == 0 {
        Seq::empty()
    } else {
        gathered(events.drop_last(), part) + part(events.last())
    }
}

/// The text of an event of the answer.
pub open spec fn text_part() -> spec_fn(StreamEventView) -> Seq<char> {
    |event: StreamEventView|
        match event {
            StreamEventView::TextDelta { text, .. } => text,
            _ => Seq::empty(),
        }
}

/// The text of an event of the reasoning.
pub open spec fn reasoning_part() -> spec_fn(StreamEventView) -> Seq<char> {
    |event: StreamEventView|
        match event {
            StreamEventView::ReasoningDelta { text, .. } => text,
            _ => Seq::empty(),
        }
}

/// The fragment of the arguments of the call in a block.
pub open spec fn arguments_part(at: u64) -> spec_fn(StreamEventView) -> Seq<char> {
    |event: StreamEventView|
        match event {
            StreamEventView::ToolCallDelta { block, arguments_fragment, .. } => if block == at {
                arguments_fragment
            } else {
                Seq::empty()
            },
            _ => Seq::empty(),
        }
}

/// The answer that the events tell.
pub open spec fn said(events: Seq<StreamEventView>) -> Seq<char> {
    gathered(events, text_part())
}

/// The reasoning that the events tell.
pub open spec fn reasoned(events: Seq<StreamEventView>) -> Seq<char> {
    gathered(events, reasoning_part())
}

/// The arguments that the events tell of the call in a block.
pub open spec fn argued(events: Seq<StreamEventView>, block: u64) -> Seq<char> {
    gathered(events, arguments_part(block))
}

/// An event that says nothing adds nothing.
pub(crate) proof fn lemma_silent(
    events: Seq<StreamEventView>,
    part: spec_fn(StreamEventView) -> Seq<char>,
)
    requires
        events.len() <= 1,
        events.len() == 1 ==> part(events[0]).len() == 0,
    ensures
        gathered(events, part).len() == 0,
{
    reveal_with_fuel(gathered, 2);
}

pub(crate) broadcast proof fn lemma_gathered_push(
    events: Seq<StreamEventView>,
    event: StreamEventView,
    part: spec_fn(StreamEventView) -> Seq<char>,
)
    ensures
        #[trigger] gathered(events.push(event), part) == gathered(events, part) + part(event),
{
    assert(events.push(event).drop_last() =~= events);
}

pub(crate) broadcast proof fn lemma_gathered_add(
    events: Seq<StreamEventView>,
    more: Seq<StreamEventView>,
    part: spec_fn(StreamEventView) -> Seq<char>,
)
    ensures
        #[trigger] gathered(events + more, part) == gathered(events, part) + gathered(more, part),
    decreases more.len(),
{
    if more.len() == 0 {
        assert(events + more =~= events);
        assert(gathered(events, part) + gathered(more, part) =~= gathered(events, part));
    } else {
        lemma_gathered_add(events, more.drop_last(), part);
        assert((events + more).drop_last() =~= events + more.drop_last());
        assert((gathered(events, part) + gathered(more.drop_last(), part)) + part(more.last())
            =~= gathered(events, part) + (gathered(more.drop_last(), part) + part(more.last())));
    }
}

/// The state and the events after the frames from the `i`th on. A frame that fails
/// gives no event.
pub open spec fn after_frames<D: EventDecoder>(
    state: D::V,
    events: Seq<StreamEventView>,
    frames: Seq<Seq<u8>>,
    i: int,
) -> (D::V, Seq<StreamEventView>)
    decreases frames.len() - i,
{
    if i < 0 || i >= frames.len() {
        (state, events)
    } else {
        let (after, result) = D::frame_step(state, frames[i]);
        after_frames::<D>(
            after,
            match result {
                Ok(more) => events + more,
                Err(_) => events,
            },
            frames,
            i + 1,
        )
    }
}

/// The JSON value in a frame, where it holds one.
pub open spec fn root_in(frame: Seq<u8>) -> Option<JsonView> {
    match text::utf8_text(frame) {
        Some(text) => if text::trimmed(text) == "[DONE]"@ || text::trimmed(text).len() == 0 {
            None
        } else {
            match json::parsed(vstd::utf8::encode_utf8(text::trimmed(text))) {
                Ok(root) => Some(root),
                Err(_) => None,
            }
        },
        None => None,
    }
}

/// What a frame says, where `part` is what the value in it says.
pub open spec fn frame_part(frame: Seq<u8>, part: spec_fn(JsonView) -> Seq<char>) -> Seq<char> {
    match root_in(frame) {
        Some(root) => part(root),
        None => Seq::empty(),
    }
}

/// What the frames from the `i`th on say, put together.
pub open spec fn told(frames: Seq<Seq<u8>>, i: int, part: spec_fn(JsonView) -> Seq<char>) -> Seq<char>
    decreases frames.len() - i,
{
    if i < 0 || i >= frames.len() {
        Seq::empty()
    } else {
        frame_part(frames[i], part) + told(frames, i + 1, part)
    }
}

/// Whether the events of one frame say what the frame says.
pub open spec fn faithful(
    result: Decoded,
    frame: Seq<u8>,
    event_part: spec_fn(StreamEventView) -> Seq<char>,
    part: spec_fn(JsonView) -> Seq<char>,
) -> bool {
    match result {
        Ok(events) => gathered(events, event_part) == frame_part(frame, part),
        Err(_) => frame_part(frame, part).len() == 0,
    }
}

/// Where the events of each frame say what the frame says, those of a stream say what
/// the stream says.
pub(crate) proof fn lemma_told<D: EventDecoder>(
    state: D::V,
    events: Seq<StreamEventView>,
    frames: Seq<Seq<u8>>,
    i: int,
    event_part: spec_fn(StreamEventView) -> Seq<char>,
    part: spec_fn(JsonView) -> Seq<char>,
)
    requires
        0 <= i,
        forall|state: D::V, frame: Seq<u8>|
            faithful((#[trigger] D::frame_step(state, frame)).1, frame, event_part, part),
    ensures
        gathered(after_frames::<D>(state, events, frames, i).1, event_part) == gathered(
            events,
            event_part,
        ) + told(frames, i, part),
    decreases frames.len() - i,
{
    let before = gathered(events, event_part);
    if i < frames.len() {
        let (after, result) = D::frame_step(state, frames[i]);
        let more = match result {
            Ok(more) => events + more,
            Err(_) => events,
        };
        assert(faithful(result, frames[i], event_part, part));
        if let Ok(more) = result {
            lemma_gathered_add(events, more, event_part);
        }
        assert(gathered(more, event_part) =~= before + frame_part(frames[i], part));
        lemma_told::<D>(after, more, frames, i + 1, event_part, part);
        assert((before + frame_part(frames[i], part)) + told(frames, i + 1, part) =~= before + (
        frame_part(frames[i], part) + told(frames, i + 1, part)));
    } else {
        assert(before + told(frames, i, part) =~= before);
    }
}

pub(crate) proof fn lemma_joined(events: Seq<StreamEventView>, more: Seq<StreamEventView>)
    ensures
        ends(events + more) == ends(events) + ends(more),
        starts(events + more) == starts(events) + starts(more),
    decreases more.len(),
{
    if more.len() == 0 {
        assert(events + more =~= events);
    } else {
        lemma_joined(events, more.drop_last());
        assert((events + more).drop_last() =~= events + more.drop_last());
    }
}

/// Events as a decoder hands them on.
pub open spec fn handed(events: Seq<StreamEventView>) -> Items {
    Seq::new(events.len(), |k: int| Ok(events[k]))
}

/// No event but the last one ends the stream.
pub open spec fn goes_on(events: Seq<StreamEventView>) -> bool {
    forall|k: int| 0 <= k < events.len() - 1 ==> !(#[trigger] events[k] is End)
}

/// The frames from the `i`th on are decoded without an error, and none of them ends the
/// stream.
pub open spec fn flows<D: EventDecoder>(state: D::V, frames: Seq<Seq<u8>>, i: int) -> bool
    decreases frames.len() - i,
{
    if i < 0 || i >= frames.len() {
        true
    } else {
        match D::frame_step(state, frames[i]).1 {
            Ok(events) => goes_on(events) && (events.len() == 0 || !(events.last() is End))
                && flows::<D>(D::frame_step(state, frames[i]).0, frames, i + 1),
            Err(_) => false,
        }
    }
}

proof fn lemma_events_handed(out: Out, events: Seq<StreamEventView>, i: int)
    requires
        !out.ended,
        0 <= i <= events.len(),
        goes_on(events),
    ensures
        ({
            let after = with_events(out, events, i);
            &&& after.items =~= out.items + handed(events.subrange(i, events.len() as int))
            &&& i < events.len() ==> (after.ended <==> events.last() is End)
            &&& i == events.len() ==> !after.ended
        }),
    decreases events.len() - i,
{
    if i < events.len() {
        let next = Out { items: out.items.push(Ok(events[i])), ended: events[i] is End };
        let rest = handed(events.subrange(i, events.len() as int));
        assert(events.last() == events[events.len() - 1]);
        if next.ended {
            assert(i == events.len() - 1);
            assert(with_events(next, events, i + 1) == next);
            assert(rest =~= seq![Ok::<StreamEventView, LlmErrorView>(events[i])]);
        } else {
            lemma_events_handed(next, events, i + 1);
            assert(rest =~= seq![Ok::<StreamEventView, LlmErrorView>(events[i])] + handed(
                events.subrange(i + 1, events.len() as int),
            ));
        }
    }
}

/// The events of a frame are handed on, all of them and in order, after what was handed
/// on before; the stream is over if and only if the last of them says so.
pub proof fn a_frame_is_handed_on_whole(out: Out, events: Seq<StreamEventView>)
    requires
        !out.ended,
        goes_on(events),
    ensures
        ({
            let after = with_result(out, Ok(events));
            &&& after.items == out.items + handed(events)
            &&& after.ended <==> events.len() > 0 && events.last() is End
        }),
{
    lemma_events_handed(out, events, 0);
    assert(events.subrange(0, events.len() as int) =~= events);
}

proof fn lemma_frames_handed<D: EventDecoder>(
    state: D::V,
    events: Seq<StreamEventView>,
    frames: Seq<Seq<u8>>,
    i: int,
)
    requires
        0 <= i,
        flows::<D>(state, frames, i),
    ensures
        ({
            let out = Out { items: handed(events), ended: false };
            let (after, handed_on) = with_frames::<D>(state, out, frames, i);
            let (told_state, told) = after_frames::<D>(state, events, frames, i);
            &&& after == told_state
            &&& !handed_on.ended
            &&& handed_on.items == handed(told)
        }),
    decreases frames.len() - i,
{
    if i < frames.len() {
        let out = Out { items: handed(events), ended: false };
        let (next, result) = D::frame_step(state, frames[i]);
        if let Ok(more) = result {
            a_frame_is_handed_on_whole(out, more);
            assert(handed(events) + handed(more) =~= handed(events + more));
            lemma_frames_handed::<D>(next, events + more, frames, i + 1);
            assert(with_result(out, result) == (Out {
                items: handed(events + more),
                ended: false,
            }));
        }
    }
}

/// What a chunk of a stream gives is the events of its frames, all of them and in order,
/// as long as no frame fails and none ends the stream.
pub proof fn a_chunk_gives_the_events_of_its_frames<D: EventDecoder>(
    state: SseView<D::V>,
    bytes: Seq<u8>,
)
    requires
        !state.ended,
        !sse::pushed(state.framing, bytes).overflow,
        flows::<D>(state.inner, sse::pushed(state.framing, bytes).frames, 0),
    ensures
        ({
            let frames = sse::pushed(state.framing, bytes).frames;
            let (after, items) = after_chunk::<D>(state, bytes);
            let (inner, events) = after_frames::<D>(state.inner, Seq::empty(), frames, 0);
            &&& items == handed(events)
            &&& after.inner == inner
            &&& !after.ended
        }),
{
    let none = Seq::<StreamEventView>::empty();
    let frames = sse::pushed(state.framing, bytes).frames;
    lemma_frames_handed::<D>(state.inner, none, frames, 0);
    assert(handed(none) =~= Seq::empty());
}

/// A frame that fails gives its error, after what came before it, and ends the stream.
pub proof fn a_failed_frame_ends_the_stream(out: Out, error: LlmErrorView)
    ensures
        with_result(out, Err(error)).ended,
        with_result(out, Err(error)).items == out.items.push(Err(error)),
{
}

} // verus!
