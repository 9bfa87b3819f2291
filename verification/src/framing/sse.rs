//! Incremental SSE frame splitting for byte-stream transports.
//!
//! A host whose HTTP layer already parses SSE can hand each event's data
//! payload straight to a decoder and skip this.

use crate::protocol::{LlmError, LlmErrorView};
use crate::text;
use vstd::prelude::*;

verus! {

/// The most bytes an unfinished event may hold.
pub const MAX_EVENT_BYTES: usize = 8_388_608;

/// Splits an SSE byte stream into one frame per event.
///
/// A frame carries the event's joined `data:` payload without the field prefix,
/// exactly what a provider's stream decoder consumes. Comment lines and
/// `event:` / `id:` / `retry:` fields are ignored; an event with no data lines
/// produces no frame.
#[derive(Debug)]
pub struct SseFrameSplitter {
    buffer: Vec<u8>,
    skip_lf: bool,
}

/// What a splitter holds between chunks: the unfinished event with its line
/// ends written as LF, and whether an LF right now would only complete a CRLF.
pub struct SplitterView {
    pub buffer: Seq<u8>,
    pub skip_lf: bool,
}

/// What a chunk did: the splitter afterwards, the frames that it completed, and
/// whether an event outgrew the limit.
pub struct Pushed {
    pub after: SplitterView,
    pub frames: Seq<Seq<u8>>,
    pub overflow: bool,
}

/// The lines of an event: what stands between its LF bytes.
pub open spec fn lines(event: Seq<u8>) -> Seq<Seq<u8>>
    decreases event.len(),
{
    if event.len() == 0 {
        seq![Seq::<u8>::empty()]
    } else {
        let before = lines(event.drop_last());
        if event.last() == 10 {
            before.push(Seq::empty())
        } else {
            before.update(before.len() - 1, before.last().push(event.last()))
        }
    }
}

/// `line` without one CR at its end.
pub open spec fn without_cr(line: Seq<u8>) -> Seq<u8> {
    if line.len() > 0 && line.last() == 13 {
        line.drop_last()
    } else {
        line
    }
}

/// The bytes `data:`.
pub open spec fn data_prefix() -> Seq<u8> {
    seq![100u8, 97u8, 116u8, 97u8, 58u8]
}

/// The payload of one line, if it is a data field: what follows `data:` and one
/// optional space; nothing for a bare `data`.
pub open spec fn line_data(line: Seq<u8>) -> Option<Seq<u8>> {
    let line = without_cr(line);
    if data_prefix().is_prefix_of(line) {
        let value = line.skip(5);
        if value.len() > 0 && value[0] == 32 {
            Some(value.skip(1))
        } else {
            Some(value)
        }
    } else if line == data_prefix().take(4) {
        Some(Seq::empty())
    } else {
        None
    }
}

/// The data payloads of the lines, in order.
pub open spec fn payloads(ls: Seq<Seq<u8>>) -> Seq<Seq<u8>>
    decreases ls.len(),
{
    if ls.len() == 0 {
        seq![]
    } else {
        let before = payloads(ls.drop_last());
        match line_data(ls.last()) {
            Some(value) => before.push(value),
            None => before,
        }
    }
}

/// The payloads joined by LF.
pub open spec fn joined(values: Seq<Seq<u8>>) -> Seq<u8>
    decreases values.len(),
{
    if values.len() == 0 {
        seq![]
    } else if values.len() == 1 {
        values[0]
    } else {
        joined(values.drop_last()).push(10) + values.last()
    }
}

/// The frame of an event: its joined data payloads, if it has any data line.
pub open spec fn event_frame(event: Seq<u8>) -> Option<Seq<u8>> {
    let values = payloads(lines(event));
    if values.len() == 0 {
        None
    } else {
        Some(joined(values))
    }
}

/// One more byte. CR, LF and CRLF all end a line; a blank line ends the event.
pub open spec fn push_byte(p: Pushed, byte: u8) -> Pushed {
    if p.overflow {
        p
    } else if p.after.skip_lf && byte == 10 {
        Pushed { after: SplitterView { skip_lf: false, ..p.after }, ..p }
    } else {
        let buffer = p.after.buffer.push(if byte == 13 { 10 } else { byte });
        let skip_lf = byte == 13;
        let n = buffer.len();
        if n >= 2 && buffer[n - 1] == 10 && buffer[n - 2] == 10 {
            let frames = match event_frame(buffer.drop_last()) {
                Some(frame) => p.frames.push(frame),
                None => p.frames,
            };
            Pushed { after: SplitterView { buffer: Seq::empty(), skip_lf }, frames, overflow: false }
        } else if n > MAX_EVENT_BYTES {
            Pushed {
                after: SplitterView { buffer: Seq::empty(), skip_lf },
                frames: p.frames,
                overflow: true,
            }
        } else {
            Pushed { after: SplitterView { buffer, skip_lf }, frames: p.frames, overflow: false }
        }
    }
}

/// The bytes, one after the other.
pub open spec fn push_all(p: Pushed, bytes: Seq<u8>) -> Pushed
    decreases bytes.len(),
{
    if bytes.len() == 0 {
        p
    } else {
        push_byte(push_all(p, bytes.drop_last()), bytes.last())
    }
}

/// What a chunk does to a splitter.
pub open spec fn pushed(before: SplitterView, bytes: Seq<u8>) -> Pushed {
    push_all(Pushed { after: before, frames: seq![], overflow: false }, bytes)
}

pub open spec fn overflow_error() -> LlmErrorView {
    LlmErrorView::StreamInterrupted {
        message: "SSE event exceeds the "@ + text::decimal_text(MAX_EVENT_BYTES as nat)
            + "-byte limit"@,
    }
}

impl View for SseFrameSplitter {
    type V = SplitterView;

    closed spec fn view(&self) -> SplitterView {
        SplitterView { buffer: self.buffer@, skip_lf: self.skip_lf }
    }
}

impl Default for SseFrameSplitter {
    fn default() -> (splitter: Self)
        ensures
            splitter@ == (SplitterView { buffer: Seq::empty(), skip_lf: false }),
    {
        SseFrameSplitter { buffer: Vec::new(), skip_lf: false }
    }
}

impl SseFrameSplitter {
    pub fn new() -> (splitter: Self)
        ensures
            splitter@ == (SplitterView { buffer: Seq::empty(), skip_lf: false }),
    {
        SseFrameSplitter { buffer: Vec::new(), skip_lf: false }
    }

    /// How many bytes of an unfinished event are held.
    pub fn buffered(&self) -> (n: usize)
        ensures
            n == self@.buffer.len(),
    {
        self.buffer.len()
    }

    /// Feed bytes; return a frame for every event this chunk completed.
    ///
    /// A partial event stays buffered until a blank line terminates it, so a
    /// transport that splits mid-event loses nothing. Mixed line endings are
    /// accepted because providers mix them.
    pub fn push(&mut self, bytes: &[u8]) -> (result: Result<Vec<Vec<u8>>, LlmError>)
        ensures
            final(self)@ == pushed(old(self)@, bytes@).after,
            match result {
                Ok(frames) => !pushed(old(self)@, bytes@).overflow && frames.deep_view() == pushed(
                    old(self)@,
                    bytes@,
                ).frames,
                Err(error) => pushed(old(self)@, bytes@).overflow && error@ == overflow_error(),
            },
    {
        let (frames, error) = self.push_batch(bytes);
        match error {
            Some(error) => Err(error),
            None => Ok(frames),
        }
    }

    /// As `push`, but the frames completed before an overflow are handed out
    /// beside the error.
    pub fn push_batch(&mut self, bytes: &[u8]) -> (result: (Vec<Vec<u8>>, Option<LlmError>))
        ensures
            final(self)@ == pushed(old(self)@, bytes@).after,
            result.0.deep_view() == pushed(old(self)@, bytes@).frames,
            match result.1 {
                None => !pushed(old(self)@, bytes@).overflow,
                Some(error) => pushed(old(self)@, bytes@).overflow && error@ == overflow_error(),
            },
    {
        let mut frames: Vec<Vec<u8>> = Vec::new();
        let ghost start = Pushed { after: self@, frames: seq![], overflow: false };
        let ghost now = start;
        let mut i: usize = 0;
        assert(bytes@.take(0) =~= Seq::empty());
        assert(frames.deep_view() =~= seq![]);
        while i < bytes.len()
            invariant
                i <= bytes.len(),
                start == (Pushed { after: old(self)@, frames: seq![], overflow: false }),
                now == push_all(start, bytes@.take(i as int)),
                now.after == self@,
                !now.overflow,
                frames.deep_view() == now.frames,
            decreases bytes.len() - i,
        {
            let byte = bytes[i];
            let skip = self.skip_lf;
            self.skip_lf = false;
            let ghost before = now;
            proof {
                assert(bytes@.take(i + 1).drop_last() =~= bytes@.take(i as int));
                assert(bytes@.take(i + 1).last() == byte);
                now = push_byte(before, byte);
                assert(now == push_all(start, bytes@.take(i + 1)));
            }
            i = i + 1;
            if skip && byte == 10 {
                continue;
            }
            if byte == 13 {
                self.buffer.push(10);
                self.skip_lf = true;
            } else {
                self.buffer.push(byte);
            }
            let ghost buffer = self.buffer@;
            let n = self.buffer.len();
            if n >= 2 && self.buffer[n - 1] == 10 && self.buffer[n - 2] == 10 {
                self.buffer.pop();
                assert(self.buffer@ == buffer.drop_last());
                if let Some(frame) = parse_event(self.buffer.as_slice()) {
                    let ghost held = frames.deep_view();
                    frames.push(frame);
                    assert(frame.deep_view() =~= frame@);
                    assert(frames.deep_view() =~= held.push(frame@));
                }
                self.buffer.clear();
            } else if n > MAX_EVENT_BYTES {
                self.buffer.clear();
                let limit = text::decimal(MAX_EVENT_BYTES as u64);
                let message = text::cat3("SSE event exceeds the ", &limit, "-byte limit");
                proof {
                    lemma_push_after_overflow(start, bytes@, i as int);
                }
                return (frames, Some(LlmError::StreamInterrupted { message }));
            }
        }
        assert(bytes@.take(i as int) =~= bytes@);
        (frames, None)
    }

    /// Flush a trailing unterminated event at end of stream. A provider that
    /// closes without the final blank line still gets its last event decoded.
    pub fn finish(&mut self) -> (result: Result<Option<Vec<u8>>, LlmError>)
        ensures
            final(self)@ == (SplitterView { buffer: Seq::empty(), skip_lf: false }),
            result matches Ok(frame) && frame.deep_view() == event_frame(old(self)@.buffer),
    {
        self.skip_lf = false;
        let frame = parse_event(self.buffer.as_slice());
        self.buffer.clear();
        assert(frame matches Some(f) ==> f.deep_view() =~= f@);
        Ok(frame)
    }
}

/// Once an event has outgrown the limit the rest of the chunk changes nothing.
proof fn lemma_push_after_overflow(p: Pushed, bytes: Seq<u8>, i: int)
    requires
        0 <= i <= bytes.len(),
        push_all(p, bytes.take(i)).overflow,
    ensures
        push_all(p, bytes) == push_all(p, bytes.take(i)),
    decreases bytes.len(),
{
    if i < bytes.len() {
        assert(bytes.drop_last().take(i) =~= bytes.take(i));
        lemma_push_after_overflow(p, bytes.drop_last(), i);
    } else {
        assert(bytes.take(i) =~= bytes);
    }
}

/// The payload of one line, if it is a data field.
fn data_of(line: &[u8]) -> (result: Option<Vec<u8>>)
    ensures
        match result {
            Some(value) => line_data(line@) == Some(value@),
            None => line_data(line@) is None,
        },
{
    let ghost bare = without_cr(line@);
    let mut end = line.len();
    if end > 0 && line[end - 1] == 13 {
        end = end - 1;
    }
    assert(bare =~= line@.take(end as int));
    if end < 4 || line[0] != 100 || line[1] != 97 || line[2] != 116 || line[3] != 97 {
        proof {
            if data_prefix().is_prefix_of(bare) {
                assert(bare[0] == data_prefix()[0]);
                assert(bare.take(5) =~= data_prefix());
                assert(bare[1] == bare.take(5)[1] && bare[2] == bare.take(5)[2] && bare[3]
                    == bare.take(5)[3]);
            }
            if bare == data_prefix().take(4) {
                assert(bare[0] == 100 && bare[1] == 97 && bare[2] == 116 && bare[3] == 97);
            }
        }
        return None;
    }
    if end == 4 {
        assert(bare =~= data_prefix().take(4));
        return Some(Vec::new());
    }
    if line[4] != 58 {
        proof {
            if data_prefix().is_prefix_of(bare) {
                assert(bare.take(5)[4] == 58);
            }
        }
        return None;
    }
    assert(bare.take(5) =~= data_prefix());
    assert(data_prefix().is_prefix_of(bare));
    let mut from: usize = 5;
    if end > 5 && line[5] == 32 {
        from = 6;
        assert(bare.skip(5).skip(1) =~= bare.skip(6));
    }
    let value = slice(line, from, end);
    assert(value@ =~= bare.skip(from as int));
    Some(value)
}

/// A copy of `bytes[from..to]`.
fn slice(bytes: &[u8], from: usize, to: usize) -> (result: Vec<u8>)
    requires
        from <= to <= bytes@.len(),
    ensures
        result@ == bytes@.subrange(from as int, to as int),
{
    let mut out: Vec<u8> = Vec::new();
    let mut i = from;
    while i < to
        invariant
            from <= i <= to <= bytes@.len(),
            out@ == bytes@.subrange(from as int, i as int),
        decreases to - i,
    {
        out.push(bytes[i]);
        i = i + 1;
        assert(bytes@.subrange(from as int, i as int) =~= bytes@.subrange(
            from as int,
            i - 1,
        ).push(bytes@[i - 1]));
    }
    out
}

/// Takes the next line into the payload read so far.
fn add_line(data: &mut Vec<u8>, has_data: bool, line: &[u8], Ghost(before): Ghost<Seq<Seq<u8>>>) -> (result:
    bool)
    requires
        has_data == (payloads(before).len() > 0),
        old(data)@ == joined(payloads(before)),
    ensures
        result == (payloads(before.push(line@)).len() > 0),
        final(data)@ == joined(payloads(before.push(line@))),
{
    proof {
        assert(before.push(line@).drop_last() =~= before);
    }
    match data_of(line) {
        None => has_data,
        Some(value) => {
            let ghost values = payloads(before);
            proof {
                assert(values.push(value@).drop_last() =~= values);
            }
            if has_data {
                data.push(10);
            }
            let ghost mid = data@;
            let mut i: usize = 0;
            while i < value.len()
                invariant
                    i <= value.len(),
                    data@ == mid + value@.take(i as int),
                decreases value.len() - i,
            {
                data.push(value[i]);
                i = i + 1;
                assert(value@.take(i as int) =~= value@.take(i - 1).push(value@[i - 1]));
            }
            assert(value@.take(i as int) =~= value@);
            assert(data@ =~= joined(values.push(value@)));
            true
        },
    }
}

/// The frame of an event: its joined data payloads, if it has any data line.
fn parse_event(event: &[u8]) -> (result: Option<Vec<u8>>)
    ensures
        match result {
            Some(frame) => event_frame(event@) == Some(frame@),
            None => event_frame(event@) is None,
        },
{
    let mut data: Vec<u8> = Vec::new();
    let mut has_data = false;
    let mut line: Vec<u8> = Vec::new();
    let ghost mut done: Seq<Seq<u8>> = seq![];
    let mut i: usize = 0;
    assert(event@.take(0) =~= seq![]);
    assert(lines(event@.take(0)) =~= done.push(line@));
    while i < event.len()
        invariant
            i <= event.len(),
            lines(event@.take(i as int)) == done.push(line@),
            has_data == (payloads(done).len() > 0),
            data@ == joined(payloads(done)),
        decreases event.len() - i,
    {
        let ghost earlier = event@.take(i as int);
        assert(event@.take(i + 1).drop_last() =~= earlier);
        if event[i] == 10 {
            has_data = add_line(&mut data, has_data, line.as_slice(), Ghost(done));
            proof {
                done = done.push(line@);
            }
            line.clear();
            assert(lines(event@.take(i + 1)) =~= done.push(line@));
        } else {
            line.push(event[i]);
            assert(lines(event@.take(i + 1)) =~= done.push(line@));
        }
        i = i + 1;
    }
    assert(event@.take(i as int) =~= event@);
    has_data = add_line(&mut data, has_data, line.as_slice(), Ghost(done));
    if has_data {
        Some(data)
    } else {
        None
    }
}

/// Where a transport cuts the stream makes no difference: two chunks do what
/// the one made of both does, unless the first already ended in an overflow.
pub proof fn chunk_boundaries_do_not_matter(before: SplitterView, a: Seq<u8>, b: Seq<u8>)
    requires
        !pushed(before, a).overflow,
    ensures
        pushed(before, a + b).after == pushed(pushed(before, a).after, b).after,
        pushed(before, a + b).frames == pushed(before, a).frames + pushed(
            pushed(before, a).after,
            b,
        ).frames,
        pushed(before, a + b).overflow == pushed(pushed(before, a).after, b).overflow,
    decreases b.len(),
{
    let first = pushed(before, a);
    if b.len() == 0 {
        assert(a + b =~= a);
        assert(first.frames + seq![] =~= first.frames);
    } else {
        chunk_boundaries_do_not_matter(before, a, b.drop_last());
        assert((a + b).drop_last() =~= a + b.drop_last());
        let joint = pushed(before, a + b.drop_last());
        let second = pushed(first.after, b.drop_last());
        let byte = b.last();
        assert(first.frames + push_byte(second, byte).frames =~= push_byte(joint, byte).frames);
    }
}

/// An event is held until a blank line ends it: bytes without a line end
/// complete no frame.
pub proof fn an_unfinished_event_is_held(before: SplitterView, bytes: Seq<u8>)
    requires
        forall|i: int| 0 <= i < bytes.len() ==> bytes[i] != 10 && bytes[i] != 13,
        before.buffer.len() + bytes.len() <= MAX_EVENT_BYTES,
    ensures
        pushed(before, bytes).frames == Seq::<Seq<u8>>::empty(),
        pushed(before, bytes).after.buffer == before.buffer + bytes,
        !pushed(before, bytes).overflow,
    decreases bytes.len(),
{
    if bytes.len() == 0 {
        assert(before.buffer + bytes =~= before.buffer);
    } else {
        an_unfinished_event_is_held(before, bytes.drop_last());
        assert(before.buffer + bytes =~= (before.buffer + bytes.drop_last()).push(bytes.last()));
        assert(bytes.last() != 10 && bytes.last() != 13);
    }
}

/// The buffer of an unfinished event never outgrows the limit.
pub proof fn the_buffer_stays_within_the_limit(before: SplitterView, bytes: Seq<u8>)
    requires
        before.buffer.len() <= MAX_EVENT_BYTES,
    ensures
        pushed(before, bytes).after.buffer.len() <= MAX_EVENT_BYTES,
    decreases bytes.len(),
{
    if bytes.len() > 0 {
        the_buffer_stays_within_the_limit(before, bytes.drop_last());
    }
}

/// The bytes with every line end, CR, LF or CRLF, written as one LF.
pub open spec fn with_lf_ends(bytes: Seq<u8>) -> Seq<u8>
    decreases bytes.len(),
{
    if bytes.len() == 0 {
        seq![]
    } else {
        let before = with_lf_ends(bytes.drop_last());
        if bytes.last() == 13 {
            before.push(10)
        } else if bytes.last() == 10 && bytes.len() >= 2 && bytes[bytes.len() - 2] == 13 {
            before
        } else {
            before.push(bytes.last())
        }
    }
}

/// Line endings may be mixed freely: a stream yields the frames that it yields
/// with every line end written as LF.
pub proof fn line_endings_are_interchangeable(before: SplitterView, bytes: Seq<u8>)
    requires
        !before.skip_lf,
        !pushed(before, bytes).overflow,
    ensures
        pushed(before, with_lf_ends(bytes)).frames == pushed(before, bytes).frames,
        pushed(before, with_lf_ends(bytes)).after.buffer == pushed(before, bytes).after.buffer,
        !pushed(before, with_lf_ends(bytes)).overflow,
        !pushed(before, with_lf_ends(bytes)).after.skip_lf,
        pushed(before, bytes).after.skip_lf == (bytes.len() > 0 && bytes.last() == 13),
    decreases bytes.len(),
{
    if bytes.len() > 0 {
        let rest = bytes.drop_last();
        line_endings_are_interchangeable(before, rest);
        let lf = with_lf_ends(rest);
        let byte = if bytes.last() == 13 { 10 } else { bytes.last() };
        assert(lf.push(byte).drop_last() =~= lf);
        if rest.len() > 0 {
            assert(rest.last() == bytes[bytes.len() - 2]);
        }
    }
}

proof fn lemma_one_line(event: Seq<u8>)
    requires
        forall|i: int| 0 <= i < event.len() ==> #[trigger] event[i] != 10,
    ensures
        lines(event) =~= seq![event],
    decreases event.len(),
{
    if event.len() == 0 {
        assert(event =~= Seq::<u8>::empty());
    } else {
        let front = event.drop_last();
        assert(event[event.len() - 1] != 10);
        assert forall|i: int| 0 <= i < front.len() implies #[trigger] front[i] != 10 by {
            assert(front[i] == event[i]);
        }
        lemma_one_line(front);
        let before = lines(front);
        assert(before == seq![front]);
        assert(before.last() == front);
        assert(front.push(event.last()) =~= event);
    }
}

/// An event of one line of data is that data, whatever stands in it, with a space after
/// the colon or without one.
pub proof fn an_event_is_its_data(data: Seq<u8>)
    requires
        forall|i: int| 0 <= i < data.len() ==> #[trigger] data[i] != 10,
        data.len() == 0 || data.last() != 13,
    ensures
        event_frame(seq![100u8, 97u8, 116u8, 97u8, 58u8, 32u8] + data) == Some(data),
        data.len() > 0 && data[0] != 32 ==> event_frame(seq![100u8, 97u8, 116u8, 97u8, 58u8] + data)
            == Some(data),
{
    reveal_with_fuel(payloads, 2);
    let spaced = seq![100u8, 97u8, 116u8, 97u8, 58u8, 32u8] + data;
    lemma_one_line(spaced);
    lemma_data_line(spaced, data);
    assert(lines(spaced).drop_last() =~= Seq::<Seq<u8>>::empty());
    assert(payloads(lines(spaced)) =~= seq![data]);
    if data.len() > 0 && data[0] != 32 {
        let tight = seq![100u8, 97u8, 116u8, 97u8, 58u8] + data;
        lemma_one_line(tight);
        assert(without_cr(tight) =~= tight);
        assert(data_prefix().is_prefix_of(tight));
        assert(tight.skip(5) =~= data);
        assert(lines(tight).drop_last() =~= Seq::<Seq<u8>>::empty());
        assert(payloads(lines(tight)) =~= seq![data]);
    }
}

proof fn lemma_data_line(line: Seq<u8>, data: Seq<u8>)
    requires
        line == seq![100u8, 97u8, 116u8, 97u8, 58u8, 32u8] + data,
        data.len() == 0 || data.last() != 13,
    ensures
        line_data(line) == Some(data),
{
    assert(line.last() == if data.len() == 0 {
        32u8
    } else {
        data.last()
    });
    assert(without_cr(line) == line);
    assert(data_prefix().is_prefix_of(line));
    assert(line.skip(5)[0] == 32);
    assert(line.skip(5).skip(1) =~= data);
}

proof fn lemma_held(before: Pushed, bytes: Seq<u8>)
    requires
        !before.overflow,
        before.after.buffer.len() == 0,
        !before.after.skip_lf,
        bytes.len() <= MAX_EVENT_BYTES,
        forall|i: int| 0 <= i < bytes.len() ==> #[trigger] bytes[i] != 10 && bytes[i] != 13,
    ensures
        ({
            let after = push_all(before, bytes);
            &&& !after.overflow
            &&& after.after.buffer =~= bytes
            &&& !after.after.skip_lf
            &&& after.frames == before.frames
        }),
    decreases bytes.len(),
{
    if bytes.len() > 0 {
        lemma_held(before, bytes.drop_last());
        assert(bytes.drop_last().push(bytes.last()) =~= bytes);
    }
}

/// A line of data with the blank line after it is one frame: that data.
pub proof fn a_line_of_data_is_one_frame(before: Pushed, data: Seq<u8>)
    requires
        !before.overflow,
        before.after.buffer.len() == 0,
        !before.after.skip_lf,
        data.len() + 8 <= MAX_EVENT_BYTES,
        forall|i: int| 0 <= i < data.len() ==> #[trigger] data[i] != 10 && data[i] != 13,
    ensures
        ({
            let line = seq![100u8, 97u8, 116u8, 97u8, 58u8, 32u8] + data;
            let after = push_all(before, line.push(10).push(10));
            &&& !after.overflow
            &&& after.frames == before.frames.push(data)
            &&& after.after.buffer.len() == 0
        }),
{
    let line = seq![100u8, 97u8, 116u8, 97u8, 58u8, 32u8] + data;
    assert forall|i: int| 0 <= i < line.len() implies #[trigger] line[i] != 10 && line[i] != 13 by {
        if i >= 6 {
            assert(line[i] == data[i - 6]);
        }
    }
    lemma_held(before, line);
    let once = line.push(10);
    let twice = once.push(10);
    assert(once.drop_last() =~= line);
    assert(twice.drop_last() =~= once);
    let held = push_all(before, line);
    let ended = push_all(before, once);
    assert(ended == push_byte(held, 10));
    assert(line[line.len() - 1] != 10);
    lemma_line_end(held, line);
    lemma_event_end(ended, once);
    lemma_whole_event(line, data);
    assert(push_all(before, twice) == push_byte(ended, 10));
}

proof fn lemma_line_end(held: Pushed, line: Seq<u8>)
    requires
        !held.overflow,
        held.after.buffer == line,
        !held.after.skip_lf,
        0 < line.len() < MAX_EVENT_BYTES,
        line[line.len() - 1] != 10,
    ensures
        ({
            let ended = push_byte(held, 10);
            &&& !ended.overflow
            &&& ended.after.buffer == line.push(10)
            &&& !ended.after.skip_lf
            &&& ended.frames == held.frames
        }),
{
}

proof fn lemma_event_end(ended: Pushed, once: Seq<u8>)
    requires
        !ended.overflow,
        ended.after.buffer == once,
        !ended.after.skip_lf,
        once.len() > 0,
        once[once.len() - 1] == 10,
    ensures
        ({
            let after = push_byte(ended, 10);
            &&& !after.overflow
            &&& after.after.buffer.len() == 0
            &&& event_frame(once) matches Some(frame) ==> after.frames == ended.frames.push(frame)
        }),
{
    assert(once.push(10).drop_last() =~= once);
}

proof fn lemma_whole_event(line: Seq<u8>, data: Seq<u8>)
    requires
        line == seq![100u8, 97u8, 116u8, 97u8, 58u8, 32u8] + data,
        forall|i: int| 0 <= i < line.len() ==> #[trigger] line[i] != 10,
        data.len() == 0 || data.last() != 13,
    ensures
        event_frame(line.push(10)) == Some(data),
{
    let none = Seq::<Seq<u8>>::empty();
    let blank = Seq::<u8>::empty();
    lemma_two_lines(line);
    let ls = lines(line.push(10));
    assert(ls == seq![line, blank]);
    assert(ls.drop_last() =~= seq![line]);
    assert(seq![line].drop_last() =~= none);
    lemma_data_line(line, data);
    assert(line_data(blank) is None) by {
        assert(!data_prefix().is_prefix_of(blank));
        assert(data_prefix().take(4).len() == 4);
    }
    assert(payloads(none) == none);
    assert(payloads(seq![line]) =~= seq![data]);
    assert(payloads(ls) == payloads(ls.drop_last()));
    assert(joined(seq![data]) == data);
}

proof fn lemma_two_lines(line: Seq<u8>)
    requires
        forall|i: int| 0 <= i < line.len() ==> #[trigger] line[i] != 10,
    ensures
        lines(line.push(10)) =~= seq![line, Seq::<u8>::empty()],
{
    lemma_one_line(line);
    assert(line.push(10).drop_last() =~= line);
}

} // verus!
