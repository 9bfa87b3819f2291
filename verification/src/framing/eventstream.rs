//! AWS event-stream binary framing. One provider streams in this format rather
//! than SSE:
//!
//! ```text
//! [u32 BE total_len][u32 BE headers_len][u32 BE prelude_crc][headers][payload][u32 BE message_crc]
//! ```
//!
//! The CRC is IEEE CRC32 (reflected, polynomial 0xEDB8_8320).

use crate::protocol::{LlmError, LlmErrorView};
use crate::text;
use crate::views;
use vstd::prelude::*;
use vstd::utf8::*;

verus! {

broadcast use crate::views::group_views;

pub const PRELUDE_BYTES: usize = 12;

pub const FRAME_OVERHEAD: usize = 16;

/// Defence in depth against a hostile length field; real frames are far smaller.
pub const MAX_FRAME_BYTES: usize = 8_388_608;

/// One bit of the reflected CRC32 division.
pub open spec fn crc_bit(crc: u32) -> u32 {
    if crc & 1 != 0 {
        (crc >> 1) ^ 0xEDB8_8320u32
    } else {
        crc >> 1
    }
}

/// Eight bits of it.
pub open spec fn crc_bits(crc: u32) -> u32 {
    crc_bit(crc_bit(crc_bit(crc_bit(crc_bit(crc_bit(crc_bit(crc_bit(crc))))))))
}

/// The CRC register after the bytes, from all ones.
pub open spec fn crc_register(data: Seq<u8>) -> u32
    decreases data.len(),
{
    if data.len() == 0 {
        0xFFFF_FFFF
    } else {
        crc_bits(crc_register(data.drop_last()) ^ (data.last() as u32))
    }
}

/// IEEE CRC32.
pub open spec fn crc_of(data: Seq<u8>) -> u32 {
    !crc_register(data)
}

proof fn lemma_crc_bit_linear(a: u32, b: u32)
    ensures
        crc_bit(a ^ b) == crc_bit(a) ^ crc_bit(b),
{
    assert((if (a ^ b) & 1 != 0 {
        ((a ^ b) >> 1) ^ 0xEDB8_8320u32
    } else {
        (a ^ b) >> 1
    }) == (if a & 1 != 0 {
        (a >> 1) ^ 0xEDB8_8320u32
    } else {
        a >> 1
    }) ^ (if b & 1 != 0 {
        (b >> 1) ^ 0xEDB8_8320u32
    } else {
        b >> 1
    })) by (bit_vector);
}

/// The eight bits of the low byte can be looked up: the rest only shifts.
proof fn lemma_crc_table_step(crc: u32)
    ensures
        crc_bits(crc) == (crc >> 8) ^ crc_bits(crc & 0xFF),
{
    let lo = crc & 0xFF;
    let hi = crc & 0xFFFF_FF00;
    assert(crc == lo ^ hi) by (bit_vector)
        requires
            lo == crc & 0xFF,
            hi == crc & 0xFFFF_FF00,
    ;
    let l1 = crc_bit(lo);
    let l2 = crc_bit(l1);
    let l3 = crc_bit(l2);
    let l4 = crc_bit(l3);
    let l5 = crc_bit(l4);
    let l6 = crc_bit(l5);
    let l7 = crc_bit(l6);
    let l8 = crc_bit(l7);
    assert(hi & 1 == 0 && (hi >> 1) & 1 == 0 && (hi >> 2) & 1 == 0 && (hi >> 3) & 1 == 0 && (hi
        >> 4) & 1 == 0 && (hi >> 5) & 1 == 0 && (hi >> 6) & 1 == 0 && (hi >> 7) & 1 == 0 && (hi
        >> 1) >> 1 == hi >> 2 && (hi >> 2) >> 1 == hi >> 3 && (hi >> 3) >> 1 == hi >> 4 && (hi >> 4)
        >> 1 == hi >> 5 && (hi >> 5) >> 1 == hi >> 6 && (hi >> 6) >> 1 == hi >> 7 && (hi >> 7) >> 1
        == hi >> 8 && hi >> 8 == crc >> 8) by (bit_vector)
        requires
            hi == crc & 0xFFFF_FF00,
    ;
    lemma_crc_bit_linear(lo, hi);
    lemma_crc_bit_linear(l1, hi >> 1);
    lemma_crc_bit_linear(l2, hi >> 2);
    lemma_crc_bit_linear(l3, hi >> 3);
    lemma_crc_bit_linear(l4, hi >> 4);
    lemma_crc_bit_linear(l5, hi >> 5);
    lemma_crc_bit_linear(l6, hi >> 6);
    lemma_crc_bit_linear(l7, hi >> 7);
    let t = crc >> 8;
    assert(l8 ^ t == t ^ l8) by (bit_vector);
}

/// What the eight bits of three bytes come to.
proof fn lemma_crc_bytes()
    ensures
        crc_bits(0u32) == 0,
        crc_bits(0xffu32) == 0x2d02ef8du32,
        crc_bits(0x72u32) == 0xbe0b1010u32,
        crc_bits(0xedu32) == 0xdebb9ec5u32,
{
    assert(crc_bits(0u32) == 0u32) by (bit_vector);
    assert(crc_bits(0xffu32) == 0x2d02ef8du32) by (bit_vector);
    assert(crc_bits(0x72u32) == 0xbe0b1010u32) by (bit_vector);
    assert(crc_bits(0xedu32) == 0xdebb9ec5u32) by (bit_vector);
}

/// The checksum of nothing is nought, and data that is followed by its own checksum, low
/// byte first, has the one checksum that all such data has.
pub proof fn a_checksum_closes_its_data(data: Seq<u8>)
    ensures
        crc_of(Seq::empty()) == 0,
        ({
            let crc = crc_of(data);
            crc_of(
                data.push((crc & 0xFF) as u8).push(((crc >> 8) & 0xFF) as u8).push(
                    ((crc >> 16) & 0xFF) as u8,
                ).push((crc >> 24) as u8),
            ) == 0x2144_DF1Cu32
        }),
{
    assert(!0xFFFF_FFFFu32 == 0u32) by (bit_vector);
    lemma_crc_bytes();
    let r = crc_register(data);
    let crc = crc_of(data);
    let b0 = (crc & 0xFF) as u8;
    let b1 = ((crc >> 8) & 0xFF) as u8;
    let b2 = ((crc >> 16) & 0xFF) as u8;
    let b3 = (crc >> 24) as u8;
    let d1 = data.push(b0);
    let d2 = d1.push(b1);
    let d3 = d2.push(b2);
    let d4 = d3.push(b3);
    assert(d1.drop_last() =~= data);
    assert(d2.drop_last() =~= d1);
    assert(d3.drop_last() =~= d2);
    assert(d4.drop_last() =~= d3);
    let w0 = b0 as u32;
    let w1 = b1 as u32;
    let w2 = b2 as u32;
    let w3 = b3 as u32;
    assert(w0 == !r & 0xFF && w1 == (!r >> 8) & 0xFF && w2 == (!r >> 16) & 0xFF && w3 == !r >> 24)
        by (bit_vector)
        requires
            crc == !r,
            w0 == ((crc & 0xFF) as u8) as u32,
            w1 == (((crc >> 8) & 0xFF) as u8) as u32,
            w2 == (((crc >> 16) & 0xFF) as u8) as u32,
            w3 == ((crc >> 24) as u8) as u32,
    ;
    lemma_crc_table_step(r ^ w0);
    let r1 = crc_register(d1);
    assert((r ^ w0) & 0xFF == 0xFF && (r ^ w0) >> 8 == r >> 8) by (bit_vector)
        requires
            w0 == !r & 0xFF,
    ;
    lemma_crc_table_step(r1 ^ w1);
    let r2 = crc_register(d2);
    assert((r1 ^ w1) & 0xFF == 0x72 && (r1 ^ w1) >> 8 == (r >> 16) ^ 0x2d_02efu32) by (bit_vector)
        requires
            w1 == (!r >> 8) & 0xFF,
            r1 == (r >> 8) ^ 0x2d02_ef8du32,
    ;
    lemma_crc_table_step(r2 ^ w2);
    let r3 = crc_register(d3);
    assert((r2 ^ w2) & 0xFF == 0 && (r2 ^ w2) >> 8 == (r >> 24) ^ 0xbe_2612u32) by (bit_vector)
        requires
            w2 == (!r >> 16) & 0xFF,
            r2 == ((r >> 16) ^ 0x2d_02efu32) ^ 0xbe0b1010u32,
    ;
    lemma_crc_table_step(r3 ^ w3);
    assert((r3 ^ w3) & 0xFF == 0xed && (r3 ^ w3) >> 8 == 0xbe26u32) by (bit_vector)
        requires
            w3 == !r >> 24,
            r3 == ((r >> 24) ^ 0xbe_2612u32) ^ 0u32,
    ;
    assert(!(0xbe26u32 ^ 0xdebb9ec5u32) == 0x2144_DF1Cu32) by (bit_vector);
}

/// The CRC of every single byte, by which `crc32` takes eight bits at a time.
#[derive(Debug)]
pub struct CrcTable {
    entries: Vec<u32>,
}

impl CrcTable {
    #[verifier::type_invariant]
    spec fn is_the_table(self) -> bool {
        &&& self.entries@.len() == 256
        &&& forall|i: int| 0 <= i < 256 ==> #[trigger] self.entries@[i] == crc_bits(i as u32)
    }
}

fn make_crc_table() -> (table: CrcTable) {
    let mut entries: Vec<u32> = Vec::new();
    let mut i: u32 = 0;
    while i < 256
        invariant
            i <= 256,
            entries@.len() == i,
            forall|k: int| 0 <= k < i ==> #[trigger] entries@[k] == crc_bits(k as u32),
        decreases 256 - i,
    {
        let mut crc: u32 = i;
        let mut j: u8 = 0;
        while j < 8
            invariant
                j <= 8,
                j == 0 ==> crc == i,
                j == 1 ==> crc == crc_bit(i),
                j == 2 ==> crc == crc_bit(crc_bit(i)),
                j == 3 ==> crc == crc_bit(crc_bit(crc_bit(i))),
                j == 4 ==> crc == crc_bit(crc_bit(crc_bit(crc_bit(i)))),
                j == 5 ==> crc == crc_bit(crc_bit(crc_bit(crc_bit(crc_bit(i))))),
                j == 6 ==> crc == crc_bit(crc_bit(crc_bit(crc_bit(crc_bit(crc_bit(i)))))),
                j == 7 ==> crc == crc_bit(crc_bit(crc_bit(crc_bit(crc_bit(crc_bit(crc_bit(i))))))),
                j == 8 ==> crc == crc_bits(i),
            decreases 8 - j,
        {
            if crc & 1 != 0 {
                crc = (crc >> 1) ^ 0xEDB8_8320u32;
            } else {
                crc = crc >> 1;
            }
            j = j + 1;
        }
        entries.push(crc);
        i = i + 1;
    }
    CrcTable { entries }
}

impl CrcTable {
    pub fn new() -> (table: Self) {
        make_crc_table()
    }

    /// The CRC32 of `data[from..to]`.
    fn crc_of_range(&self, data: &[u8], from: usize, to: usize) -> (crc: u32)
        requires
            from <= to <= data@.len(),
        ensures
            crc == crc_of(data@.subrange(from as int, to as int)),
    {
        let mut crc: u32 = 0xFFFF_FFFF;
        let mut i = from;
        assert(data@.subrange(from as int, from as int) =~= Seq::empty());
        while i < to
            invariant
                from <= i <= to <= data@.len(),
                crc == crc_register(data@.subrange(from as int, i as int)),
            decreases to - i,
        {
            proof {
                use_type_invariant(&self);
                let part = data@.subrange(from as int, i + 1);
                assert(part.drop_last() =~= data@.subrange(from as int, i as int));
                assert(part.last() == data@[i as int]);
            }
            let byte = data[i];
            let low = (crc ^ (byte as u32)) & 0xFF;
            let ghost register = crc;
            assert(low < 256) by (bit_vector)
                requires
                    low == (register ^ (byte as u32)) & 0xFF,
            ;
            proof {
                let wide = byte as u32;
                lemma_crc_table_step(register ^ wide);
                assert((register ^ wide) >> 8 == register >> 8) by (bit_vector)
                    requires
                        wide < 256,
                ;
            }
            crc = (crc >> 8) ^ self.entries[low as usize];
            i = i + 1;
        }
        !crc
    }
}

/// IEEE CRC32, matching the POSIX/zlib/gzip family.
pub fn crc32(data: &[u8]) -> (crc: u32)
    ensures
        crc == crc_of(data@),
{
    let table = CrcTable::new();
    assert(data@.subrange(0, data@.len() as int) =~= data@);
    table.crc_of_range(data, 0, data.len())
}

/// A decoded frame. Only string-valued headers are kept; the others are parsed
/// to advance the cursor and then dropped, because nothing here reads them.
#[derive(Debug, Clone, PartialEq, Eq)]
pub struct EventStreamMessage {
    pub headers: Vec<(String, String)>,
    pub payload: Vec<u8>,
}

pub struct MessageView {
    pub headers: Seq<(Seq<char>, Seq<char>)>,
    pub payload: Seq<u8>,
}

impl View for EventStreamMessage {
    type V = MessageView;

    open spec fn view(&self) -> MessageView {
        MessageView { headers: self.headers.deep_view(), payload: self.payload@ }
    }
}

impl DeepView for EventStreamMessage {
    type V = MessageView;

    open spec fn deep_view(&self) -> MessageView {
        self@
    }
}

/// The value of the first header called `name`.
pub open spec fn header_value(headers: Seq<(Seq<char>, Seq<char>)>, name: Seq<char>) -> Option<
    Seq<char>,
>
    decreases headers.len(),
{
    if headers.len() == 0 {
        None
    } else if headers[0].0 == name {
        Some(headers[0].1)
    } else {
        header_value(headers.skip(1), name)
    }
}

impl EventStreamMessage {
    pub fn header(&self, name: &str) -> (value: Option<&str>)
        ensures
            value.deep_view() == header_value(self@.headers, name@),
    {
        let mut i: usize = 0;
        let ghost all = self@.headers;
        assert(all.skip(0) =~= all);
        while i < self.headers.len()
            invariant
                i <= self.headers.len(),
                all == self.headers.deep_view(),
                header_value(all, name@) == header_value(all.skip(i as int), name@),
            decreases self.headers.len() - i,
        {
            assert(all[i as int] == self.headers@[i as int].deep_view());
            assert(all.skip(i as int).skip(1) =~= all.skip(i + 1));
            if text::same(self.headers[i].0.as_str(), name) {
                return Some(self.headers[i].1.as_str());
            }
            i = i + 1;
        }
        None
    }
}

/// The big-endian number at `at`.
pub open spec fn be32(bytes: Seq<u8>, at: int) -> nat {
    (bytes[at] * 0x100_0000 + bytes[at + 1] * 0x1_0000 + bytes[at + 2] * 0x100 + bytes[at
        + 3]) as nat
}

pub open spec fn be16(bytes: Seq<u8>, at: int) -> nat {
    (bytes[at] * 0x100 + bytes[at + 1]) as nat
}

fn read_be32(bytes: &[u8], at: usize) -> (n: u32)
    requires
        at + 4 <= bytes@.len(),
    ensures
        n == be32(bytes@, at as int),
{
    (bytes[at] as u32) * 0x100_0000 + (bytes[at + 1] as u32) * 0x1_0000 + (bytes[at + 2] as u32)
        * 0x100 + bytes[at + 3] as u32
}

/// One header: its name, its value where it is a string, and its length in bytes.
pub struct HeaderView {
    pub name: Seq<char>,
    pub value: Option<Seq<char>>,
    pub len: int,
}

pub open spec fn truncated(what: Seq<char>) -> Seq<char> {
    "event-stream truncated while reading "@ + what
}

/// The width of a value of a type whose width is fixed, and what it is called.
pub open spec fn fixed_width(value_type: u8) -> Option<(int, Seq<char>)> {
    match value_type {
        0 | 1 => Some((0int, ""@)),
        2 => Some((1int, "i8 header value"@)),
        3 => Some((2int, "i16 header value"@)),
        4 => Some((4int, "i32 header value"@)),
        5 | 8 => Some((8int, "8-byte header value"@)),
        9 => Some((16int, "uuid header value"@)),
        _ => None,
    }
}

/// The header that the bytes start with.
pub open spec fn first_header(data: Seq<u8>) -> Result<HeaderView, Seq<char>> {
    let name_len = data[0] as int;
    let at = 1 + name_len;
    if data.len() < at {
        Err(truncated("header name"@))
    } else {
        let name_bytes = data.subrange(1, at);
        if !valid_utf8(name_bytes) {
            Err("event-stream header name is not UTF-8: "@ + text::utf8_error_text(name_bytes))
        } else if data.len() < at + 1 {
            Err(truncated("byte"@))
        } else {
            header_with_value(decode_utf8(name_bytes), data, at)
        }
    }
}

/// The header whose value type stands at `at`.
pub open spec fn header_with_value(name: Seq<char>, data: Seq<u8>, at: int) -> Result<
    HeaderView,
    Seq<char>,
> {
    let value_type = data[at];
    if value_type == 6 || value_type == 7 {
        let is_string = value_type == 7;
        if data.len() < at + 3 {
            Err(
                truncated(
                    if is_string {
                        "string header length"@
                    } else {
                        "bytes header length"@
                    },
                ),
            )
        } else {
            let end = at + 3 + be16(data, at + 1);
            if data.len() < end {
                Err(
                    truncated(
                        if is_string {
                            "string header value"@
                        } else {
                            "bytes header value"@
                        },
                    ),
                )
            } else if is_string {
                let value = data.subrange(at + 3, end);
                if valid_utf8(value) {
                    Ok(HeaderView { name, value: Some(decode_utf8(value)), len: end })
                } else {
                    Err(
                        "event-stream header "@ + text::debug_text(name) + " is not UTF-8: "@
                            + text::utf8_error_text(value),
                    )
                }
            } else {
                Ok(HeaderView { name, value: None, len: end })
            }
        }
    } else {
        match fixed_width(value_type) {
            Some((width, what)) => if data.len() < at + 1 + width {
                Err(truncated(what))
            } else {
                Ok(HeaderView { name, value: None, len: at + 1 + width })
            },
            None => Err(
                "event-stream header "@ + text::debug_text(name) + " has unknown value type "@
                    + text::decimal_text(value_type as nat),
            ),
        }
    }
}

/// The string headers of a header block, after those read before.
pub open spec fn headers_of(data: Seq<u8>, before: Seq<(Seq<char>, Seq<char>)>) -> Result<
    Seq<(Seq<char>, Seq<char>)>,
    Seq<char>,
>
    decreases data.len(),
{
    if data.len() == 0 {
        Ok(before)
    } else {
        match first_header(data) {
            Err(message) => Err(message),
            Ok(header) => if header.len <= 0 || header.len > data.len() {
                Err(seq![])
            } else {
                headers_of(
                    data.skip(header.len),
                    match header.value {
                        Some(value) => before.push((header.name, value)),
                        None => before,
                    },
                )
            },
        }
    }
}

/// What stands at the start of the buffered bytes.
pub enum NextFrame {
    /// Not yet a whole frame.
    Partial,
    /// No frame: the stream is broken.
    Broken(Seq<char>),
    /// A whole frame and its length.
    Whole(MessageView, int),
}

pub open spec fn crc_mismatch(which: Seq<char>, want: nat, got: u32) -> Seq<char> {
    "event-stream "@ + which + " CRC mismatch: expected 0x"@ + text::hex_text(want, 8) + ", got 0x"@
        + text::hex_text(got as nat, 8)
}

/// The frame that the bytes start with. The prelude CRC is checked before its
/// length is believed, the message CRC before anything in the frame is read.
pub open spec fn next_frame(buf: Seq<u8>) -> NextFrame {
    if buf.len() < PRELUDE_BYTES {
        NextFrame::Partial
    } else {
        let total = be32(buf, 0) as int;
        let headers_len = be32(buf, 4) as int;
        if crc_of(buf.take(8)) != be32(buf, 8) {
            NextFrame::Broken(crc_mismatch("prelude"@, be32(buf, 8), crc_of(buf.take(8))))
        } else if total < FRAME_OVERHEAD {
            NextFrame::Broken(
                "event-stream frame total_len="@ + text::decimal_text(total as nat)
                    + " is below the minimum "@ + text::decimal_text(FRAME_OVERHEAD as nat),
            )
        } else if total > MAX_FRAME_BYTES {
            NextFrame::Broken(
                "event-stream frame total_len="@ + text::decimal_text(total as nat)
                    + " exceeds the "@ + text::decimal_text(MAX_FRAME_BYTES as nat)
                    + "-byte limit"@,
            )
        } else if buf.len() < total {
            NextFrame::Partial
        } else if crc_of(buf.take(total - 4)) != be32(buf, total - 4) {
            NextFrame::Broken(
                crc_mismatch("message"@, be32(buf, total - 4), crc_of(buf.take(total - 4))),
            )
        } else if PRELUDE_BYTES + headers_len > total - 4 {
            NextFrame::Broken(
                "event-stream headers_len="@ + text::decimal_text(headers_len as nat)
                    + " overflows total_len="@ + text::decimal_text(total as nat),
            )
        } else {
            let headers_end = PRELUDE_BYTES + headers_len;
            match headers_of(buf.subrange(PRELUDE_BYTES as int, headers_end), seq![]) {
                Err(message) => NextFrame::Broken(message),
                Ok(headers) => NextFrame::Whole(
                    MessageView { headers, payload: buf.subrange(headers_end, total - 4) },
                    total,
                ),
            }
        }
    }
}

/// What the buffered bytes come to: the whole frames, the bytes that stay, and
/// what broke the stream, if anything did.
pub struct Drained {
    pub messages: Seq<MessageView>,
    pub rest: Seq<u8>,
    pub broken: Option<Seq<char>>,
}

pub open spec fn drain(buf: Seq<u8>, before: Seq<MessageView>) -> Drained
    decreases buf.len(),
{
    match next_frame(buf) {
        NextFrame::Partial => Drained { messages: before, rest: buf, broken: None },
        NextFrame::Broken(message) => Drained {
            messages: before,
            rest: buf,
            broken: Some(message),
        },
        NextFrame::Whole(message, len) => if 0 < len <= buf.len() {
            drain(buf.skip(len), before.push(message))
        } else {
            Drained { messages: before, rest: buf, broken: None }
        },
    }
}

/// Reassembles frames from an arbitrary byte stream.
#[derive(Debug)]
pub struct EventStreamSplitter {
    buf: Vec<u8>,
    table: CrcTable,
}

impl View for EventStreamSplitter {
    type V = Seq<u8>;

    closed spec fn view(&self) -> Seq<u8> {
        self.buf@
    }
}

impl Default for EventStreamSplitter {
    fn default() -> (splitter: Self)
        ensures
            splitter@ == Seq::<u8>::empty(),
    {
        EventStreamSplitter { buf: Vec::new(), table: CrcTable::new() }
    }
}

pub open spec fn interrupted_view(message: Seq<char>) -> LlmErrorView {
    LlmErrorView::StreamInterrupted { message }
}

fn interrupted(message: String) -> (error: LlmError)
    ensures
        error@ == interrupted_view(message@),
{
    LlmError::StreamInterrupted { message }
}

/// `bytes` without the first `n`.
fn without_first(bytes: &Vec<u8>, n: usize) -> (rest: Vec<u8>)
    requires
        n <= bytes@.len(),
    ensures
        rest@ == bytes@.skip(n as int),
{
    copy_range(bytes.as_slice(), n, bytes.len())
}

fn copy_range(bytes: &[u8], from: usize, to: usize) -> (part: Vec<u8>)
    requires
        from <= to <= bytes@.len(),
    ensures
        part@ == bytes@.subrange(from as int, to as int),
{
    let mut part: Vec<u8> = Vec::new();
    let mut i = from;
    while i < to
        invariant
            from <= i <= to <= bytes@.len(),
            part@ == bytes@.subrange(from as int, i as int),
        decreases to - i,
    {
        part.push(bytes[i]);
        i = i + 1;
        assert(bytes@.subrange(from as int, i as int) =~= bytes@.subrange(
            from as int,
            i - 1,
        ).push(bytes@[i - 1]));
    }
    part
}

fn truncation(what: &str) -> (error: LlmError)
    ensures
        error@ == interrupted_view(truncated(what@)),
{
    interrupted(text::cat2("event-stream truncated while reading ", what))
}

impl EventStreamSplitter {
    pub fn new() -> (splitter: Self)
        ensures
            splitter@ == Seq::<u8>::empty(),
    {
        EventStreamSplitter { buf: Vec::new(), table: CrcTable::new() }
    }

    /// Feed a chunk; return every frame it completed. A partial frame is kept
    /// until a later chunk finishes it.
    pub fn feed(&mut self, chunk: &[u8]) -> (result: Result<Vec<EventStreamMessage>, LlmError>)
        ensures
            final(self)@ == drain(old(self)@ + chunk@, seq![]).rest,
            match result {
                Ok(messages) => drain(old(self)@ + chunk@, seq![]).broken is None
                    && messages.deep_view() == drain(old(self)@ + chunk@, seq![]).messages,
                Err(error) => drain(old(self)@ + chunk@, seq![]).broken matches Some(message)
                    && error@ == interrupted_view(message),
            },
    {
        let mut i: usize = 0;
        while i < chunk.len()
            invariant
                i <= chunk.len(),
                self@ == old(self)@ + chunk@.take(i as int),
            decreases chunk.len() - i,
        {
            self.buf.push(chunk[i]);
            i = i + 1;
            assert(chunk@.take(i as int) =~= chunk@.take(i - 1).push(chunk@[i - 1]));
        }
        assert(chunk@.take(i as int) =~= chunk@);
        let ghost all = self@;
        let mut messages: Vec<EventStreamMessage> = Vec::new();
        assert(messages.deep_view() =~= seq![]);
        loop
            invariant
                all == old(self)@ + chunk@,
                drain(all, seq![]) == drain(self@, messages.deep_view()),
            decreases self@.len(),
        {
            match self.next()? {
                None => return Ok(messages),
                Some((message, len)) => {
                    messages.push(message);
                    self.buf = without_first(&self.buf, len);
                },
            }
        }
    }

    /// The frame that the buffered bytes start with, and its length.
    fn next(&self) -> (result: Result<Option<(EventStreamMessage, usize)>, LlmError>)
        ensures
            match result {
                Ok(None) => next_frame(self@) is Partial,
                Ok(Some((message, len))) => next_frame(self@) == NextFrame::Whole(
                    message@,
                    len as int,
                ) && 0 < len <= self@.len(),
                Err(error) => next_frame(self@) matches NextFrame::Broken(message) && error@
                    == interrupted_view(message),
            },
    {
        let bytes = self.buf.as_slice();
        if bytes.len() < PRELUDE_BYTES {
            return Ok(None);
        }
        let total = read_be32(bytes, 0) as usize;
        let headers_len = read_be32(bytes, 4) as usize;
        let want = read_be32(bytes, 8);
        let got = self.table.crc_of_range(bytes, 0, 8);
        assert(bytes@.subrange(0, 8) =~= bytes@.take(8));
        if got != want {
            return Err(mismatch("prelude", want, got));
        }
        if total < FRAME_OVERHEAD {
            let message = text::cat4(
                "event-stream frame total_len=",
                &text::decimal(total as u64),
                " is below the minimum ",
                &text::decimal(FRAME_OVERHEAD as u64),
            );
            return Err(interrupted(message));
        }
        if total > MAX_FRAME_BYTES {
            return Err(
                interrupted(
                    text::cat5(
                        "event-stream frame total_len=",
                        &text::decimal(total as u64),
                        " exceeds the ",
                        &text::decimal(MAX_FRAME_BYTES as u64),
                        "-byte limit",
                    ),
                ),
            );
        }
        if bytes.len() < total {
            return Ok(None);
        }
        let want = read_be32(bytes, total - 4);
        let got = self.table.crc_of_range(bytes, 0, total - 4);
        assert(bytes@.subrange(0, total - 4) =~= bytes@.take(total - 4));
        if got != want {
            return Err(mismatch("message", want, got));
        }
        if headers_len > total - FRAME_OVERHEAD {
            return Err(
                interrupted(
                    text::cat4(
                        "event-stream headers_len=",
                        &text::decimal(headers_len as u64),
                        " overflows total_len=",
                        &text::decimal(total as u64),
                    ),
                ),
            );
        }
        let headers_end = PRELUDE_BYTES + headers_len;
        let headers = match decode_headers(bytes, PRELUDE_BYTES, headers_end) {
            Ok(headers) => headers,
            Err(error) => return Err(error),
        };
        let payload = copy_range(bytes, headers_end, total - 4);
        Ok(Some((EventStreamMessage { headers, payload }, total)))
    }

    /// Anything left at end of stream means the stream stopped mid-frame.
    pub fn finish(&self) -> (result: Result<(), LlmError>)
        ensures
            match result {
                Ok(()) => self@.len() == 0,
                Err(error) => self@.len() > 0 && error@ == interrupted_view(
                    "event-stream ended mid-frame with "@ + text::decimal_text(self@.len())
                        + " unconsumed bytes"@,
                ),
            },
    {
        if self.buf.len() == 0 {
            Ok(())
        } else {
            Err(
                interrupted(
                    text::cat3(
                        "event-stream ended mid-frame with ",
                        &text::decimal(self.buf.len() as u64),
                        " unconsumed bytes",
                    ),
                ),
            )
        }
    }
}

fn mismatch(which: &str, want: u32, got: u32) -> (error: LlmError)
    ensures
        error@ == interrupted_view(crc_mismatch(which@, want as nat, got)),
{
    let start = text::cat3("event-stream ", which, " CRC mismatch: expected 0x");
    interrupted(text::cat4(&start, &text::hex(want as u64, 8), ", got 0x", &text::hex(got as u64, 8)))
}

/// The string headers in `bytes[from..to]`.
fn decode_headers(bytes: &[u8], from: usize, to: usize) -> (result: Result<
    Vec<(String, String)>,
    LlmError,
>)
    requires
        from <= to <= bytes@.len(),
    ensures
        match result {
            Ok(headers) => headers_of(bytes@.subrange(from as int, to as int), seq![]) == Ok::<
                Seq<(Seq<char>, Seq<char>)>,
                Seq<char>,
            >(headers.deep_view()),
            Err(error) => headers_of(bytes@.subrange(from as int, to as int), seq![]) matches Err(
                message,
            ) && error@ == interrupted_view(message),
        },
{
    let mut headers: Vec<(String, String)> = Vec::new();
    let mut at = from;
    let ghost whole = headers_of(bytes@.subrange(from as int, to as int), seq![]);
    assert(headers.deep_view() =~= seq![]);
    while at < to
        invariant
            from <= at <= to <= bytes@.len(),
            whole == headers_of(bytes@.subrange(at as int, to as int), headers.deep_view()),
            whole == headers_of(bytes@.subrange(from as int, to as int), seq![]),
        decreases to - at,
    {
        let ghost data = bytes@.subrange(at as int, to as int);
        let (header, len) = match decode_header(bytes, at, to) {
            Ok(decoded) => decoded,
            Err(error) => return Err(error),
        };
        assert(data.skip(len as int) =~= bytes@.subrange(at + len, to as int));
        if let Some((name, value)) = header {
            headers.push((name, value));
        }
        at = at + len;
    }
    assert(bytes@.subrange(at as int, to as int) =~= seq![]);
    Ok(headers)
}

/// The header that `bytes[from..to]` starts with, where it is a string, and its
/// length.
fn decode_header(bytes: &[u8], from: usize, to: usize) -> (result: Result<
    (Option<(String, String)>, usize),
    LlmError,
>)
    requires
        from < to <= bytes@.len(),
    ensures
        match result {
            Ok((header, len)) => 0 < len <= to - from && (first_header(
                bytes@.subrange(from as int, to as int),
            ) matches Ok(view) && view.len == len && match header {
                Some((name, value)) => view.name == name@ && view.value == Some(value@),
                None => view.value is None,
            }),
            Err(error) => first_header(bytes@.subrange(from as int, to as int)) matches Err(message)
                && error@ == interrupted_view(message),
        },
{
    let ghost data = bytes@.subrange(from as int, to as int);
    let total = to - from;
    let name_len = bytes[from] as usize;
    if total < 1 + name_len {
        return Err(truncation("header name"));
    }
    let at = 1 + name_len;
    let name_bytes = copy_range(bytes, from + 1, from + at);
    assert(name_bytes@ =~= data.subrange(1, at as int));
    let name = match text::from_utf8(name_bytes) {
        Ok(name) => name,
        Err(e) => return Err(
            interrupted(text::cat2("event-stream header name is not UTF-8: ", &e)),
        ),
    };
    if total < at + 1 {
        return Err(truncation("byte"));
    }
    let value_type = bytes[from + at];
    let width: usize = match value_type {
        0 | 1 => 0,
        2 => 1,
        3 => 2,
        4 => 4,
        5 | 8 => 8,
        9 => 16,
        6 | 7 => return decode_sized(name, bytes, from, to, at),
        _ => {
            return Err(
                interrupted(
                    text::cat4(
                        "event-stream header ",
                        &text::debug(&name),
                        " has unknown value type ",
                        &text::decimal(value_type as u64),
                    ),
                ),
            );
        },
    };
    if total < at + 1 + width {
        let what = match value_type {
            2 => "i8 header value",
            3 => "i16 header value",
            4 => "i32 header value",
            5 | 8 => "8-byte header value",
            _ => "uuid header value",
        };
        return Err(truncation(what));
    }
    Ok((None, at + 1 + width))
}

/// The header `name` whose bytes or string value starts with its length.
fn decode_sized(name: String, bytes: &[u8], from: usize, to: usize, at: usize) -> (result: Result<
    (Option<(String, String)>, usize),
    LlmError,
>)
    requires
        from < to <= bytes@.len(),
        at < to - from,
        bytes@[from + at] == 6 || bytes@[from + at] == 7,
    ensures
        match result {
            Ok((header, len)) => 0 < len <= to - from && (header_with_value(
                name@,
                bytes@.subrange(from as int, to as int),
                at as int,
            ) matches Ok(view) && view.len == len && match header {
                Some((name, value)) => view.name == name@ && view.value == Some(value@),
                None => view.value is None,
            }),
            Err(error) => header_with_value(
                name@,
                bytes@.subrange(from as int, to as int),
                at as int,
            ) matches Err(message) && error@ == interrupted_view(message),
        },
{
    let ghost data = bytes@.subrange(from as int, to as int);
    let total = to - from;
    let is_string = bytes[from + at] == 7;
    if total < 3 || total - 3 < at {
        return Err(
            truncation(
                if is_string {
                    "string header length"
                } else {
                    "bytes header length"
                },
            ),
        );
    }
    let len = (bytes[from + at + 1] as usize) * 0x100 + bytes[from + at + 2] as usize;
    assert(len == be16(data, at + 1));
    if total - at - 3 < len {
        return Err(
            truncation(
                if is_string {
                    "string header value"
                } else {
                    "bytes header value"
                },
            ),
        );
    }
    let end = at + 3 + len;
    if !is_string {
        return Ok((None, end));
    }
    let value_bytes = copy_range(bytes, from + at + 3, from + end);
    assert(value_bytes@ =~= data.subrange(at + 3, end as int));
    match text::from_utf8(value_bytes) {
        Ok(value) => Ok((Some((name, value)), end)),
        Err(e) => Err(
            interrupted(
                text::cat4("event-stream header ", &text::debug(&name), " is not UTF-8: ", &e),
            ),
        ),
    }
}

/// A whole or broken frame is recognised whatever follows it.
proof fn lemma_next_frame_is_stable(buf: Seq<u8>, more: Seq<u8>)
    requires
        next_frame(buf) !is Partial,
    ensures
        next_frame(buf + more) == next_frame(buf),
        next_frame(buf) matches NextFrame::Whole(_, len) ==> 0 < len <= buf.len(),
{
    let all = buf + more;
    assert(all.take(8) =~= buf.take(8));
    assert(forall|i: int| 0 <= i < buf.len() ==> all[i] == buf[i]);
    let total = be32(buf, 0) as int;
    if FRAME_OVERHEAD <= total <= buf.len() {
        assert(all.take(total - 4) =~= buf.take(total - 4));
        let headers_end = PRELUDE_BYTES + be32(buf, 4);
        if headers_end <= total - 4 {
            assert(all.subrange(PRELUDE_BYTES as int, headers_end as int) =~= buf.subrange(
                PRELUDE_BYTES as int,
                headers_end as int,
            ));
            assert(all.subrange(headers_end as int, total - 4) =~= buf.subrange(
                headers_end as int,
                total - 4,
            ));
        }
    }
}

/// What was read before only stands in front of what is read now.
proof fn lemma_drain_before(buf: Seq<u8>, before: Seq<MessageView>)
    ensures
        drain(buf, before).messages == before + drain(buf, seq![]).messages,
        drain(buf, before).rest == drain(buf, seq![]).rest,
        drain(buf, before).broken == drain(buf, seq![]).broken,
    decreases buf.len(),
{
    match next_frame(buf) {
        NextFrame::Whole(message, len) => {
            lemma_next_frame_is_stable(buf, seq![]);
            assert(buf + Seq::<u8>::empty() =~= buf);
            lemma_drain_before(buf.skip(len), before.push(message));
            lemma_drain_before(buf.skip(len), Seq::<MessageView>::empty().push(message));
            let rest = drain(buf.skip(len), seq![]).messages;
            assert(before.push(message) + rest =~= before + (Seq::<MessageView>::empty().push(message)
                + rest));
        },
        _ => {
            assert(before + seq![] =~= before);
        },
    }
}

proof fn lemma_drain_in_two(x: Seq<u8>, y: Seq<u8>, before: Seq<MessageView>)
    requires
        drain(x, before).broken is None,
    ensures
        drain(x + y, before) == drain(drain(x, before).rest + y, drain(x, before).messages),
    decreases x.len(),
{
    if let NextFrame::Whole(message, len) = next_frame(x) {
        lemma_next_frame_is_stable(x, y);
        assert((x + y).skip(len) =~= x.skip(len) + y);
        lemma_drain_in_two(x.skip(len), y, before.push(message));
    }
}

/// Where a transport cuts the stream makes no difference: feeding two chunks
/// yields what feeding the one made of both does, unless the first broke the
/// stream.
pub proof fn chunk_boundaries_do_not_matter(held: Seq<u8>, a: Seq<u8>, b: Seq<u8>)
    requires
        drain(held + a, seq![]).broken is None,
    ensures
        ({
            let first = drain(held + a, seq![]);
            let second = drain(first.rest + b, seq![]);
            let both = drain(held + (a + b), seq![]);
            &&& both.messages == first.messages + second.messages
            &&& both.rest == second.rest
            &&& both.broken == second.broken
        }),
{
    let first = drain(held + a, seq![]);
    assert(held + (a + b) =~= (held + a) + b);
    lemma_drain_in_two(held + a, b, seq![]);
    lemma_drain_before(first.rest + b, first.messages);
}

/// Four bytes, the highest first.
#[verifier::opaque]
pub open spec fn be32_bytes(n: nat) -> Seq<u8> {
    seq![
        (n / 0x100_0000 % 256) as u8,
        (n / 0x1_0000 % 256) as u8,
        (n / 0x100 % 256) as u8,
        (n % 256) as u8,
    ]
}

/// A string header as the wire writes it.
pub open spec fn header_bytes(header: (Seq<char>, Seq<char>)) -> Seq<u8> {
    let name = encode_utf8(header.0);
    let value = encode_utf8(header.1);
    seq![name.len() as u8] + name + seq![
        7u8,
        (value.len() / 256 % 256) as u8,
        (value.len() % 256) as u8,
    ] + value
}

pub open spec fn header_block(headers: Seq<(Seq<char>, Seq<char>)>) -> Seq<u8>
    decreases headers.len(),
{
    if headers.len() == 0 {
        seq![]
    } else {
        header_bytes(headers[0]) + header_block(headers.skip(1))
    }
}

/// A message as the wire writes it.
pub open spec fn frame_bytes(message: MessageView) -> Seq<u8> {
    let h = header_block(message.headers);
    let total = FRAME_OVERHEAD as nat + h.len() + message.payload.len();
    let lengths = be32_bytes(total) + be32_bytes(h.len());
    let prelude = lengths + be32_bytes(crc_of(lengths) as nat);
    let body = prelude + h + message.payload;
    body + be32_bytes(crc_of(body) as nat)
}

/// A message that the format can hold.
pub open spec fn representable(message: MessageView) -> bool {
    &&& forall|i: int|
        0 <= i < message.headers.len() ==> encode_utf8((#[trigger] message.headers[i]).0).len()
            <= 255 && encode_utf8(message.headers[i].1).len() <= 65535
    &&& FRAME_OVERHEAD + header_block(message.headers).len() + message.payload.len()
        <= MAX_FRAME_BYTES
}

proof fn lemma_be32_bytes(n: nat, data: Seq<u8>, at: int)
    requires
        n <= u32::MAX,
        0 <= at,
        at + 4 <= data.len(),
        data.subrange(at, at + 4) == be32_bytes(n),
    ensures
        be32(data, at) == n,
{
    reveal(be32_bytes);
    assert(data[at] == data.subrange(at, at + 4)[0]);
    assert(data[at + 1] == data.subrange(at, at + 4)[1]);
    assert(data[at + 2] == data.subrange(at, at + 4)[2]);
    assert(data[at + 3] == data.subrange(at, at + 4)[3]);
}

proof fn lemma_be32_len(n: nat)
    ensures
        be32_bytes(n).len() == 4,
{
    reveal(be32_bytes);
}

/// Where the parts of a frame stand.
proof fn lemma_layout(a: Seq<u8>, b: Seq<u8>, c: Seq<u8>, h: Seq<u8>, p: Seq<u8>, t: Seq<u8>)
    requires
        a.len() == 4,
        b.len() == 4,
        c.len() == 4,
        t.len() == 4,
    ensures
        ({
            let frame = a + b + c + h + p + t;
            let total = 16 + h.len() + p.len();
            &&& frame.len() == total
            &&& frame.subrange(0, 4) == a
            &&& frame.subrange(4, 8) == b
            &&& frame.subrange(8, 12) == c
            &&& frame.take(8) == a + b
            &&& frame.take(total - 4) == a + b + c + h + p
            &&& frame.subrange(12, 12 + h.len() as int) == h
            &&& frame.subrange(12 + h.len() as int, total - 4) == p
            &&& frame.subrange(total - 4, total as int) == t
        }),
{
    let frame = a + b + c + h + p + t;
    let total = 16 + h.len() + p.len();
    assert(frame.subrange(0, 4) =~= a);
    assert(frame.subrange(4, 8) =~= b);
    assert(frame.subrange(8, 12) =~= c);
    assert(frame.take(8) =~= a + b);
    assert(frame.take(total - 4) =~= a + b + c + h + p);
    assert(frame.subrange(12, 12 + h.len() as int) =~= h);
    assert(frame.subrange(12 + h.len() as int, total - 4) =~= p);
    assert(frame.subrange(total - 4, total as int) =~= t);
}

#[verifier::spinoff_prover]
#[verifier::rlimit(40)]
proof fn lemma_header_block_read(headers: Seq<(Seq<char>, Seq<char>)>, before: Seq<(Seq<char>, Seq<char>)>)
    requires
        forall|i: int|
            0 <= i < headers.len() ==> encode_utf8((#[trigger] headers[i]).0).len() <= 255
                && encode_utf8(headers[i].1).len() <= 65535,
    ensures
        headers_of(header_block(headers), before) == Ok::<Seq<(Seq<char>, Seq<char>)>, Seq<char>>(
            before + headers,
        ),
    decreases headers.len(),
{
    broadcast use vstd::utf8::encode_utf8_decode_utf8, vstd::utf8::encode_utf8_valid_utf8;

    if headers.len() == 0 {
        assert(before + headers =~= before);
    } else {
        let header = headers[0];
        let rest = header_block(headers.skip(1));
        let data = header_block(headers);
        let name = encode_utf8(header.0);
        let value = encode_utf8(header.1);
        let at = 1 + name.len() as int;
        assert(name.len() <= 255 && value.len() <= 65535);
        assert(data =~= seq![name.len() as u8] + (name + (seq![
            7u8,
            (value.len() / 256 % 256) as u8,
            (value.len() % 256) as u8,
        ] + (value + rest))));
        assert(data[0] == name.len());
        assert(data.subrange(1, at) =~= name);
        assert(data[at] == 7);
        assert(data[at + 1] == value.len() / 256 % 256);
        assert(data[at + 2] == value.len() % 256);
        assert(be16(data, at + 1) == value.len());
        assert(data.subrange(at + 3, at + 3 + value.len()) =~= value);
        let len = at + 3 + value.len();
        assert(first_header(data) == Ok::<HeaderView, Seq<char>>(
            HeaderView { name: header.0, value: Some(header.1), len },
        ));
        assert(data.skip(len) =~= rest);
        assert forall|i: int| 0 <= i < headers.skip(1).len() implies encode_utf8(
            (#[trigger] headers.skip(1)[i]).0,
        ).len() <= 255 && encode_utf8(headers.skip(1)[i].1).len() <= 65535 by {
            assert(headers.skip(1)[i] == headers[i + 1]);
        }
        lemma_header_block_read(headers.skip(1), before.push((header.0, header.1)));
        assert(before.push((header.0, header.1)) + headers.skip(1) =~= before + headers);
    }
}

/// A frame round-trips with its headers and payload, whatever follows it.
#[verifier::spinoff_prover]
#[verifier::rlimit(40)]
pub proof fn a_frame_round_trips(message: MessageView, after: Seq<u8>)
    requires
        representable(message),
    ensures
        next_frame(frame_bytes(message) + after) == NextFrame::Whole(
            message,
            frame_bytes(message).len() as int,
        ),
        drain(frame_bytes(message), seq![]) == (Drained {
            messages: seq![message],
            rest: seq![],
            broken: None,
        }),
{
    let h = header_block(message.headers);
    let total = FRAME_OVERHEAD as nat + h.len() + message.payload.len();
    let a = be32_bytes(total);
    let b = be32_bytes(h.len());
    let c = be32_bytes(crc_of(a + b) as nat);
    let body = a + b + c + h + message.payload;
    let t = be32_bytes(crc_of(body) as nat);
    let frame = frame_bytes(message);
    lemma_be32_len(total);
    lemma_be32_len(h.len());
    lemma_be32_len(crc_of(a + b) as nat);
    lemma_be32_len(crc_of(body) as nat);
    lemma_layout(a, b, c, h, message.payload, t);
    assert(frame == a + b + c + h + message.payload + t);
    lemma_be32_bytes(total, frame, 0);
    lemma_be32_bytes(h.len(), frame, 4);
    lemma_be32_bytes(crc_of(a + b) as nat, frame, 8);
    lemma_be32_bytes(crc_of(body) as nat, frame, total - 4);
    lemma_header_block_read(message.headers, seq![]);
    assert(Seq::<(Seq<char>, Seq<char>)>::empty() + message.headers =~= message.headers);
    assert(next_frame(frame) == NextFrame::Whole(message, total as int));
    lemma_next_frame_is_stable(frame, after);
    assert(frame.skip(total as int) =~= seq![]);
    assert(Seq::<MessageView>::empty().push(message) =~= seq![message]);
    assert(drain(frame.skip(total as int), seq![message]) == (Drained {
        messages: seq![message],
        rest: seq![],
        broken: None,
    }));
}

/// A frame cut short is held: nothing comes out and nothing is lost.
pub proof fn a_cut_frame_is_held(message: MessageView, n: int)
    requires
        representable(message),
        0 <= n < frame_bytes(message).len(),
    ensures
        drain(frame_bytes(message).take(n), seq![]) == (Drained {
            messages: seq![],
            rest: frame_bytes(message).take(n),
            broken: None,
        }),
{
    let frame = frame_bytes(message);
    let part = frame.take(n);
    a_frame_round_trips(message, seq![]);
    assert(frame + Seq::<u8>::empty() =~= frame);
    if next_frame(part) !is Partial {
        lemma_next_frame_is_stable(part, frame.skip(n));
        assert(part + frame.skip(n) =~= frame);
    }
}

} // verus!
