//! The byte layout of an event record, and the conversion of events to bytes
//! and back.
//!
//! A record is a timestamp of two platform words, then the 16-bit event type,
//! the 16-bit code and the signed 32-bit value, each in the byte order of the
//! machine that runs the kernel. The timestamp is always written as zero: the
//! kernel orders events by arrival.

use vstd::prelude::*;

verus! {

/// The type, the code and the value of one event.
pub type EventParams = (u16, u16, i32);

/// The order of the bytes of an integer in memory.
#[derive(PartialEq, Eq, Structural, Copy, Clone, Debug)]
pub enum ByteOrder {
    LittleEndian,
    BigEndian,
}

/// The width of a platform word.
#[derive(PartialEq, Eq, Structural, Copy, Clone, Debug)]
pub enum WordSize {
    Four,
    Eight,
}

/// How a machine lays out an event record.
#[derive(PartialEq, Eq, Structural, Copy, Clone, Debug)]
pub struct WireLayout {
    pub order: ByteOrder,
    pub word: WordSize,
}

/// The time of an event, as the kernel's record holds it.
#[allow(non_camel_case_types)]
#[derive(PartialEq, Eq, Structural, Copy, Clone, Debug)]
pub struct timeval {
    pub tv_sec: i64,
    pub tv_usec: i64,
}

/// One event as the kernel records it.
#[allow(non_camel_case_types)]
#[derive(PartialEq, Eq, Structural, Copy, Clone, Debug)]
pub struct input_event {
    pub time: timeval,
    pub kind: u16,
    pub code: u16,
    pub value: i32,
}

/// The timestamp that every written record carries.
pub open spec fn fixed_time() -> timeval {
    timeval { tv_sec: 0, tv_usec: 0 }
}

/// The two bytes of `v`, least significant first.
pub open spec fn low_first_u16(v: u16) -> Seq<u8> {
    seq![(v % 256) as u8, (v / 256) as u8]
}

/// The four bytes of `v`, least significant first.
pub open spec fn low_first_u32(v: u32) -> Seq<u8> {
    seq![
        (v % 256) as u8,
        ((v / 0x100) % 256) as u8,
        ((v / 0x1_0000) % 256) as u8,
        (v / 0x100_0000) as u8,
    ]
}

/// The bytes of `v` in the given order.
pub open spec fn u16_bytes(order: ByteOrder, v: u16) -> Seq<u8> {
    match order {
        ByteOrder::LittleEndian => low_first_u16(v),
        ByteOrder::BigEndian => low_first_u16(v).reverse(),
    }
}

/// The bytes of `v` in the given order.
pub open spec fn u32_bytes(order: ByteOrder, v: u32) -> Seq<u8> {
    match order {
        ByteOrder::LittleEndian => low_first_u32(v),
        ByteOrder::BigEndian => low_first_u32(v).reverse(),
    }
}

/// The unsigned number that has the bits of `v` in two's complement.
pub open spec fn twos_complement(v: i32) -> u32 {
    if v >= 0 {
        v as u32
    } else {
        (v + 0x1_0000_0000) as u32
    }
}

/// The signed number whose two's complement is `v`.
pub open spec fn from_twos_complement(v: u32) -> i32 {
    if v < 0x8000_0000 {
        v as i32
    } else {
        (v - 0x1_0000_0000) as i32
    }
}

/// The number that the low sixteen bits of `v` make up.
pub open spec fn low16(v: i32) -> u16 {
    (v % 0x1_0000) as u16
}

/// The bytes of `v` in the given order, in two's complement.
pub open spec fn i32_bytes(order: ByteOrder, v: i32) -> Seq<u8> {
    u32_bytes(order, twos_complement(v))
}

/// The number whose bytes, in the given order, are `b[0]` and `b[1]`.
pub open spec fn u16_from_bytes(order: ByteOrder, b: Seq<u8>) -> u16
    recommends
        b.len() == 2,
{
    match order {
        ByteOrder::LittleEndian => (b[0] + 256 * b[1]) as u16,
        ByteOrder::BigEndian => (b[1] + 256 * b[0]) as u16,
    }
}

/// The number whose bytes, in the given order, are `b[0]` to `b[3]`.
pub open spec fn u32_from_bytes(order: ByteOrder, b: Seq<u8>) -> u32
    recommends
        b.len() == 4,
{
    match order {
        ByteOrder::LittleEndian => (b[0] + 0x100 * b[1] + 0x1_0000 * b[2] + 0x100_0000 * b[3]) as u32,
        ByteOrder::BigEndian => (b[3] + 0x100 * b[2] + 0x1_0000 * b[1] + 0x100_0000 * b[0]) as u32,
    }
}

/// `n` bytes that are all zero.
pub open spec fn zero_bytes(n: nat) -> Seq<u8> {
    Seq::new(n, |i: int| 0u8)
}

impl WireLayout {
    /// The number of bytes in a platform word.
    pub open spec fn word_len(self) -> nat {
        match self.word {
            WordSize::Four => 4,
            WordSize::Eight => 8,
        }
    }

    /// The number of bytes in the timestamp of a record.
    pub open spec fn time_len(self) -> nat {
        2 * self.word_len()
    }

    /// The number of bytes in a record.
    pub open spec fn record_len(self) -> nat {
        self.time_len() + 8
    }

    /// The layout of records on the machine that runs this code.
    pub fn host() -> (layout: WireLayout)
        ensures
            layout == host_layout(),
    {
        WireLayout { order: ByteOrder::host(), word: WordSize::host() }
    }

    /// The number of bytes in a record: 16 with words of four bytes, 24 with
    /// words of eight.
    pub fn record_size(&self) -> (n: usize)
        ensures
            n == self.record_len(),
    {
        match self.word {
            WordSize::Four => 16,
            WordSize::Eight => 24,
        }
    }
}

/// The bytes of `v` as this machine holds them in memory.
///
/// Trusted: calls `u16::to_ne_bytes`, which gives the two bytes of the number
/// in the machine's own byte order. Which of the two orders that is, is not
/// stated: the contract speaks of it by the name that `vstd` has for the
/// byte order of the hardware, of which nothing more is known than that it
/// is one and the same for every call.
#[verifier::external_body]
fn native_u16_bytes(v: u16) -> (bytes: [u8; 2])
    ensures
        bytes@ == u16_bytes(host_order(), v),
{
    v.to_ne_bytes()
}

impl ByteOrder {
    /// The byte order of the machine that runs this code: the order in which
    /// the machine holds the bytes of the number 1.
    pub fn host() -> (order: ByteOrder)
        ensures
            order == host_order(),
    {
        let bytes: [u8; 2] = native_u16_bytes(1);
        if bytes[0] == 1 {
            ByteOrder::LittleEndian
        } else {
            ByteOrder::BigEndian
        }
    }
}

impl WordSize {
    /// The word size of the machine that runs this code.
    pub fn host() -> (word: WordSize)
        ensures
            word == host_word(),
    {
        if core::mem::size_of::<usize>() == 8 {
            WordSize::Eight
        } else {
            WordSize::Four
        }
    }
}

/// The byte order of the machine that runs this code. Which of the two it
/// is, is left open: `vstd` names the hardware's byte order and says no more
/// of it.
pub open spec fn host_order() -> ByteOrder {
    match vstd::endian::endianness() {
        vstd::endian::Endian::Little => ByteOrder::LittleEndian,
        vstd::endian::Endian::Big => ByteOrder::BigEndian,
    }
}

/// The word size of the machine that runs this code.
pub open spec fn host_word() -> WordSize {
    if core::mem::size_of::<usize>() == 8 {
        WordSize::Eight
    } else {
        WordSize::Four
    }
}

/// The layout of records on the machine that runs this code.
pub open spec fn host_layout() -> WireLayout {
    WireLayout { order: host_order(), word: host_word() }
}

/// The record that stands for the event `(kind, code, value)`.
pub open spec fn encoded(layout: WireLayout, kind: u16, code: u16, value: i32) -> Seq<u8> {
    zero_bytes(layout.time_len()) + u16_bytes(layout.order, kind) + u16_bytes(layout.order, code)
        + i32_bytes(layout.order, value)
}

/// The records of `events`, one after the other.
pub open spec fn encoded_batch(layout: WireLayout, events: Seq<EventParams>) -> Seq<u8>
    decreases events.len(),
{
    if events.len() == 0 {
        Seq::empty()
    } else {
        encoded_batch(layout, events.drop_last()) + encoded(
            layout,
            events.last().0,
            events.last().1,
            events.last().2,
        )
    }
}

/// The event that a record stands for; `None` where `bytes` has not the
/// length of a record. The timestamp is not looked at.
pub open spec fn decoded(layout: WireLayout, bytes: Seq<u8>) -> Option<EventParams> {
    if bytes.len() == layout.record_len() {
        let t = layout.time_len() as int;
        Some(
            (
                u16_from_bytes(layout.order, bytes.subrange(t, t + 2)),
                u16_from_bytes(layout.order, bytes.subrange(t + 2, t + 4)),
                from_twos_complement(u32_from_bytes(layout.order, bytes.subrange(t + 4, t + 8))),
            ),
        )
    } else {
        None
    }
}

pub(crate) fn push_u16(out: &mut Vec<u8>, order: ByteOrder, v: u16)
    ensures
        final(out)@ == old(out)@ + u16_bytes(order, v),
{
    let low: u8 = (v % 256) as u8;
    let high: u8 = (v / 256) as u8;
    match order {
        ByteOrder::LittleEndian => {
            out.push(low);
            out.push(high);
        },
        ByteOrder::BigEndian => {
            out.push(high);
            out.push(low);
        },
    }
    assert(final(out)@ =~= old(out)@ + u16_bytes(order, v));
}

fn unsigned_bits(v: i32) -> (u: u32)
    ensures
        u == twos_complement(v),
{
    if v >= 0 {
        v as u32
    } else {
        (v as i64 + 0x1_0000_0000) as u32
    }
}

/// The number that the low sixteen bits of `v` make up: a code that was
/// handed over as a wider number.
pub fn low_bits(v: i32) -> (low: u16)
    ensures
        low == low16(v),
        0 <= v < 0x1_0000 ==> low == v,
{
    if v >= 0 {
        (v % 0x1_0000) as u16
    } else {
        ((v as i64 + 0x1_0000_0000) % 0x1_0000) as u16
    }
}

fn signed_from_bits(u: u32) -> (v: i32)
    ensures
        v == from_twos_complement(u),
{
    if u < 0x8000_0000 {
        u as i32
    } else {
        (u as i64 - 0x1_0000_0000) as i32
    }
}

pub(crate) fn push_u32(out: &mut Vec<u8>, order: ByteOrder, v: u32)
    ensures
        final(out)@ == old(out)@ + u32_bytes(order, v),
{
    let b0: u8 = (v % 256) as u8;
    let b1: u8 = ((v / 0x100) % 256) as u8;
    let b2: u8 = ((v / 0x1_0000) % 256) as u8;
    let b3: u8 = (v / 0x100_0000) as u8;
    match order {
        ByteOrder::LittleEndian => {
            out.push(b0);
            out.push(b1);
            out.push(b2);
            out.push(b3);
        },
        ByteOrder::BigEndian => {
            out.push(b3);
            out.push(b2);
            out.push(b1);
            out.push(b0);
        },
    }
    assert(final(out)@ =~= old(out)@ + u32_bytes(order, v));
}

pub(crate) fn push_i32(out: &mut Vec<u8>, order: ByteOrder, v: i32)
    ensures
        final(out)@ == old(out)@ + i32_bytes(order, v),
{
    push_u32(out, order, unsigned_bits(v));
}

fn push_zeros(out: &mut Vec<u8>, n: usize)
    ensures
        final(out)@ == old(out)@ + zero_bytes(n as nat),
{
    let mut i: usize = 0;
    while i < n
        invariant
            i <= n,
            out@ =~= old(out)@ + zero_bytes(i as nat),
        decreases n - i,
    {
        out.push(0u8);
        i += 1;
    }
}

/// Appends the record of `(kind, code, value)` to `out`.
pub fn push_record(out: &mut Vec<u8>, layout: WireLayout, kind: u16, code: u16, value: i32)
    ensures
        final(out)@ == old(out)@ + encoded(layout, kind, code, value),
{
    let time: usize = match layout.word {
        WordSize::Four => 8,
        WordSize::Eight => 16,
    };
    push_zeros(out, time);
    push_u16(out, layout.order, kind);
    push_u16(out, layout.order, code);
    push_i32(out, layout.order, value);
    assert(final(out)@ =~= old(out)@ + encoded(layout, kind, code, value));
}

/// The record of the event `(kind, code, value)`.
pub fn encode(layout: WireLayout, kind: u16, code: u16, value: i32) -> (bytes: Vec<u8>)
    ensures
        bytes@ == encoded(layout, kind, code, value),
        bytes@.len() == layout.record_len(),
{
    let mut bytes: Vec<u8> = Vec::new();
    push_record(&mut bytes, layout, kind, code, value);
    proof {
        lemma_record_length(layout, kind, code, value);
    }
    assert(bytes@ =~= encoded(layout, kind, code, value));
    bytes
}

/// A record has the same length whatever the event.
pub proof fn lemma_record_length(layout: WireLayout, kind: u16, code: u16, value: i32)
    ensures
        encoded(layout, kind, code, value).len() == layout.record_len(),
{
}

/// Fills `record` with the event `(kind, code, value)` and the timestamp
/// that every written record carries, and gives the record's bytes.
pub fn convert_event_for_writing(
    kind: u16,
    code: u16,
    value: i32,
    record: &mut input_event,
    layout: WireLayout,
) -> (bytes: Vec<u8>)
    ensures
        *final(record) == (input_event { time: fixed_time(), kind, code, value }),
        bytes@ == encoded(layout, kind, code, value),
        bytes@.len() == layout.record_len(),
{
    record.time = timeval { tv_sec: 0, tv_usec: 0 };
    record.kind = kind;
    record.code = code;
    record.value = value;
    encode(layout, record.kind, record.code, record.value)
}

/// The records of `batch`, one after the other.
pub fn encode_batch(layout: WireLayout, batch: &[EventParams]) -> (bytes: Vec<u8>)
    ensures
        bytes@ == encoded_batch(layout, batch@),
{
    let mut bytes: Vec<u8> = Vec::new();
    let mut i: usize = 0;
    while i < batch.len()
        invariant
            i <= batch.len(),
            bytes@ == encoded_batch(layout, batch@.take(i as int)),
        decreases batch.len() - i,
    {
        let event: EventParams = batch[i];
        push_record(&mut bytes, layout, event.0, event.1, event.2);
        proof {
            assert(batch@.take(i + 1).drop_last() =~= batch@.take(i as int));
        }
        i += 1;
    }
    assert(batch@.take(i as int) =~= batch@);
    bytes
}

fn read_u16(order: ByteOrder, bytes: &[u8], at: usize) -> (v: u16)
    requires
        at + 2 <= bytes@.len(),
    ensures
        v == u16_from_bytes(order, bytes@.subrange(at as int, at + 2)),
{
    let first: u16 = bytes[at] as u16;
    let second: u16 = bytes[at + 1] as u16;
    match order {
        ByteOrder::LittleEndian => first + 256 * second,
        ByteOrder::BigEndian => second + 256 * first,
    }
}

fn read_u32(order: ByteOrder, bytes: &[u8], at: usize) -> (v: u32)
    requires
        at + 4 <= bytes@.len(),
    ensures
        v == u32_from_bytes(order, bytes@.subrange(at as int, at + 4)),
{
    let b0: u32 = bytes[at] as u32;
    let b1: u32 = bytes[at + 1] as u32;
    let b2: u32 = bytes[at + 2] as u32;
    let b3: u32 = bytes[at + 3] as u32;
    match order {
        ByteOrder::LittleEndian => b0 + 0x100 * b1 + 0x1_0000 * b2 + 0x100_0000 * b3,
        ByteOrder::BigEndian => b3 + 0x100 * b2 + 0x1_0000 * b1 + 0x100_0000 * b0,
    }
}

/// Reads one record back: the event that it stands for, or `None` where
/// `bytes` has not the length of a record.
pub fn decode(layout: WireLayout, bytes: &[u8]) -> (event: Option<EventParams>)
    ensures
        event == decoded(layout, bytes@),
        event is Some <==> bytes@.len() == layout.record_len(),
{
    if bytes.len() != layout.record_size() {
        return None;
    }
    let t: usize = layout.record_size() - 8;
    let kind: u16 = read_u16(layout.order, bytes, t);
    let code: u16 = read_u16(layout.order, bytes, t + 2);
    let value: i32 = signed_from_bits(read_u32(layout.order, bytes, t + 4));
    Some((kind, code, value))
}

/// Two bytes written in some order, read in the same order, give the number
/// that was written.
pub proof fn lemma_u16_round_trip(order: ByteOrder, v: u16)
    ensures
        u16_bytes(order, v).len() == 2,
        u16_from_bytes(order, u16_bytes(order, v)) == v,
{
}

/// Four bytes written in some order, read in the same order, give the number
/// that was written.
pub proof fn lemma_u32_round_trip(order: ByteOrder, v: u32)
    ensures
        u32_bytes(order, v).len() == 4,
        u32_from_bytes(order, u32_bytes(order, v)) == v,
{
}

/// Decoding the record of an event gives the event back, and the record has
/// the length that the layout fixes, whatever the event.
pub proof fn lemma_decode_encoded(layout: WireLayout, kind: u16, code: u16, value: i32)
    ensures
        encoded(layout, kind, code, value).len() == layout.record_len(),
        decoded(layout, encoded(layout, kind, code, value)) == Some((kind, code, value)),
{
    let bytes = encoded(layout, kind, code, value);
    let t = layout.time_len() as int;
    assert(bytes.subrange(t, t + 2) =~= u16_bytes(layout.order, kind));
    assert(bytes.subrange(t + 2, t + 4) =~= u16_bytes(layout.order, code));
    assert(bytes.subrange(t + 4, t + 8) =~= i32_bytes(layout.order, value));
    lemma_u16_round_trip(layout.order, kind);
    lemma_u16_round_trip(layout.order, code);
    lemma_u32_round_trip(layout.order, twos_complement(value));
}

/// The records of a batch stand one after the other: a batch of `n` events
/// has `n` times the length of a record.
pub proof fn lemma_batch_length(layout: WireLayout, events: Seq<EventParams>)
    ensures
        encoded_batch(layout, events).len() == events.len() * layout.record_len(),
    decreases events.len(),
{
    if events.len() > 0 {
        lemma_batch_length(layout, events.drop_last());
        assert(encoded_batch(layout, events).len() == (events.len() - 1) * layout.record_len()
            + layout.record_len());
        assert((events.len() - 1) * layout.record_len() + layout.record_len() == events.len()
            * layout.record_len()) by (nonlinear_arith);
    }
}

/// A batch keeps the order of its events: the `i`-th record of the batch,
/// read back, is the `i`-th event.
pub proof fn lemma_batch_record(layout: WireLayout, events: Seq<EventParams>, i: int)
    requires
        0 <= i < events.len(),
    ensures
        (i + 1) * layout.record_len() <= encoded_batch(layout, events).len(),
        decoded(
            layout,
            encoded_batch(layout, events).subrange(
                i * layout.record_len(),
                (i + 1) * layout.record_len(),
            ),
        ) == Some(events[i]),
    decreases events.len(),
{
    let size = layout.record_len() as int;
    let head = events.drop_last();
    let last = events.last();
    lemma_batch_length(layout, events);
    lemma_batch_length(layout, head);
    lemma_decode_encoded(layout, last.0, last.1, last.2);
    assert((i + 1) * size <= events.len() * size) by (nonlinear_arith)
        requires
            i + 1 <= events.len(),
            size >= 0,
    ;
    assert((i + 1) * size == i * size + size) by (nonlinear_arith);
    if i == events.len() - 1 {
        assert(encoded_batch(layout, events).subrange(i * size, (i + 1) * size) =~= encoded(
            layout,
            last.0,
            last.1,
            last.2,
        ));
    } else {
        lemma_batch_record(layout, head, i);
        assert((i + 1) * size <= head.len() * size) by (nonlinear_arith)
            requires
                i + 1 <= head.len(),
                size >= 0,
        ;
        assert(encoded_batch(layout, events).subrange(i * size, (i + 1) * size)
            =~= encoded_batch(layout, head).subrange(i * size, (i + 1) * size));
    }
}

} // verus!
