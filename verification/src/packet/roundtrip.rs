//! What encoding and decoding have to do with each other.
use vstd::prelude::*;
use crate::checksum::crc16_kermit;
use crate::constants::{QUEUE_CAPACITY, SLIP_END, SLIP_ESC, SLIP_START};
use crate::misc::{
    keep_newest, lemma_slip_encode_append, lemma_slip_encode_push, slip_encode, slip_escape,
};
use crate::packet::{
    checksum_span, decode_body, frame_body, frame_covered, frame_verdict, frame_wire, le16,
    le16_value, packet_type_of, slip_scan, slip_scan_frame, slip_store, slip_unescape, SlipScan,
    UartPacketError, UartPacketType, FRAME_OVERHEAD, HEADER_LEN, SCRATCH_LEN,
};

verus! {

/// Whether no byte of `s` is the start byte.
pub open spec fn no_start(s: Seq<u8>) -> bool {
    forall|i: int| 0 <= i < s.len() ==> s[i] != SLIP_START
}

/// Splitting a value into two bytes and putting them together again gives
/// the value.
pub proof fn lemma_le16_value(v: u16)
    ensures
        le16(v).len() == 2,
        le16_value(le16(v)[0], le16(v)[1]) == v,
{
}

/// The stuffed form of a sequence begins with the stuffed form of its first
/// byte.
pub proof fn lemma_slip_encode_front(data: Seq<u8>)
    requires
        data.len() > 0,
    ensures
        slip_encode(data) == slip_escape(data[0]) + slip_encode(data.skip(1)),
{
    lemma_slip_encode_append(seq![data[0]], data.skip(1));
    assert(seq![data[0]] + data.skip(1) =~= data);
    lemma_slip_encode_push(Seq::<u8>::empty(), data[0]);
    assert(Seq::<u8>::empty().push(data[0]) =~= seq![data[0]]);
    assert(slip_encode(Seq::<u8>::empty()) + slip_escape(data[0]) =~= slip_escape(data[0]));
}

/// Inside a frame, stuffed data that fits the buffer is read back as it
/// was, whatever follows it.
pub proof fn lemma_scan_stuffed(data: Seq<u8>, tail: Seq<u8>, cap: nat, stored: Seq<u8>)
    requires
        stored.len() + data.len() < cap,
    ensures
        slip_scan_frame(slip_encode(data) + tail, cap, stored) == slip_scan_frame(
            tail,
            cap,
            stored + data,
        ),
    decreases data.len(),
{
    if data.len() == 0 {
        assert(slip_encode(data) + tail =~= tail);
        assert(stored + data =~= stored);
    } else {
        let b = data[0];
        let input = slip_encode(data) + tail;
        let next = slip_encode(data.skip(1)) + tail;
        lemma_slip_encode_front(data);
        lemma_scan_stuffed(data.skip(1), tail, cap, stored.push(b));
        assert(stored.push(b) + data.skip(1) =~= stored + data);
        assert(input =~= slip_escape(b) + next);
        if b == SLIP_START || b == SLIP_ESC || b == SLIP_END {
            assert(input[0] == SLIP_ESC);
            assert(slip_unescape(input[1]) == Some(b));
            assert(input.skip(2) =~= next);
            assert(slip_scan_frame(input, cap, stored) == slip_store(next, cap, stored, b));
        } else {
            assert(input[0] == b);
            assert(input.skip(1) =~= next);
            assert(slip_scan_frame(input, cap, stored) == slip_store(next, cap, stored, b));
        }
        assert(slip_store(next, cap, stored, b) == slip_scan_frame(next, cap, stored.push(b)));
    }
}

/// Bytes in front of a frame that hold no start byte are passed over.
pub proof fn lemma_scan_skips(garbage: Seq<u8>, tail: Seq<u8>, cap: nat)
    requires
        no_start(garbage),
    ensures
        slip_scan(garbage + tail, cap) == slip_scan(tail, cap),
    decreases garbage.len(),
{
    if garbage.len() == 0 {
        assert(garbage + tail =~= tail);
    } else {
        lemma_scan_skips(garbage.skip(1), tail, cap);
        assert((garbage + tail).skip(1) =~= garbage.skip(1) + tail);
        assert((garbage + tail)[0] == garbage[0]);
    }
}

/// Byte stuffing round trip, with resynchronisation: data that fits the
/// buffer, stuffed and set between a start and an end byte, is pulled out
/// as it was. Bytes in front that hold no start byte do not matter, and
/// what follows the end byte stays behind.
pub proof fn lemma_slip_roundtrip(garbage: Seq<u8>, data: Seq<u8>, rest: Seq<u8>, cap: nat)
    requires
        no_start(garbage),
        data.len() < cap,
    ensures
        slip_scan(garbage + seq![SLIP_START] + slip_encode(data) + seq![SLIP_END] + rest, cap)
            == (SlipScan { error: None, stored: data, rest }),
{
    let framed = seq![SLIP_START] + slip_encode(data) + seq![SLIP_END] + rest;
    let inner = slip_encode(data) + (seq![SLIP_END] + rest);
    lemma_scan_skips(garbage, framed, cap);
    assert(garbage + seq![SLIP_START] + slip_encode(data) + seq![SLIP_END] + rest =~= garbage
        + framed);
    assert(framed.skip(1) =~= inner);
    lemma_scan_stuffed(data, seq![SLIP_END] + rest, cap, Seq::<u8>::empty());
    assert(Seq::<u8>::empty() + data =~= data);
    assert((seq![SLIP_END] + rest).skip(1) =~= rest);
}

/// An escape byte inside a frame that no escape code follows is an encoding
/// error, whatever was read before it.
pub proof fn lemma_bad_escape_rejected(
    garbage: Seq<u8>,
    data: Seq<u8>,
    code: u8,
    rest: Seq<u8>,
    cap: nat,
)
    requires
        no_start(garbage),
        data.len() < cap,
        slip_unescape(code) is None,
    ensures
        slip_scan(
            garbage + seq![SLIP_START] + slip_encode(data) + seq![SLIP_ESC, code] + rest,
            cap,
        ).error == Some(UartPacketError::EncodingError),
{
    let tail = seq![SLIP_ESC, code] + rest;
    let framed = seq![SLIP_START] + slip_encode(data) + tail;
    lemma_scan_skips(garbage, framed, cap);
    assert(garbage + seq![SLIP_START] + slip_encode(data) + seq![SLIP_ESC, code] + rest
        =~= garbage + framed);
    assert(framed.skip(1) =~= slip_encode(data) + tail);
    lemma_scan_stuffed(data, tail, cap, Seq::<u8>::empty());
    assert(tail[0] == SLIP_ESC && tail[1] == code);
}

/// The body of a frame whose payload fits the scratch buffer passes every
/// check and gives back kind and payload.
pub proof fn lemma_body_roundtrip(t: UartPacketType, payload: Seq<u8>)
    requires
        payload.len() + FRAME_OVERHEAD < SCRATCH_LEN,
    ensures
        frame_body(t, payload).len() == payload.len() + FRAME_OVERHEAD,
        decode_body(frame_body(t, payload)) == Ok::<(UartPacketType, Seq<u8>), UartPacketError>(
            (t, payload),
        ),
{
    let covered = frame_covered(t, payload);
    let body = frame_body(t, payload);
    let field = (HEADER_LEN + payload.len()) as u16;
    let crc = crc16_kermit(covered);
    lemma_le16_value(field);
    lemma_le16_value(crc);
    assert(checksum_span(body) =~= covered);
    assert(body[0] == t.code());
    assert(packet_type_of(t.code()) == Some(t));
    assert(body[1] == le16(field)[0] && body[2] == le16(field)[1]);
    let n = body.len() as int;
    assert(body[n - 2] == le16(crc)[0] && body[n - 1] == le16(crc)[1]);
    assert(body.subrange(HEADER_LEN as int, n - 2) =~= payload);
}

/// Frame round trip, with resynchronisation: a frame on the wire whose
/// payload fits the scratch buffer is pulled out whole and decodes to its
/// kind and payload. Bytes in front that hold no start byte do not matter,
/// and what follows the frame stays behind.
pub proof fn lemma_frame_roundtrip(
    garbage: Seq<u8>,
    t: UartPacketType,
    payload: Seq<u8>,
    rest: Seq<u8>,
)
    requires
        no_start(garbage),
        payload.len() + FRAME_OVERHEAD < SCRATCH_LEN,
    ensures
        slip_scan(garbage + frame_wire(t, payload) + rest, SCRATCH_LEN as nat) == (SlipScan {
            error: None,
            stored: frame_body(t, payload),
            rest,
        }),
        decode_body(frame_body(t, payload)) == Ok::<(UartPacketType, Seq<u8>), UartPacketError>(
            (t, payload),
        ),
{
    lemma_body_roundtrip(t, payload);
    lemma_slip_roundtrip(garbage, frame_body(t, payload), rest, SCRATCH_LEN as nat);
    assert(garbage + frame_wire(t, payload) + rest =~= garbage + seq![SLIP_START] + slip_encode(
        frame_body(t, payload),
    ) + seq![SLIP_END] + rest);
}

/// Byte stuffing makes data at most twice as long.
pub proof fn lemma_slip_encode_len(data: Seq<u8>)
    ensures
        data.len() <= slip_encode(data).len() <= 2 * data.len(),
    decreases data.len(),
{
    if data.len() > 0 {
        lemma_slip_encode_len(data.drop_last());
    }
}

/// Encoding, then decoding: a frame written into a queue that has room for
/// it and holds no start byte is the frame that is pulled out of the queue,
/// with its kind and payload, and the queue is left empty.
pub proof fn lemma_queued_frame_decodes(held: Seq<u8>, t: UartPacketType, payload: Seq<u8>)
    requires
        no_start(held),
        payload.len() + FRAME_OVERHEAD < SCRATCH_LEN,
        held.len() + 2 * (payload.len() + FRAME_OVERHEAD) + 2 <= QUEUE_CAPACITY,
    ensures
        ({
            let scan = slip_scan(keep_newest(held + frame_wire(t, payload)), SCRATCH_LEN as nat);
            &&& scan.error is None
            &&& scan.rest == Seq::<u8>::empty()
            &&& decode_body(scan.stored) == Ok::<(UartPacketType, Seq<u8>), UartPacketError>(
                (t, payload),
            )
        }),
{
    lemma_body_roundtrip(t, payload);
    lemma_slip_encode_len(frame_body(t, payload));
    lemma_frame_roundtrip(held, t, payload, Seq::<u8>::empty());
    assert(held + frame_wire(t, payload) + Seq::<u8>::empty() =~= held + frame_wire(t, payload));
}

/// A body whose kind is known and whose length field fits the scratch
/// buffer is corrupted as soon as the checksum it carries is not the
/// checksum of the bytes in front of it.
pub proof fn lemma_checksum_mismatch_is_corrupted(body: Seq<u8>)
    requires
        body.len() >= FRAME_OVERHEAD,
        packet_type_of(body[0]) is Some,
        le16_value(body[1], body[2]) <= SCRATCH_LEN,
        le16_value(body[body.len() - 2], body[body.len() - 1]) != crc16_kermit(
            checksum_span(body),
        ),
    ensures
        decode_body(body) == Err::<(UartPacketType, Seq<u8>), UartPacketError>(
            UartPacketError::CorruptedError,
        ),
{
}

} // verus!
