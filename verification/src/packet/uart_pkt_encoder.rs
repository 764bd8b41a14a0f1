//! Encoding a frame for the host.
use vstd::prelude::*;
use crate::checksum::{crc16_kermit, kermit_checksum};
use crate::constants::{queue_bytes, CacheQueue, SLIP_END, SLIP_START};
use crate::misc::{
    appended, enqueue_ditch_oldest, keep_newest, lemma_appended_twice, lemma_keep_newest_append,
    lemma_slip_encode_append, lemma_slip_encode_push, slip_encode, slip_enqueue, slip_escape,
};
use crate::packet::{
    covered_with_length, frame_covered, frame_wire, le16, wire_with_length, UartPacketType,
    HEADER_LEN,
};
use crate::subghz::{signal_rssi_of, snr_of, LoraPacketStatus};

verus! {

/// The two bytes of a signed value in two's complement, low byte first.
pub open spec fn le16_signed(v: int) -> Seq<u8> {
    if v >= 0 {
        le16(v as u16)
    } else {
        le16((v + 0x1_0000) as u16)
    }
}

/// The payload that reports a received radio packet to the host: signal
/// strength and signal-to-noise ratio as signed 16-bit values, low byte
/// first, then the data.
pub open spec fn received_payload(status: LoraPacketStatus, data: Seq<u8>) -> Seq<u8> {
    le16_signed(signal_rssi_of(status.raw@)) + le16_signed(snr_of(status.raw@)) + data
}

/// The frame that reports a received radio packet to the host, as it
/// stands on the wire. Its length field counts link quality and data.
pub open spec fn received_frame_wire(status: LoraPacketStatus, data: Seq<u8>) -> Seq<u8> {
    wire_with_length(
        UartPacketType::RadioReceivedPacket,
        (4 + data.len()) as u16,
        received_payload(status, data),
    )
}

/// Writes one frame into a queue, field by field.
pub struct UartPacketEncoder<'a> {
    /// The queue that the frame goes into.
    pub queue: &'a mut CacheQueue,
    /// What has been written behind the start byte so far, before byte
    /// stuffing; the checksum will cover it.
    pub covered: Vec<u8>,
}

/// Splits `v` into its low and its high byte.
fn split_le16(v: u16) -> (r: (u8, u8))
    ensures
        seq![r.0, r.1] == le16(v),
{
    let r = ((v % 256) as u8, (v / 256) as u8);
    assert(seq![r.0, r.1] =~= le16(v));
    r
}

/// Splits a signed `v` into the low and the high byte of its two's
/// complement.
fn split_le16_signed(v: i16) -> (r: (u8, u8))
    ensures
        seq![r.0, r.1] == le16_signed(v as int),
{
    if v >= 0 {
        split_le16(v as u16)
    } else {
        split_le16((v as i32 + 0x1_0000) as u16)
    }
}

impl<'a> UartPacketEncoder<'a> {
    /// Writes a ping frame into the queue.
    pub fn make_ping(queue: &'a mut CacheQueue)
        ensures
            queue_bytes(*final(queue)) == keep_newest(
                queue_bytes(*old(queue)) + frame_wire(UartPacketType::Ping, Seq::<u8>::empty()),
            ),
    {
        Self::make_bare(UartPacketType::Ping, queue)
    }

    /// Writes a pong frame into the queue.
    pub fn make_pong(queue: &'a mut CacheQueue)
        ensures
            queue_bytes(*final(queue)) == keep_newest(
                queue_bytes(*old(queue)) + frame_wire(UartPacketType::Pong, Seq::<u8>::empty()),
            ),
    {
        Self::make_bare(UartPacketType::Pong, queue)
    }

    /// Writes an ack frame into the queue.
    pub fn make_ack(queue: &'a mut CacheQueue)
        ensures
            queue_bytes(*final(queue)) == keep_newest(
                queue_bytes(*old(queue)) + frame_wire(UartPacketType::Ack, Seq::<u8>::empty()),
            ),
    {
        Self::make_bare(UartPacketType::Ack, queue)
    }

    /// Writes a nack frame into the queue.
    pub fn make_nack(queue: &'a mut CacheQueue)
        ensures
            queue_bytes(*final(queue)) == keep_newest(
                queue_bytes(*old(queue)) + frame_wire(UartPacketType::Nack, Seq::<u8>::empty()),
            ),
    {
        Self::make_bare(UartPacketType::Nack, queue)
    }

    /// Writes a frame of the given kind without payload into the queue.
    pub fn make_bare(pkt_type: UartPacketType, queue: &'a mut CacheQueue)
        ensures
            queue_bytes(*final(queue)) == keep_newest(
                queue_bytes(*old(queue)) + frame_wire(pkt_type, Seq::<u8>::empty()),
            ),
    {
        let mut pkt = UartPacketEncoder::new(pkt_type, queue);
        pkt.add_packet_len(HEADER_LEN);
        proof {
            let field = le16(HEADER_LEN as u16);
            assert(pkt.covered@ =~= frame_covered(pkt_type, Seq::<u8>::empty()));
            lemma_frame_grows(queue_bytes(*old(queue)), seq![pkt_type.code()], field);
            lemma_frame_parts(queue_bytes(*old(queue)), pkt.covered@);
        }
        pkt.finalize()
    }

    /// Writes a frame of the given kind with the given payload into the
    /// queue.
    pub fn encode_packet(pkt_type: UartPacketType, payload: &[u8], queue: &'a mut CacheQueue)
        requires
            HEADER_LEN + payload@.len() <= u16::MAX,
        ensures
            queue_bytes(*final(queue)) == keep_newest(
                queue_bytes(*old(queue)) + frame_wire(pkt_type, payload@),
            ),
    {
        let mut pkt = UartPacketEncoder::new(pkt_type, queue);
        pkt.add_packet_len(HEADER_LEN + payload.len());
        pkt.add_payload(payload);
        proof {
            let head = seq![pkt_type.code()];
            let field = le16((HEADER_LEN + payload@.len()) as u16);
            assert(pkt.covered@ =~= frame_covered(pkt_type, payload@));
            lemma_frame_grows(queue_bytes(*old(queue)), head, field);
            lemma_frame_grows(queue_bytes(*old(queue)), head + field, payload@);
            lemma_frame_parts(queue_bytes(*old(queue)), pkt.covered@);
        }
        pkt.finalize()
    }

    /// Begins a frame of the given kind: writes the start byte and the type
    /// byte.
    pub fn new(pkt_type: UartPacketType, queue: &'a mut CacheQueue) -> (r: UartPacketEncoder<'a>)
        ensures
            r.covered@ == seq![pkt_type.code()],
            queue_bytes(*r.queue) == keep_newest(
                queue_bytes(*old(queue)) + seq![SLIP_START] + slip_encode(r.covered@),
            ),
            *final(queue) == *final(r.queue),
    {
        let code = pkt_type.as_byte();
        let mut covered: Vec<u8> = Vec::new();
        covered.push(code);
        enqueue_ditch_oldest(queue, SLIP_START);
        slip_enqueue(queue, code);
        proof {
            let before = queue_bytes(*old(queue));
            lemma_keep_newest_append(before.push(SLIP_START), slip_escape(code));
            lemma_slip_encode_push(Seq::<u8>::empty(), code);
            assert(Seq::<u8>::empty().push(code) =~= covered@);
            assert(slip_encode(Seq::<u8>::empty()) + slip_escape(code) =~= slip_escape(code));
            assert(before.push(SLIP_START) + slip_escape(code) =~= before + seq![SLIP_START]
                + slip_encode(covered@));
        }
        UartPacketEncoder { queue, covered }
    }

    /// Writes one byte of the frame.
    fn put(&mut self, b: u8)
        ensures
            final(self).covered@ == old(self).covered@.push(b),
            queue_bytes(*final(self).queue) == keep_newest(
                queue_bytes(*old(self).queue) + slip_escape(b),
            ),
            *final(final(self).queue) == *final(old(self).queue),
    {
        self.covered.push(b);
        slip_enqueue(self.queue, b);
    }

    /// Writes `pkt_len` into the length field, low byte first.
    pub fn add_packet_len(&mut self, pkt_len: usize)
        requires
            pkt_len <= u16::MAX,
        ensures
            final(self).covered@ == old(self).covered@ + le16(pkt_len as u16),
            queue_bytes(*final(self).queue) == keep_newest(
                queue_bytes(*old(self).queue) + slip_encode(le16(pkt_len as u16)),
            ),
            *final(final(self).queue) == *final(old(self).queue),
    {
        let field: u16 = pkt_len as u16;
        let (lo, hi) = split_le16(field);
        self.put_pair(lo, hi);
    }

    /// Writes two bytes of the frame.
    fn put_pair(&mut self, lo: u8, hi: u8)
        ensures
            final(self).covered@ == old(self).covered@ + seq![lo, hi],
            queue_bytes(*final(self).queue) == keep_newest(
                queue_bytes(*old(self).queue) + slip_encode(seq![lo, hi]),
            ),
            *final(final(self).queue) == *final(old(self).queue),
    {
        let ghost before = queue_bytes(*self.queue);
        self.put(lo);
        self.put(hi);
        proof {
            lemma_keep_newest_append(before + slip_escape(lo), slip_escape(hi));
            lemma_slip_encode_push(Seq::<u8>::empty(), lo);
            lemma_slip_encode_push(seq![lo], hi);
            assert(Seq::<u8>::empty().push(lo) =~= seq![lo]);
            assert(seq![lo].push(hi) =~= seq![lo, hi]);
            assert(before + slip_escape(lo) + slip_escape(hi) =~= before + slip_encode(
                seq![lo, hi],
            ));
            assert(old(self).covered@.push(lo).push(hi) =~= old(self).covered@ + seq![lo, hi]);
        }
    }

    /// Writes payload bytes.
    pub fn add_payload(&mut self, payload: &[u8])
        ensures
            final(self).covered@ == old(self).covered@ + payload@,
            queue_bytes(*final(self).queue) == appended(
                queue_bytes(*old(self).queue),
                slip_encode(payload@),
            ),
            *final(final(self).queue) == *final(old(self).queue),
    {
        let ghost before = queue_bytes(*self.queue);
        let mut i: usize = 0;
        proof {
            assert(old(self).covered@ + payload@.take(0) =~= old(self).covered@);
        }
        while i < payload.len()
            invariant
                i <= payload@.len(),
                before == queue_bytes(*old(self).queue),
                self.covered@ == old(self).covered@ + payload@.take(i as int),
                queue_bytes(*self.queue) == appended(
                    before,
                    slip_encode(payload@.take(i as int)),
                ),
                *final(self.queue) == *final(old(self).queue),
            decreases payload@.len() - i,
        {
            let b = payload[i];
            self.put(b);
            proof {
                let done = payload@.take(i as int);
                lemma_appended_twice(before, slip_encode(done), slip_escape(b));
                lemma_slip_encode_push(done, b);
                assert(done.push(b) =~= payload@.take(i + 1));
                assert((old(self).covered@ + done).push(b) =~= old(self).covered@
                    + payload@.take(i + 1));
            }
            i += 1;
        }
        proof {
            assert(payload@.take(i as int) =~= payload@);
        }
    }

    /// Writes length field and payload of a received radio packet: the
    /// length, which counts signal strength, signal-to-noise ratio and
    /// `data_len` data bytes; signal strength; signal-to-noise ratio; then
    /// the bytes of `payload`.
    pub fn add_payload_with_lora_status(
        &mut self,
        payload: &[u8],
        data_len: u8,
        pkt_status: LoraPacketStatus,
    )
        ensures
            final(self).covered@ == old(self).covered@ + le16((2 + 2 + data_len) as u16)
                + received_payload(pkt_status, payload@),
            queue_bytes(*final(self).queue) == keep_newest(
                queue_bytes(*old(self).queue) + slip_encode(
                    le16((2 + 2 + data_len) as u16) + received_payload(
                        pkt_status,
                        payload@,
                    ),
                ),
            ),
            *final(final(self).queue) == *final(old(self).queue),
    {
        let ghost before = queue_bytes(*self.queue);
        let ghost field = le16((2 + 2 + data_len) as u16);
        let ghost rssi = le16_signed(signal_rssi_of(pkt_status.raw@));
        let ghost snr = le16_signed(snr_of(pkt_status.raw@));
        self.add_packet_len(2 + 2 + data_len as usize);
        let (rssi_lo, rssi_hi) = split_le16_signed(pkt_status.signal_rssi());
        self.put_pair(rssi_lo, rssi_hi);
        let (snr_lo, snr_hi) = split_le16_signed(pkt_status.snr());
        self.put_pair(snr_lo, snr_hi);
        self.add_payload(payload);
        proof {
            lemma_appended_twice(before, slip_encode(field), slip_encode(rssi));
            lemma_slip_encode_append(field, rssi);
            lemma_appended_twice(before, slip_encode(field + rssi), slip_encode(snr));
            lemma_slip_encode_append(field + rssi, snr);
            lemma_appended_twice(before, slip_encode(field + rssi + snr), slip_encode(payload@));
            lemma_slip_encode_append(field + rssi + snr, payload@);
            assert(field + rssi + snr + payload@ =~= field + received_payload(
                pkt_status,
                payload@,
            ));
            assert(old(self).covered@ + field + rssi + snr + payload@ =~= old(self).covered@
                + field + received_payload(pkt_status, payload@));
        }
    }

    /// Ends the frame: writes the checksum of what was written behind the
    /// start byte, low byte first, and the end byte.
    pub fn finalize(self)
        ensures
            queue_bytes(*final(self.queue)) == keep_newest(
                queue_bytes(*old(self.queue)) + slip_encode(le16(crc16_kermit(self.covered@)))
                    + seq![SLIP_END],
            ),
    {
        let ghost before = queue_bytes(*self.queue);
        let checksum = kermit_checksum(self.covered.as_slice());
        let (lo, hi) = split_le16(checksum);
        slip_enqueue(self.queue, lo);
        slip_enqueue(self.queue, hi);
        enqueue_ditch_oldest(self.queue, SLIP_END);
        proof {
            let crc = le16(crc16_kermit(self.covered@));
            lemma_keep_newest_append(before + slip_escape(lo), slip_escape(hi));
            lemma_keep_newest_append(before + slip_escape(lo) + slip_escape(hi), seq![SLIP_END]);
            lemma_slip_encode_push(Seq::<u8>::empty(), lo);
            lemma_slip_encode_push(seq![lo], hi);
            assert(Seq::<u8>::empty().push(lo) =~= seq![lo]);
            assert(seq![lo].push(hi) =~= crc);
            assert(before + slip_escape(lo) + slip_escape(hi) =~= before + slip_encode(crc));
            assert(keep_newest(before + slip_encode(crc)).push(SLIP_END) =~= keep_newest(
                before + slip_encode(crc),
            ) + seq![SLIP_END]);
        }
    }
}

/// Writing more of a frame behind what is written extends the stuffed
/// frame.
pub proof fn lemma_frame_grows(before: Seq<u8>, covered: Seq<u8>, more: Seq<u8>)
    ensures
        appended(
            keep_newest(before + seq![SLIP_START] + slip_encode(covered)),
            slip_encode(more),
        ) == keep_newest(before + seq![SLIP_START] + slip_encode(covered + more)),
{
    let head = before + seq![SLIP_START] + slip_encode(covered);
    lemma_slip_encode_append(covered, more);
    if slip_encode(more).len() == 0 {
        assert(slip_encode(covered + more) =~= slip_encode(covered));
    } else {
        lemma_keep_newest_append(head, slip_encode(more));
        assert(head + slip_encode(more) =~= before + seq![SLIP_START] + slip_encode(
            covered + more,
        ));
    }
}

/// A frame written field by field is the frame as a whole: start byte and
/// stuffed covered part, then the stuffed checksum and the end byte.
pub proof fn lemma_frame_parts(before: Seq<u8>, covered: Seq<u8>)
    ensures
        keep_newest(
            keep_newest(before + seq![SLIP_START] + slip_encode(covered)) + slip_encode(
                le16(crc16_kermit(covered)),
            ) + seq![SLIP_END],
        ) == keep_newest(
            before + (seq![SLIP_START] + slip_encode(covered + le16(crc16_kermit(covered)))
                + seq![SLIP_END]),
        ),
{
    let crc = le16(crc16_kermit(covered));
    let head = before + seq![SLIP_START] + slip_encode(covered);
    lemma_keep_newest_append(head, slip_encode(crc) + seq![SLIP_END]);
    lemma_slip_encode_append(covered, crc);
    assert(keep_newest(head) + slip_encode(crc) + seq![SLIP_END] =~= keep_newest(head) + (
    slip_encode(crc) + seq![SLIP_END]));
    assert(head + (slip_encode(crc) + seq![SLIP_END]) =~= before + (seq![SLIP_START]
        + slip_encode(covered + crc) + seq![SLIP_END]));
}

} // verus!
