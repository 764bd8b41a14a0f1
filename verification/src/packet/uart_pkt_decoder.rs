//! Decoding a frame from the host.
use vstd::prelude::*;
use vstd::slice::slice_subrange;
use crate::checksum::kermit_checksum;
use crate::constants::{queue_bytes, CacheQueue};
use crate::packet::{
    decode_body, frame_length, frame_verdict, slip_dequeue, slip_scan, UartPacketError,
    UartPacketType, FRAME_OVERHEAD, HEADER_LEN, SCRATCH_LEN,
};

verus! {

/// A frame from the host that passed every check: its kind, its length
/// field and its payload.
#[derive(Debug, PartialEq, Eq, Clone, Copy)]
pub struct UartPacketDecoder {
    pkt_type: UartPacketType,
    curr_payload_len: u16,
    payload_buf: [u8; 300],
}

impl UartPacketDecoder {
    #[verifier::type_invariant]
    spec fn well_formed(&self) -> bool {
        HEADER_LEN <= self.curr_payload_len && self.curr_payload_len + 2 <= SCRATCH_LEN
    }

    /// The length field of the frame, as it was read.
    pub closed spec fn length(&self) -> u16 {
        self.curr_payload_len
    }

    /// The kind of the packet.
    pub closed spec fn packet_type(&self) -> UartPacketType {
        self.pkt_type
    }

    /// The payload of the packet.
    pub closed spec fn payload(&self) -> Seq<u8> {
        self.payload_buf@.subrange(HEADER_LEN as int, self.curr_payload_len as int)
    }

    /// Checks a frame body of `decoded_len` bytes that stands at the front
    /// of `buf`, given the checksum `computed_crc` of all of it but its last
    /// two bytes.
    pub fn parse_frame(buf: [u8; 300], decoded_len: usize, computed_crc: u16) -> (r: Result<
        UartPacketDecoder,
        UartPacketError,
    >)
        requires
            decoded_len <= SCRATCH_LEN,
        ensures
            match frame_verdict(buf@.take(decoded_len as int), computed_crc) {
                Ok((t, p)) => r is Ok && r->Ok_0.packet_type() == t && r->Ok_0.payload() == p
                    && r->Ok_0.length() == frame_length(buf@.take(decoded_len as int)),
                Err(e) => r == Err::<UartPacketDecoder, UartPacketError>(e),
            },
    {
        let ghost body = buf@.take(decoded_len as int);
        if decoded_len < FRAME_OVERHEAD {
            return Err(UartPacketError::CorruptedError);
        }
        let pkt_type = match UartPacketType::try_from(buf[0]) {
            Ok(t) => t,
            Err(e) => {
                return Err(e);
            },
        };
        let length: u16 = buf[1] as u16 + (buf[2] as u16) * 256;
        if length as usize > SCRATCH_LEN {
            return Err(UartPacketError::BufferFullError);
        }
        let expected_crc: u16 = buf[decoded_len - 2] as u16 + (buf[decoded_len - 1] as u16) * 256;
        if computed_crc != expected_crc {
            return Err(UartPacketError::CorruptedError);
        }
        if length as usize != decoded_len - 2 {
            return Err(UartPacketError::CorruptedError);
        }
        proof {
            assert(body.subrange(HEADER_LEN as int, decoded_len - 2) =~= buf@.subrange(
                HEADER_LEN as int,
                length as int,
            ));
        }
        Ok(UartPacketDecoder { pkt_type, curr_payload_len: length, payload_buf: buf })
    }

    /// Pulls one frame out of the queue and checks it.
    pub fn new(queue: &mut CacheQueue) -> (r: Result<UartPacketDecoder, UartPacketError>)
        ensures
            ({
                let scan = slip_scan(queue_bytes(*old(queue)), SCRATCH_LEN as nat);
                &&& queue_bytes(*final(queue)) == scan.rest
                &&& match scan.error {
                    Some(e) => r == Err::<UartPacketDecoder, UartPacketError>(e),
                    None => match decode_body(scan.stored) {
                        Ok((t, p)) => r is Ok && r->Ok_0.packet_type() == t && r->Ok_0.payload()
                            == p && r->Ok_0.length() == frame_length(scan.stored),
                        Err(e) => r == Err::<UartPacketDecoder, UartPacketError>(e),
                    },
                }
            }),
    {
        let mut buf: [u8; 300] = [0; 300];
        let decoded_len = match slip_dequeue(queue, &mut buf) {
            Ok(n) => n,
            Err(e) => {
                return Err(e);
            },
        };
        let covered: usize = if decoded_len >= 2 {
            decoded_len - 2
        } else {
            0
        };
        let actual_crc = kermit_checksum(slice_subrange(buf.as_slice(), 0, covered));
        proof {
            let scan = slip_scan(queue_bytes(*old(queue)), SCRATCH_LEN as nat);
            assert(buf@.take(decoded_len as int) =~= scan.stored);
            assert(buf@.subrange(0, covered as int) =~= crate::packet::checksum_span(scan.stored));
        }
        UartPacketDecoder::parse_frame(buf, decoded_len, actual_crc)
    }

    /// Returns the kind of the packet.
    pub fn get_type(&self) -> (r: UartPacketType)
        ensures
            r == self.packet_type(),
    {
        self.pkt_type
    }

    /// Returns the payload and the length field. The length field counts
    /// the type byte and itself besides the payload.
    pub fn get_payload(&self) -> (r: (&[u8], u16))
        ensures
            r.0@ == self.payload(),
            r.1 == self.length(),
            r.1 == HEADER_LEN + self.payload().len(),
            r.1 <= SCRATCH_LEN,
    {
        proof {
            use_type_invariant(self);
        }
        let len = self.curr_payload_len as usize;
        (slice_subrange(self.payload_buf.as_slice(), HEADER_LEN, len), self.curr_payload_len)
    }

    /// Returns the length field. It counts the type byte and itself besides
    /// the payload.
    pub fn get_payload_len(&self) -> (r: u16)
        ensures
            r == self.length(),
            r == HEADER_LEN + self.payload().len(),
            r <= SCRATCH_LEN,
    {
        proof {
            use_type_invariant(self);
        }
        self.curr_payload_len
    }
}

} // verus!
