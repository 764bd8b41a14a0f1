//! Packets between host and device: kinds, errors, frame layout, and pulling
//! a frame out of a byte stream.
use vstd::prelude::*;
use crate::checksum::crc16_kermit;
use crate::misc::slip_encode;
use crate::constants::{
    queue_bytes, queue_dequeue, CacheQueue, SLIP_END, SLIP_ESC, SLIP_ESC_END, SLIP_ESC_ESC,
    SLIP_ESC_START, SLIP_START,
};

pub mod radio_freq_cfg;
pub mod radio_gfsk_cfg;
pub mod radio_lora_cfg;
pub mod radio_phy_cfg;
pub mod radio_rx_cmd;
pub mod roundtrip;
pub mod uart_packet;
pub mod uart_pkt_decoder;
pub mod uart_pkt_encoder;

verus! {

/// Why a frame from the host was rejected.
#[derive(Debug, PartialEq, Eq, Clone, Copy, Structural)]
pub enum UartPacketError {
    /// The checksum does not match, or a length or value is out of range.
    CorruptedError,
    /// The frame does not fit the buffer it is decoded into.
    BufferFullError,
    /// The byte stuffing is broken.
    EncodingError,
    /// The type byte names no known packet.
    UnknownPacketError,
}

/// The kinds of packet that travel between host and device.
#[derive(Debug, PartialEq, Eq, Clone, Copy, Structural)]
pub enum UartPacketType {
    /// Host asks whether the device is alive.
    Ping,
    /// Host sets power amplifier, transmit power and receive gain.
    RadioPhyConfig,
    /// Host sets the carrier frequency.
    RadioFreqConfig,
    /// Host sets LoRa packet and modulation parameters.
    RadioLoraConfig,
    /// Host sets GFSK packet and modulation parameters.
    RadioGfskConfig,
    /// Host puts the radio to sleep.
    RadioGoSleep,
    /// Host puts the radio into standby.
    RadioGoIdle,
    /// Host hands over a payload to transmit.
    RadioSend,
    /// Host starts reception.
    RadioRecvStart,
    /// Host asks for a system reset.
    Restart,
    /// Device answers a ping.
    Pong,
    /// Device accepted a command.
    Ack,
    /// Device rejected a command.
    Nack,
    /// Device forwards a packet that the radio received.
    RadioReceivedPacket,
}

/// The packet kind that a type byte names, if any.
pub open spec fn packet_type_of(code: u8) -> Option<UartPacketType> {
    if code == 0x00 {
        Some(UartPacketType::Ping)
    } else if code == 0x10 {
        Some(UartPacketType::RadioPhyConfig)
    } else if code == 0x11 {
        Some(UartPacketType::RadioFreqConfig)
    } else if code == 0x12 {
        Some(UartPacketType::RadioLoraConfig)
    } else if code == 0x13 {
        Some(UartPacketType::RadioGfskConfig)
    } else if code == 0x40 {
        Some(UartPacketType::RadioGoSleep)
    } else if code == 0x41 {
        Some(UartPacketType::RadioGoIdle)
    } else if code == 0x42 {
        Some(UartPacketType::RadioSend)
    } else if code == 0x43 {
        Some(UartPacketType::RadioRecvStart)
    } else if code == 0x7f {
        Some(UartPacketType::Restart)
    } else if code == 0x80 {
        Some(UartPacketType::Pong)
    } else if code == 0x83 {
        Some(UartPacketType::Ack)
    } else if code == 0x84 {
        Some(UartPacketType::Nack)
    } else if code == 0xc1 {
        Some(UartPacketType::RadioReceivedPacket)
    } else {
        None
    }
}

impl UartPacketType {
    /// The type byte that stands for this packet kind on the wire.
    pub open spec fn code(self) -> u8 {
        match self {
            UartPacketType::Ping => 0x00,
            UartPacketType::RadioPhyConfig => 0x10,
            UartPacketType::RadioFreqConfig => 0x11,
            UartPacketType::RadioLoraConfig => 0x12,
            UartPacketType::RadioGfskConfig => 0x13,
            UartPacketType::RadioGoSleep => 0x40,
            UartPacketType::RadioGoIdle => 0x41,
            UartPacketType::RadioSend => 0x42,
            UartPacketType::RadioRecvStart => 0x43,
            UartPacketType::Restart => 0x7f,
            UartPacketType::Pong => 0x80,
            UartPacketType::Ack => 0x83,
            UartPacketType::Nack => 0x84,
            UartPacketType::RadioReceivedPacket => 0xc1,
        }
    }

    /// Returns the type byte of this packet kind.
    pub fn as_byte(self) -> (r: u8)
        ensures
            r == self.code(),
            packet_type_of(r) == Some(self),
    {
        match self {
            UartPacketType::Ping => 0x00,
            UartPacketType::RadioPhyConfig => 0x10,
            UartPacketType::RadioFreqConfig => 0x11,
            UartPacketType::RadioLoraConfig => 0x12,
            UartPacketType::RadioGfskConfig => 0x13,
            UartPacketType::RadioGoSleep => 0x40,
            UartPacketType::RadioGoIdle => 0x41,
            UartPacketType::RadioSend => 0x42,
            UartPacketType::RadioRecvStart => 0x43,
            UartPacketType::Restart => 0x7f,
            UartPacketType::Pong => 0x80,
            UartPacketType::Ack => 0x83,
            UartPacketType::Nack => 0x84,
            UartPacketType::RadioReceivedPacket => 0xc1,
        }
    }

    /// Reads a type byte; a byte that names no packet kind is an
    /// `UnknownPacketError`.
    pub fn try_from(value: u8) -> (r: Result<UartPacketType, UartPacketError>)
        ensures
            r == match packet_type_of(value) {
                Some(t) => Ok::<UartPacketType, UartPacketError>(t),
                None => Err::<UartPacketType, UartPacketError>(UartPacketError::UnknownPacketError),
            },
            r is Ok ==> r->Ok_0.code() == value,
    {
        match value {
            0x00 => Ok(UartPacketType::Ping),
            0x10 => Ok(UartPacketType::RadioPhyConfig),
            0x11 => Ok(UartPacketType::RadioFreqConfig),
            0x12 => Ok(UartPacketType::RadioLoraConfig),
            0x13 => Ok(UartPacketType::RadioGfskConfig),
            0x40 => Ok(UartPacketType::RadioGoSleep),
            0x41 => Ok(UartPacketType::RadioGoIdle),
            0x42 => Ok(UartPacketType::RadioSend),
            0x43 => Ok(UartPacketType::RadioRecvStart),
            0x7f => Ok(UartPacketType::Restart),
            0x80 => Ok(UartPacketType::Pong),
            0x83 => Ok(UartPacketType::Ack),
            0x84 => Ok(UartPacketType::Nack),
            0xc1 => Ok(UartPacketType::RadioReceivedPacket),
            _ => Err(UartPacketError::UnknownPacketError),
        }
    }
}

/// Size of the buffer that a frame from the host is decoded into.
pub const SCRATCH_LEN: usize = 300;

/// Bytes in front of the payload: the type byte and the length field.
pub const HEADER_LEN: usize = 3;

/// Bytes that a frame holds besides its payload: header and checksum.
pub const FRAME_OVERHEAD: usize = 5;

/// The two bytes of `v`, low byte first.
pub open spec fn le16(v: u16) -> Seq<u8> {
    seq![(v % 256) as u8, (v / 256) as u8]
}

/// The 16-bit value whose low byte is `lo` and whose high byte is `hi`.
pub open spec fn le16_value(lo: u8, hi: u8) -> u16 {
    (lo + 256 * hi) as u16
}

/// The 32-bit value of four bytes, lowest byte first.
pub open spec fn le32_value(b0: u8, b1: u8, b2: u8, b3: u8) -> u32 {
    (b0 + 0x100 * b1 + 0x1_0000 * b2 + 0x100_0000 * b3) as u32
}

/// Puts four bytes together, lowest byte first.
pub fn read_le32(b0: u8, b1: u8, b2: u8, b3: u8) -> (v: u32)
    ensures
        v == le32_value(b0, b1, b2, b3),
{
    b0 as u32 + 0x100 * (b1 as u32) + 0x1_0000 * (b2 as u32) + 0x100_0000 * (b3 as u32)
}

/// The part of a frame that its checksum covers, with `field` in the length
/// field: the type byte, the length field and the payload.
pub open spec fn covered_with_length(t: UartPacketType, field: u16, payload: Seq<u8>) -> Seq<u8> {
    seq![t.code()] + le16(field) + payload
}

/// A frame as it stands on the wire, with `field` in the length field:
/// start byte; type byte, length field, payload and their checksum, low
/// byte first, all stuffed; end byte.
pub open spec fn wire_with_length(t: UartPacketType, field: u16, payload: Seq<u8>) -> Seq<u8> {
    let covered = covered_with_length(t, field, payload);
    seq![SLIP_START] + slip_encode(covered + le16(crc16_kermit(covered))) + seq![SLIP_END]
}

/// The length field of a decoded frame body: its second and third byte,
/// low byte first.
pub open spec fn frame_length(body: Seq<u8>) -> u16 {
    le16_value(body[1], body[2])
}

/// The part of a command or reply frame that its checksum covers: the type
/// byte, the length field and the payload. The length field counts exactly
/// these bytes.
pub open spec fn frame_covered(t: UartPacketType, payload: Seq<u8>) -> Seq<u8> {
    covered_with_length(t, (HEADER_LEN + payload.len()) as u16, payload)
}

/// A frame before byte stuffing: the covered part followed by its checksum,
/// low byte first.
pub open spec fn frame_body(t: UartPacketType, payload: Seq<u8>) -> Seq<u8> {
    frame_covered(t, payload) + le16(crc16_kermit(frame_covered(t, payload)))
}

/// A command or reply frame as it stands on the wire: start byte, the
/// stuffed body, end byte.
pub open spec fn frame_wire(t: UartPacketType, payload: Seq<u8>) -> Seq<u8> {
    wire_with_length(t, (HEADER_LEN + payload.len()) as u16, payload)
}

/// What a decoded frame body amounts to, given the checksum `crc` computed
/// over all of it but its last two bytes. The checks come in this order: a
/// body too short to hold header and checksum is corrupted; the type byte
/// must be known; the length field must not exceed the scratch buffer; the
/// checksum carried must equal `crc`, and the length field must count the
/// bytes in front of the checksum.
pub open spec fn frame_verdict(body: Seq<u8>, crc: u16) -> Result<
    (UartPacketType, Seq<u8>),
    UartPacketError,
> {
    let n = body.len() as int;
    if n < FRAME_OVERHEAD {
        Err(UartPacketError::CorruptedError)
    } else if packet_type_of(body[0]) is None {
        Err(UartPacketError::UnknownPacketError)
    } else if frame_length(body) > SCRATCH_LEN {
        Err(UartPacketError::BufferFullError)
    } else if le16_value(body[n - 2], body[n - 1]) != crc {
        Err(UartPacketError::CorruptedError)
    } else if frame_length(body) != n - 2 {
        Err(UartPacketError::CorruptedError)
    } else {
        Ok((packet_type_of(body[0])->Some_0, body.subrange(HEADER_LEN as int, n - 2)))
    }
}

/// The bytes of a frame body that its checksum covers: all but the last
/// two, or nothing where the body is shorter than that.
pub open spec fn checksum_span(body: Seq<u8>) -> Seq<u8> {
    if body.len() >= 2 {
        body.take(body.len() - 2)
    } else {
        Seq::<u8>::empty()
    }
}

/// What a decoded frame body amounts to.
pub open spec fn decode_body(body: Seq<u8>) -> Result<(UartPacketType, Seq<u8>), UartPacketError> {
    frame_verdict(body, crc16_kermit(checksum_span(body)))
}

/// The byte that an escape code stands for, if it is an escape code.
pub open spec fn slip_unescape(code: u8) -> Option<u8> {
    if code == SLIP_ESC_END {
        Some(SLIP_END)
    } else if code == SLIP_ESC_START {
        Some(SLIP_START)
    } else if code == SLIP_ESC_ESC {
        Some(SLIP_ESC)
    } else {
        None
    }
}

/// How pulling one frame out of a byte stream ends.
pub struct SlipScan {
    /// The failure, if the frame could not be taken out.
    pub error: Option<UartPacketError>,
    /// The bytes stored into the output buffer, in order.
    pub stored: Seq<u8>,
    /// The bytes of the stream that were not consumed.
    pub rest: Seq<u8>,
}

/// Storing one more decoded byte `b` behind `stored` in a buffer of `cap`
/// bytes, then going on with `rest`. The buffer must keep one byte free, so
/// the byte that fills it ends the scan.
pub open spec fn slip_store(rest: Seq<u8>, cap: nat, stored: Seq<u8>, b: u8) -> SlipScan
    decreases rest.len(), 1nat,
{
    if stored.len() >= cap {
        SlipScan { error: Some(UartPacketError::BufferFullError), stored, rest }
    } else if stored.len() + 1 >= cap {
        SlipScan { error: Some(UartPacketError::BufferFullError), stored: stored.push(b), rest }
    } else {
        slip_scan_frame(rest, cap, stored.push(b))
    }
}

/// Scanning `input` from just behind a frame's start byte, with `stored`
/// already in a buffer of `cap` bytes: bytes are unescaped and stored until
/// the end byte is met. A further start byte is passed over. A stream that
/// runs out first, or an escape byte followed by no escape code, is an
/// encoding error.
pub open spec fn slip_scan_frame(input: Seq<u8>, cap: nat, stored: Seq<u8>) -> SlipScan
    decreases input.len(), 0nat,
{
    if input.len() == 0 {
        SlipScan { error: Some(UartPacketError::EncodingError), stored, rest: input }
    } else if input[0] == SLIP_END {
        SlipScan { error: None, stored, rest: input.skip(1) }
    } else if input[0] == SLIP_START {
        slip_scan_frame(input.skip(1), cap, stored)
    } else if input[0] == SLIP_ESC {
        if input.len() == 1 {
            SlipScan { error: Some(UartPacketError::EncodingError), stored, rest: input.skip(1) }
        } else {
            match slip_unescape(input[1]) {
                Some(b) => slip_store(input.skip(2), cap, stored, b),
                None => SlipScan {
                    error: Some(UartPacketError::EncodingError),
                    stored,
                    rest: input.skip(2),
                },
            }
        }
    } else {
        slip_store(input.skip(1), cap, stored, input[0])
    }
}

/// Pulling one frame out of `input` into a buffer of `cap` bytes: everything
/// before the first start byte is passed over, then the frame is scanned. A
/// stream without a start byte is consumed and yields no bytes.
pub open spec fn slip_scan(input: Seq<u8>, cap: nat) -> SlipScan
    decreases input.len(),
{
    if input.len() == 0 {
        SlipScan { error: None, stored: Seq::<u8>::empty(), rest: input }
    } else if input[0] == SLIP_START {
        slip_scan_frame(input.skip(1), cap, Seq::<u8>::empty())
    } else {
        slip_scan(input.skip(1), cap)
    }
}

/// Pulls one frame out of the queue into `out` and returns the number of
/// decoded bytes. The bytes stored stand at the front of `out`; the rest of
/// `out` is as it was.
pub fn slip_dequeue(queue: &mut CacheQueue, out: &mut [u8]) -> (r: Result<usize, UartPacketError>)
    ensures
        final(out)@.len() == old(out)@.len(),
        ({
            let scan = slip_scan(queue_bytes(*old(queue)), old(out)@.len());
            &&& queue_bytes(*final(queue)) == scan.rest
            &&& final(out)@ == scan.stored + old(out)@.skip(scan.stored.len() as int)
            &&& match scan.error {
                Some(e) => r == Err::<usize, UartPacketError>(e),
                None => r == Ok::<usize, UartPacketError>(scan.stored.len() as usize),
            }
        }),
{
    let ghost scan = slip_scan(queue_bytes(*queue), out@.len());
    let cap: usize = out.len();
    let mut begin: bool = false;
    let mut ctr: usize = 0;

    loop
        invariant
            scan == slip_scan(queue_bytes(*old(queue)), old(out)@.len()),
            out@.len() == old(out)@.len(),
            cap == out@.len(),
            ctr <= cap,
            cap > 0 ==> ctr < cap,
            out@ == out@.take(ctr as int) + old(out)@.skip(ctr as int),
            !begin ==> ctr == 0 && scan == slip_scan(queue_bytes(*queue), cap as nat),
            begin ==> scan == slip_scan_frame(queue_bytes(*queue), cap as nat, out@.take(ctr as int)),
        decreases queue_bytes(*queue).len(),
    {
        let ghost input = queue_bytes(*queue);
        let dequeued_byte = match queue_dequeue(queue) {
            Some(b) => b,
            None => {
                if begin {
                    return Err(UartPacketError::EncodingError);
                } else {
                    assert(out@ =~= scan.stored + old(out)@.skip(0));
                    return Ok(0);
                }
            },
        };
        if !begin {
            if dequeued_byte == SLIP_START {
                begin = true;
                assert(out@.take(0) =~= Seq::<u8>::empty());
            }
            continue;
        }
        let stored: u8;
        if dequeued_byte == SLIP_END {
            return Ok(ctr);
        } else if dequeued_byte == SLIP_START {
            continue;
        } else if dequeued_byte == SLIP_ESC {
            let esc = match queue_dequeue(queue) {
                Some(b) => b,
                None => {
                    return Err(UartPacketError::EncodingError);
                },
            };
            assert(queue_bytes(*queue) =~= input.skip(2));
            if esc == SLIP_ESC_END {
                stored = SLIP_END;
            } else if esc == SLIP_ESC_START {
                stored = SLIP_START;
            } else if esc == SLIP_ESC_ESC {
                stored = SLIP_ESC;
            } else {
                return Err(UartPacketError::EncodingError);
            }
        } else {
            stored = dequeued_byte;
        }
        assert(scan == slip_store(queue_bytes(*queue), cap as nat, out@.take(ctr as int), stored));
        if ctr >= cap {
            return Err(UartPacketError::BufferFullError);
        }
        let ghost front = out@.take(ctr as int);
        out[ctr] = stored;
        ctr += 1;
        assert(out@.take(ctr as int) =~= front.push(stored));
        assert(out@ =~= out@.take(ctr as int) + old(out)@.skip(ctr as int));
        if cap <= ctr {
            return Err(UartPacketError::BufferFullError);
        }
    }
}

} // verus!
