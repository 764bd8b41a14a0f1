use heapless::spsc::Queue;
use lplora::constants::CacheQueue;
use lplora::misc::enqueue_all_ditch_oldest;
use lplora::packet::uart_packet::UartCmdPacket;
use lplora::packet::uart_pkt_decoder::UartPacketDecoder;
use lplora::packet::uart_pkt_encoder::UartPacketEncoder;
use lplora::packet::{read_le32, UartPacketError, UartPacketType};
use lplora::subghz::LoraPacketStatus;

fn drain(queue: &mut CacheQueue) -> Vec<u8> {
    let mut out = Vec::new();
    while let Some(b) = queue.dequeue() {
        out.push(b);
    }
    out
}

fn queue_of(bytes: &[u8]) -> CacheQueue {
    let mut q: CacheQueue = Queue::new();
    enqueue_all_ditch_oldest(&mut q, bytes);
    q
}

fn kermit(bytes: &[u8]) -> u16 {
    crc::Crc::<u16>::new(&crc::CRC_16_KERMIT).checksum(bytes)
}

fn body_of(kind: u8, payload: &[u8]) -> Vec<u8> {
    let mut body = vec![kind, ((payload.len() + 3) & 0xff) as u8, ((payload.len() + 3) >> 8) as u8];
    body.extend_from_slice(payload);
    let crc = kermit(&body);
    body.push((crc & 0xff) as u8);
    body.push((crc >> 8) as u8);
    body
}

fn scratch_of(body: &[u8]) -> [u8; 300] {
    let mut buf = [0u8; 300];
    buf[..body.len()].copy_from_slice(body);
    buf
}

const ALL_KINDS: [(UartPacketType, u8); 14] = [
    (UartPacketType::Ping, 0x00),
    (UartPacketType::RadioPhyConfig, 0x10),
    (UartPacketType::RadioFreqConfig, 0x11),
    (UartPacketType::RadioLoraConfig, 0x12),
    (UartPacketType::RadioGfskConfig, 0x13),
    (UartPacketType::RadioGoSleep, 0x40),
    (UartPacketType::RadioGoIdle, 0x41),
    (UartPacketType::RadioSend, 0x42),
    (UartPacketType::RadioRecvStart, 0x43),
    (UartPacketType::Restart, 0x7f),
    (UartPacketType::Pong, 0x80),
    (UartPacketType::Ack, 0x83),
    (UartPacketType::Nack, 0x84),
    (UartPacketType::RadioReceivedPacket, 0xc1),
];

#[test]
fn type_bytes_match_the_table() {
    for (kind, code) in ALL_KINDS {
        assert_eq!(kind.as_byte(), code);
        assert_eq!(UartPacketType::try_from(code), Ok(kind));
    }
}

#[test]
fn every_other_type_byte_is_unknown() {
    let mut known = 0;
    for code in 0..=255u8 {
        match UartPacketType::try_from(code) {
            Ok(kind) => {
                known += 1;
                assert_eq!(kind.as_byte(), code);
            }
            Err(e) => assert_eq!(e, UartPacketError::UnknownPacketError),
        }
    }
    assert_eq!(known, 14);
    assert_eq!(UartPacketType::try_from(0x20), Err(UartPacketError::UnknownPacketError));
    assert_eq!(UartPacketType::try_from(0x01), Err(UartPacketError::UnknownPacketError));
}

#[test]
fn little_endian_words() {
    assert_eq!(read_le32(0x78, 0x56, 0x34, 0x12), 0x1234_5678);
    assert_eq!(read_le32(0xff, 0xff, 0xff, 0xff), u32::MAX);
    assert_eq!(read_le32(0, 0, 0, 0), 0);
}

#[test]
fn checksum_is_kermit() {
    let mut q: CacheQueue = Queue::new();
    UartPacketEncoder::encode_packet(UartPacketType::Ping, b"123456789", &mut q);
    let wire = drain(&mut q);
    assert_eq!(wire.len(), 1 + 3 + 9 + 2 + 1);
    let crc = kermit(&wire[1..13]);
    assert_eq!(wire[13], (crc & 0xff) as u8);
    assert_eq!(wire[14], (crc >> 8) as u8);
    assert_eq!(kermit(b"123456789"), 0x2189);
}

#[test]
fn bare_frames_on_the_wire() {
    let mut q: CacheQueue = Queue::new();
    UartPacketEncoder::make_ping(&mut q);
    assert_eq!(drain(&mut q), vec![0xa5, 0x00, 0x03, 0x00, 0x68, 0x2a, 0xc0]);
    UartPacketEncoder::make_pong(&mut q);
    assert_eq!(drain(&mut q), vec![0xa5, 0x80, 0x03, 0x00, 0x84, 0x26, 0xc0]);
    UartPacketEncoder::make_ack(&mut q);
    assert_eq!(drain(&mut q), vec![0xa5, 0x83, 0x03, 0x00, 0xe0, 0xc9, 0xc0]);
    UartPacketEncoder::make_nack(&mut q);
    assert_eq!(drain(&mut q), vec![0xa5, 0x84, 0x03, 0x00, 0xe5, 0x45, 0xc0]);
    UartPacketEncoder::make_bare(UartPacketType::Ack, &mut q);
    assert_eq!(drain(&mut q), vec![0xa5, 0x83, 0x03, 0x00, 0xe0, 0xc9, 0xc0]);
}

#[test]
fn frame_is_appended_behind_what_is_queued() {
    let mut q = queue_of(&[0x11, 0x22]);
    UartPacketEncoder::make_pong(&mut q);
    assert_eq!(drain(&mut q), vec![0x11, 0x22, 0xa5, 0x80, 0x03, 0x00, 0x84, 0x26, 0xc0]);
}

#[test]
fn frame_payload_is_escaped() {
    let mut q: CacheQueue = Queue::new();
    UartPacketEncoder::encode_packet(UartPacketType::RadioSend, &[0xa5, 0xdb, 0xc0], &mut q);
    let wire = drain(&mut q);
    assert_eq!(&wire[..4], &[0xa5, 0x42, 0x06, 0x00]);
    assert_eq!(&wire[4..10], &[0xdb, 0xde, 0xdb, 0xdd, 0xdb, 0xdc]);
    assert_eq!(*wire.last().unwrap(), 0xc0);
}

#[test]
fn builder_writes_field_by_field() {
    let mut q: CacheQueue = Queue::new();
    let mut pkt = UartPacketEncoder::new(UartPacketType::RadioSend, &mut q);
    assert_eq!(pkt.covered, vec![0x42]);
    pkt.add_packet_len(5);
    assert_eq!(pkt.covered, vec![0x42, 0x05, 0x00]);
    pkt.add_payload(&[0x10, 0x20]);
    assert_eq!(pkt.covered, vec![0x42, 0x05, 0x00, 0x10, 0x20]);
    pkt.finalize();
    let crc = kermit(&[0x42, 0x05, 0x00, 0x10, 0x20]);
    assert_eq!(
        drain(&mut q),
        vec![0xa5, 0x42, 0x05, 0x00, 0x10, 0x20, (crc & 0xff) as u8, (crc >> 8) as u8, 0xc0]
    );
}

#[test]
fn length_field_takes_two_bytes() {
    let mut q: CacheQueue = Queue::new();
    let mut pkt = UartPacketEncoder::new(UartPacketType::RadioSend, &mut q);
    pkt.add_packet_len(0x1234);
    assert_eq!(pkt.covered, vec![0x42, 0x34, 0x12]);
    pkt.add_packet_len(0);
    assert_eq!(pkt.covered, vec![0x42, 0x34, 0x12, 0x00, 0x00]);
    pkt.add_packet_len(0xffff);
    assert_eq!(pkt.covered, vec![0x42, 0x34, 0x12, 0x00, 0x00, 0xff, 0xff]);
}

#[test]
fn received_packet_payload_layout() {
    let status = LoraPacketStatus { raw: [0, 0, 40, 80] };
    let data: Vec<u8> = (0..24u8).collect();
    let mut q: CacheQueue = Queue::new();
    let mut pkt = UartPacketEncoder::new(UartPacketType::RadioReceivedPacket, &mut q);
    pkt.add_payload_with_lora_status(&data, 24, status);
    let mut expected = vec![0xc1, 0x1c, 0x00, 0xd8, 0xff, 10, 0];
    expected.extend_from_slice(&data);
    assert_eq!(pkt.covered, expected);
}

#[test]
fn frame_roundtrip_of_every_kind() {
    for (kind, _) in ALL_KINDS {
        let payload: Vec<u8> = (0..40u8).map(|i| i.wrapping_mul(7)).collect();
        let mut q: CacheQueue = Queue::new();
        UartPacketEncoder::encode_packet(kind, &payload, &mut q);
        let pkt = UartPacketDecoder::new(&mut q).unwrap();
        assert_eq!(pkt.get_type(), kind);
        assert_eq!(pkt.get_payload_len(), 43);
        assert_eq!(pkt.get_payload().0, &payload[..]);
        assert_eq!(pkt.get_payload().1, 43);
        assert!(q.is_empty());
    }
}

#[test]
fn frame_roundtrip_with_special_bytes() {
    let payload: Vec<u8> = vec![0xa5, 0xdb, 0xc0, 0x00, 0xff, 0xdc, 0xdd, 0xde];
    let mut q: CacheQueue = Queue::new();
    UartPacketEncoder::encode_packet(UartPacketType::RadioSend, &payload, &mut q);
    let pkt = UartPacketDecoder::new(&mut q).unwrap();
    assert_eq!(pkt.get_type(), UartPacketType::RadioSend);
    let (bytes, len) = pkt.get_payload();
    assert_eq!(len as usize, payload.len() + 3);
    assert_eq!(bytes, &payload[..]);
    assert!(q.is_empty());
}

#[test]
fn frame_roundtrip_of_the_largest_payloads() {
    for len in [0usize, 1, 255, 256, 292, 294] {
        let payload: Vec<u8> = (0..len).map(|i| (i % 13) as u8).collect();
        let mut q: CacheQueue = Queue::new();
        UartPacketEncoder::encode_packet(UartPacketType::RadioSend, &payload, &mut q);
        let pkt = UartPacketDecoder::new(&mut q).unwrap();
        assert_eq!(pkt.get_type(), UartPacketType::RadioSend);
        assert_eq!(pkt.get_payload_len() as usize, len + 3);
        assert_eq!(pkt.get_payload().0, &payload[..]);
    }
}

#[test]
fn payload_beyond_the_scratch_is_buffer_full() {
    let payload = vec![0x33u8; 295];
    let mut q: CacheQueue = Queue::new();
    UartPacketEncoder::encode_packet(UartPacketType::RadioSend, &payload, &mut q);
    assert_eq!(UartPacketDecoder::new(&mut q).err(), Some(UartPacketError::BufferFullError));
}

#[test]
fn garbage_before_a_frame_does_not_matter() {
    let mut q = queue_of(&[0x00, 0xc0, 0xdb, 0xff, 0x42, 0xc0]);
    UartPacketEncoder::encode_packet(UartPacketType::RadioRecvStart, &[1, 2, 3, 4], &mut q);
    enqueue_all_ditch_oldest(&mut q, &[0x99]);
    let pkt = UartPacketDecoder::new(&mut q).unwrap();
    assert_eq!(pkt.get_type(), UartPacketType::RadioRecvStart);
    assert_eq!(pkt.get_payload().0, &[1, 2, 3, 4]);
    assert_eq!(drain(&mut q), vec![0x99]);
}

#[test]
fn ping_decodes() {
    let mut q = queue_of(&[0xa5, 0x00, 0x03, 0x00, 0x68, 0x2a, 0xc0]);
    let pkt = UartPacketDecoder::new(&mut q).unwrap();
    assert_eq!(pkt.get_type(), UartPacketType::Ping);
    assert_eq!(pkt.get_payload_len(), 3);
    assert_eq!(pkt.get_payload().0.len(), 0);
    assert_eq!(pkt.get_payload().1, 3);
}

#[test]
fn any_flipped_bit_is_rejected() {
    let body = body_of(0x42, &[0x10, 0x20, 0x30]);
    for byte in 0..6 {
        for bit in 0..8 {
            let mut wire = vec![0xa5];
            let mut bad = body.clone();
            bad[byte] ^= 1 << bit;
            wire.extend_from_slice(&bad);
            wire.push(0xc0);
            if bad.iter().any(|b| [0xa5, 0xc0, 0xdb].contains(b)) {
                continue;
            }
            let mut q = queue_of(&wire);
            let err = UartPacketDecoder::new(&mut q).err().unwrap();
            if byte == 0 && UartPacketType::try_from(bad[0]).is_err() {
                assert_eq!(err, UartPacketError::UnknownPacketError);
            } else if byte > 0 && byte < 3 && (bad[1] as usize + 256 * bad[2] as usize) > 300 {
                assert_eq!(err, UartPacketError::BufferFullError);
            } else {
                assert_eq!(err, UartPacketError::CorruptedError);
            }
        }
    }
}

#[test]
fn short_frames_are_corrupted() {
    for wire in [
        vec![0xa5, 0xc0],
        vec![0xa5, 0x00, 0xc0],
        vec![0xa5, 0x00, 0x03, 0x00, 0x68, 0xc0],
    ] {
        let mut q = queue_of(&wire);
        assert_eq!(UartPacketDecoder::new(&mut q).err(), Some(UartPacketError::CorruptedError));
    }
    let mut q: CacheQueue = Queue::new();
    assert_eq!(UartPacketDecoder::new(&mut q).err(), Some(UartPacketError::CorruptedError));
}

#[test]
fn broken_stuffing_is_encoding_error() {
    let mut q = queue_of(&[0xa5, 0x00, 0x03, 0xdb, 0x00, 0x68, 0x2a, 0xc0]);
    assert_eq!(UartPacketDecoder::new(&mut q).err(), Some(UartPacketError::EncodingError));
}

#[test]
fn unknown_type_is_unknown_packet() {
    let body = body_of(0x20, &[]);
    let mut wire = vec![0xa5];
    wire.extend_from_slice(&body);
    wire.push(0xc0);
    let mut q = queue_of(&wire);
    assert_eq!(UartPacketDecoder::new(&mut q).err(), Some(UartPacketError::UnknownPacketError));
}

#[test]
fn parse_frame_accepts_a_matching_checksum() {
    let body = [0x42u8, 0x05, 0x00, 0xaa, 0xbb, 0x34, 0x12];
    let pkt = UartPacketDecoder::parse_frame(scratch_of(&body), 7, 0x1234).unwrap();
    assert_eq!(pkt.get_type(), UartPacketType::RadioSend);
    assert_eq!(pkt.get_payload().0, &[0xaa, 0xbb]);
    assert_eq!(pkt.get_payload_len(), 5);
    assert_eq!(pkt.get_payload().1, 5);
    let again = UartPacketDecoder::parse_frame(scratch_of(&body), 7, 0x1234).unwrap();
    assert_eq!(pkt, again);
}

#[test]
fn parse_frame_checks_in_order() {
    let body = [0x42u8, 0x05, 0x00, 0xaa, 0xbb, 0x34, 0x12];
    let err = |buf: [u8; 300], n: usize, crc: u16| UartPacketDecoder::parse_frame(buf, n, crc).err();
    assert_eq!(err(scratch_of(&body), 7, 0x1235), Some(UartPacketError::CorruptedError));
    assert_eq!(err(scratch_of(&body), 4, 0x1234), Some(UartPacketError::CorruptedError));
    let unknown = [0x01u8, 0x2d, 0x01, 0xaa, 0xbb, 0x34, 0x12];
    assert_eq!(err(scratch_of(&unknown), 7, 0), Some(UartPacketError::UnknownPacketError));
    let too_long = [0x42u8, 0x2d, 0x01, 0xaa, 0xbb, 0x34, 0x12];
    assert_eq!(err(scratch_of(&too_long), 7, 0), Some(UartPacketError::BufferFullError));
    let at_limit = [0x42u8, 0x2c, 0x01, 0xaa, 0xbb, 0x34, 0x12];
    assert_eq!(err(scratch_of(&at_limit), 7, 0), Some(UartPacketError::CorruptedError));
    assert_eq!(err(scratch_of(&at_limit), 7, 0x1234), Some(UartPacketError::CorruptedError));
    let wrong_length = [0x42u8, 0x04, 0x00, 0xaa, 0xbb, 0x34, 0x12];
    assert_eq!(err(scratch_of(&wrong_length), 7, 0x1234), Some(UartPacketError::CorruptedError));
}

#[test]
fn command_packet_cannot_be_built() {
    assert!(UartCmdPacket::new().is_err());
}
