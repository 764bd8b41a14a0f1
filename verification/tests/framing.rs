use heapless::spsc::Queue;
use lplora::constants::CacheQueue;
use lplora::misc::{enqueue_all_ditch_oldest, slip_enqueue};
use lplora::packet::{slip_dequeue, UartPacketError};

fn drain(queue: &mut CacheQueue) -> Vec<u8> {
    let mut out = Vec::new();
    while let Some(b) = queue.dequeue() {
        out.push(b);
    }
    out
}

fn queue_of(bytes: &[u8]) -> CacheQueue {
    let mut q: CacheQueue = Queue::new();
    enqueue_all_ditch_oldest(&mut q, bytes);
    q
}

#[test]
fn escape_boundary_bytes() {
    let mut q: CacheQueue = Queue::new();
    for b in [0xa5u8, 0xdb, 0xc0] {
        slip_enqueue(&mut q, b);
    }
    assert_eq!(drain(&mut q), vec![0xdb, 0xde, 0xdb, 0xdd, 0xdb, 0xdc]);
}

#[test]
fn plain_byte_is_not_escaped() {
    let mut q: CacheQueue = Queue::new();
    slip_enqueue(&mut q, 0x42);
    slip_enqueue(&mut q, 0xdc);
    slip_enqueue(&mut q, 0xdd);
    slip_enqueue(&mut q, 0xde);
    assert_eq!(drain(&mut q), vec![0x42, 0xdc, 0xdd, 0xde]);
}

#[test]
fn slip_roundtrip_of_every_byte_value() {
    for chunk in 0..4u32 {
        let data: Vec<u8> = (0..64u32).map(|i| (chunk * 64 + i) as u8).collect();
        let mut q: CacheQueue = Queue::new();
        enqueue_all_ditch_oldest(&mut q, &[0xa5]);
        for b in &data {
            slip_enqueue(&mut q, *b);
        }
        enqueue_all_ditch_oldest(&mut q, &[0xc0]);
        let mut out = [0u8; 65];
        assert_eq!(slip_dequeue(&mut q, &mut out), Ok(64));
        assert_eq!(&out[..64], &data[..]);
        assert!(q.is_empty());
    }
}

#[test]
fn slip_dequeue_counts_bytes() {
    let mut q = queue_of(&[0x01, 0x02, 0xa5, 0x10, 0xdb, 0xdc, 0x11, 0xc0, 0x77]);
    let mut out = [0xeeu8; 8];
    assert_eq!(slip_dequeue(&mut q, &mut out), Ok(3));
    assert_eq!(out, [0x10, 0xc0, 0x11, 0xee, 0xee, 0xee, 0xee, 0xee]);
    assert_eq!(drain(&mut q), vec![0x77]);
}

#[test]
fn slip_dequeue_translates_each_escape() {
    let mut q = queue_of(&[0xa5, 0xdb, 0xdc, 0xdb, 0xde, 0xdb, 0xdd, 0xc0]);
    let mut out = [0u8; 8];
    assert_eq!(slip_dequeue(&mut q, &mut out), Ok(3));
    assert_eq!(&out[..3], &[0xc0, 0xa5, 0xdb]);
}

#[test]
fn bad_escape_is_encoding_error() {
    for code in [0x00u8, 0xdb, 0xc0, 0xa5, 0xdf, 0xff] {
        let mut q = queue_of(&[0xa5, 0x10, 0xdb, code, 0xc0]);
        let mut out = [0u8; 8];
        assert_eq!(slip_dequeue(&mut q, &mut out), Err(UartPacketError::EncodingError));
    }
}

#[test]
fn escape_at_the_end_of_the_stream_is_encoding_error() {
    let mut q = queue_of(&[0xa5, 0x10, 0xdb]);
    let mut out = [0u8; 8];
    assert_eq!(slip_dequeue(&mut q, &mut out), Err(UartPacketError::EncodingError));
    assert!(q.is_empty());
}

#[test]
fn unterminated_frame_is_encoding_error() {
    let mut q = queue_of(&[0xa5, 0x10, 0x11]);
    let mut out = [0u8; 8];
    assert_eq!(slip_dequeue(&mut q, &mut out), Err(UartPacketError::EncodingError));
}

#[test]
fn stream_without_start_yields_nothing() {
    let mut q = queue_of(&[0x10, 0xc0, 0xdb, 0x00, 0x11]);
    let mut out = [0xeeu8; 4];
    assert_eq!(slip_dequeue(&mut q, &mut out), Ok(0));
    assert_eq!(out, [0xee; 4]);
    assert!(q.is_empty());
}

#[test]
fn empty_queue_yields_nothing() {
    let mut q: CacheQueue = Queue::new();
    let mut out = [0u8; 4];
    assert_eq!(slip_dequeue(&mut q, &mut out), Ok(0));
}

#[test]
fn frame_that_fills_the_buffer_is_buffer_full() {
    let mut q = queue_of(&[0xa5, 1, 2, 3, 4, 0xc0, 0x55]);
    let mut out = [0u8; 4];
    assert_eq!(slip_dequeue(&mut q, &mut out), Err(UartPacketError::BufferFullError));
    assert_eq!(out, [1, 2, 3, 4]);
    assert_eq!(drain(&mut q), vec![0xc0, 0x55]);
}

#[test]
fn frame_one_byte_short_of_the_buffer_fits() {
    let mut q = queue_of(&[0xa5, 1, 2, 3, 0xc0]);
    let mut out = [0u8; 4];
    assert_eq!(slip_dequeue(&mut q, &mut out), Ok(3));
}

#[test]
fn empty_frame_fits_an_empty_buffer() {
    let mut q = queue_of(&[0xa5, 0xc0]);
    let mut out: [u8; 0] = [];
    assert_eq!(slip_dequeue(&mut q, &mut out), Ok(0));
    let mut q = queue_of(&[0xa5, 0x01, 0xc0]);
    assert_eq!(slip_dequeue(&mut q, &mut out), Err(UartPacketError::BufferFullError));
}

#[test]
fn start_byte_inside_a_frame_is_passed_over() {
    let mut q = queue_of(&[0xa5, 0x01, 0xa5, 0x02, 0xc0]);
    let mut out = [0u8; 8];
    assert_eq!(slip_dequeue(&mut q, &mut out), Ok(2));
    assert_eq!(&out[..2], &[0x01, 0x02]);
}

#[test]
fn garbage_before_start_is_ignored() {
    let mut q = queue_of(&[0xc0, 0xdb, 0x99, 0x00, 0xa5, 0x21, 0x22, 0xc0]);
    let mut out = [0u8; 8];
    assert_eq!(slip_dequeue(&mut q, &mut out), Ok(2));
    assert_eq!(&out[..2], &[0x21, 0x22]);
}

#[test]
fn two_frames_come_out_one_by_one() {
    let mut q = queue_of(&[0xa5, 0x01, 0xc0, 0xa5, 0x02, 0x03, 0xc0]);
    let mut out = [0u8; 8];
    assert_eq!(slip_dequeue(&mut q, &mut out), Ok(1));
    assert_eq!(out[0], 0x01);
    assert_eq!(slip_dequeue(&mut q, &mut out), Ok(2));
    assert_eq!(&out[..2], &[0x02, 0x03]);
    assert!(q.is_empty());
}
