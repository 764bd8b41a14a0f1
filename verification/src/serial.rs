//! The byte handlers of the serial link.
use vstd::prelude::*;
use crate::constants::{queue_bytes, queue_dequeue, CacheQueue, SLIP_END, SLIP_START};
use crate::misc::{enqueue_ditch_oldest, keep_newest};
use crate::packet::uart_pkt_decoder::UartPacketDecoder;
use crate::packet::{decode_body, frame_length, slip_scan, UartPacketError, SCRATCH_LEN};

verus! {

/// Empties the queue.
pub fn clear_queue(queue: &mut CacheQueue)
    ensures
        queue_bytes(*final(queue)) == Seq::<u8>::empty(),
{
    loop
        ensures
            queue_bytes(*queue).len() == 0,
        decreases queue_bytes(*queue).len(),
    {
        match queue_dequeue(queue) {
            Some(_) => {},
            None => {
                break;
            },
        }
    }
    assert(queue_bytes(*queue) =~= Seq::<u8>::empty());
}

/// What the queue from the host holds after a byte arrived: a start byte
/// discards what came before it; any other byte is appended.
pub open spec fn after_rx_byte(held: Seq<u8>, byte: u8) -> Seq<u8> {
    if byte == SLIP_START {
        seq![SLIP_START]
    } else {
        keep_newest(held.push(byte))
    }
}

/// Takes in one byte from the host and tells whether it ends a frame.
pub fn serial_rx_byte(rx_queue: &mut CacheQueue, byte: u8) -> (packet_ended: bool)
    ensures
        queue_bytes(*final(rx_queue)) == after_rx_byte(queue_bytes(*old(rx_queue)), byte),
        packet_ended == (byte == SLIP_END),
{
    if byte == SLIP_START {
        clear_queue(rx_queue);
        enqueue_ditch_oldest(rx_queue, SLIP_START);
        assert(queue_bytes(*rx_queue) =~= seq![SLIP_START]);
        false
    } else {
        enqueue_ditch_oldest(rx_queue, byte);
        byte == SLIP_END
    }
}

/// Takes in one byte from the host. A byte that ends a frame has the frame
/// pulled out of the queue and checked; any other byte yields nothing yet.
pub fn receive_byte(rx_queue: &mut CacheQueue, byte: u8) -> (r: Option<
    Result<UartPacketDecoder, UartPacketError>,
>)
    ensures
        r is Some <==> byte == SLIP_END,
        byte != SLIP_END ==> queue_bytes(*final(rx_queue)) == after_rx_byte(
            queue_bytes(*old(rx_queue)),
            byte,
        ),
        byte == SLIP_END ==> ({
            let scan = slip_scan(
                after_rx_byte(queue_bytes(*old(rx_queue)), byte),
                SCRATCH_LEN as nat,
            );
            &&& queue_bytes(*final(rx_queue)) == scan.rest
            &&& match scan.error {
                Some(e) => r == Some(Err::<UartPacketDecoder, UartPacketError>(e)),
                None => match decode_body(scan.stored) {
                    Ok((t, p)) => r->Some_0 is Ok && r->Some_0->Ok_0.packet_type() == t
                        && r->Some_0->Ok_0.payload() == p && r->Some_0->Ok_0.length()
                        == frame_length(scan.stored),
                    Err(e) => r == Some(Err::<UartPacketDecoder, UartPacketError>(e)),
                },
            }
        }),
{
    if serial_rx_byte(rx_queue, byte) {
        Some(UartPacketDecoder::new(rx_queue))
    } else {
        None
    }
}

/// Takes the next byte to send to the host out of the queue. `None` tells
/// that the queue is drained and transmission is to stop.
pub fn next_tx_byte(tx_queue: &mut CacheQueue) -> (r: Option<u8>)
    ensures
        queue_bytes(*old(tx_queue)).len() == 0 ==> r is None && queue_bytes(*final(tx_queue))
            == queue_bytes(*old(tx_queue)),
        queue_bytes(*old(tx_queue)).len() > 0 ==> r == Some(queue_bytes(*old(tx_queue))[0])
            && queue_bytes(*final(tx_queue)) == queue_bytes(*old(tx_queue)).skip(1),
{
    queue_dequeue(tx_queue)
}

} // verus!
