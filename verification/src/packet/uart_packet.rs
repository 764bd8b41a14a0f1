//! A command packet with its data buffer.
use vstd::prelude::*;
use crate::packet::UartPacketType;

verus! {

/// A command packet with room for the largest radio payload.
pub struct UartCmdPacket {
    pkt_type: UartPacketType,
    data_buf: [u8; 256],
}

impl UartCmdPacket {
    /// Command packets are not built this way: always fails.
    pub fn new() -> (r: Result<UartCmdPacket, ()>)
        ensures
            r is Err,
    {
        Err(())
    }
}

} // verus!
