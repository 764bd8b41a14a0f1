//! The request to start reception.
use vstd::prelude::*;
use crate::packet::uart_pkt_decoder::UartPacketDecoder;
use crate::packet::{le32_value, read_le32, UartPacketError};
use crate::radio::{radio_timeout_bits, start_radio_rx, RadioOp};

verus! {

/// What a payload asks of reception: its first four bytes as a timeout in
/// milliseconds, lowest byte first. A shorter payload is corrupted.
pub open spec fn rx_command_of(payload: Seq<u8>) -> Result<RadioRxCommand, UartPacketError> {
    if payload.len() < 4 {
        Err(UartPacketError::CorruptedError)
    } else {
        Ok(
            RadioRxCommand {
                timeout_ms: le32_value(payload[0], payload[1], payload[2], payload[3]),
            },
        )
    }
}

/// A request to start reception.
#[derive(Debug, PartialEq, Eq, Clone, Copy, Structural)]
pub struct RadioRxCommand {
    /// Timeout in milliseconds; zero and the largest value select no
    /// timeout.
    pub timeout_ms: u32,
}

impl RadioRxCommand {
    /// The operations that apply the request.
    pub open spec fn radio_ops(&self) -> Seq<RadioOp> {
        seq![RadioOp::SetRx { timeout_bits: radio_timeout_bits(self.timeout_ms) }]
    }

    /// Reads the request from a payload.
    pub fn parse(payload: &[u8]) -> (r: Result<RadioRxCommand, UartPacketError>)
        ensures
            r == rx_command_of(payload@),
    {
        if payload.len() < 4 {
            return Err(UartPacketError::CorruptedError);
        }
        let timeout_ms = read_le32(payload[0], payload[1], payload[2], payload[3]);
        Ok(RadioRxCommand { timeout_ms })
    }

    /// Reads the request from a decoded packet.
    pub fn try_from(value: UartPacketDecoder) -> (r: Result<RadioRxCommand, UartPacketError>)
        ensures
            r == rx_command_of(value.payload()),
    {
        let (buf, _) = value.get_payload();
        RadioRxCommand::parse(buf)
    }

    /// Returns the operations that apply the request.
    pub fn configure_radio(&self) -> (ops: Vec<RadioOp>)
        ensures
            ops@ == self.radio_ops(),
    {
        start_radio_rx(self.timeout_ms)
    }
}

} // verus!
