//! The request to configure the GFSK modem.
use vstd::prelude::*;
use crate::packet::radio_lora_cfg::be16_value;
use crate::packet::uart_pkt_decoder::UartPacketDecoder;
use crate::packet::{le32_value, read_le32, UartPacketError};
use crate::radio::RadioOp;
use crate::subghz::{
    fsk_bandwidth_known, is_fsk_bandwidth, AddrComp, CrcType, FskBandwidth, FskModParams,
    FskPulseShape, GenericPacketParams, HeaderType, PacketType, PreambleDetection, StandbyClk,
};

verus! {

/// Bytes of a GFSK request: nine of packet layout, ten of modulation,
/// eight of sync word.
pub const GFSK_CONFIG_LEN: usize = 27;

/// The 64-bit value of the eight bytes of `s` from `at` on, the first byte
/// most significant.
pub open spec fn be64_value(s: Seq<u8>, at: int) -> u64 {
    (0x100_0000_0000_0000 * s[at] + 0x1_0000_0000_0000 * s[at + 1] + 0x100_0000_0000 * s[at + 2]
        + 0x1_0000_0000 * s[at + 3] + 0x100_0000 * s[at + 4] + 0x1_0000 * s[at + 5] + 0x100 * s[at
        + 6] + s[at + 7]) as u64
}

/// Whether every code of a GFSK request is known.
pub open spec fn gfsk_codes_known(payload: Seq<u8>) -> bool {
    &&& PreambleDetection::of_code(payload[2]) is Some
    &&& AddrComp::of_code(payload[4]) is Some
    &&& CrcType::of_code(payload[7]) is Some
    &&& FskPulseShape::of_code(payload[13]) is Some
    &&& is_fsk_bandwidth(payload[14])
}

/// The GFSK settings that a payload asks for. Its bytes are: preamble
/// length (two bytes, high byte first), preamble detection code, sync word
/// length, address filtering code, header type flag, payload length,
/// checksum type code, whitening flag; bit rate (four bytes, lowest
/// first), pulse shape code, bandwidth code, frequency deviation in hertz
/// (four bytes, lowest first); and the eight bytes of the sync word. A
/// shorter payload or an unknown code is corrupted.
pub open spec fn gfsk_config_of(payload: Seq<u8>) -> Result<
    RadioGfskConfigurator,
    UartPacketError,
> {
    if payload.len() < GFSK_CONFIG_LEN {
        Err(UartPacketError::CorruptedError)
    } else if !gfsk_codes_known(payload) {
        Err(UartPacketError::CorruptedError)
    } else {
        Ok(
            RadioGfskConfigurator {
                pkt_params: GenericPacketParams {
                    preamble_len: be16_value(payload[0], payload[1]),
                    preamble_detection: PreambleDetection::of_code(payload[2])->Some_0,
                    sync_word_len: payload[3],
                    addr_comp: AddrComp::of_code(payload[4])->Some_0,
                    header_type: HeaderType::of_flag(payload[5]),
                    payload_len: payload[6],
                    crc_type: CrcType::of_code(payload[7])->Some_0,
                    whitening_enable: payload[8] != 0,
                },
                fsk_mod: FskModParams {
                    bitrate_bps: le32_value(payload[9], payload[10], payload[11], payload[12]),
                    pulse_shape: FskPulseShape::of_code(payload[13])->Some_0,
                    bandwidth: FskBandwidth { bits: payload[14] },
                    fdev_hz: le32_value(payload[15], payload[16], payload[17], payload[18]),
                },
                sync_word: be64_value(payload, 19),
            },
        )
    }
}

/// A request to set GFSK packet layout, modulation and sync word.
#[derive(Debug, PartialEq, Eq, Clone, Copy, Structural)]
pub struct RadioGfskConfigurator {
    pub pkt_params: GenericPacketParams,
    pub fsk_mod: FskModParams,
    /// The eight bytes of the sync word, the first most significant.
    pub sync_word: u64,
}

/// Puts eight bytes of `s` from `at` on together, the first most
/// significant.
fn read_be64(s: &[u8], at: usize) -> (v: u64)
    requires
        at + 8 <= s@.len(),
    ensures
        v == be64_value(s@, at as int),
{
    0x100_0000_0000_0000 * (s[at] as u64) + 0x1_0000_0000_0000 * (s[at + 1] as u64)
        + 0x100_0000_0000 * (s[at + 2] as u64) + 0x1_0000_0000 * (s[at + 3] as u64) + 0x100_0000
        * (s[at + 4] as u64) + 0x1_0000 * (s[at + 5] as u64) + 0x100 * (s[at + 6] as u64) + (s[at
        + 7] as u64)
}

impl RadioGfskConfigurator {
    /// The operations that apply the request.
    pub open spec fn radio_ops(&self) -> Seq<RadioOp> {
        seq![
            RadioOp::SetStandby(StandbyClk::Rc),
            RadioOp::SetPacketType(PacketType::Fsk),
            RadioOp::SetSyncWord(self.sync_word),
            RadioOp::SetFskModParams(self.fsk_mod),
            RadioOp::SetPacketParams(self.pkt_params),
        ]
    }

    /// Reads the request from a payload.
    pub fn parse(payload: &[u8]) -> (r: Result<RadioGfskConfigurator, UartPacketError>)
        ensures
            r == gfsk_config_of(payload@),
    {
        if payload.len() < GFSK_CONFIG_LEN {
            return Err(UartPacketError::CorruptedError);
        }
        let preamble_len: u16 = 0x100 * (payload[0] as u16) + payload[1] as u16;
        let preamble_detection = match PreambleDetection::from_code(payload[2]) {
            Some(v) => v,
            None => {
                return Err(UartPacketError::CorruptedError);
            },
        };
        let sync_word_len = payload[3];
        let addr_comp = match AddrComp::from_code(payload[4]) {
            Some(v) => v,
            None => {
                return Err(UartPacketError::CorruptedError);
            },
        };
        let header_type = HeaderType::from_flag(payload[5]);
        let payload_len = payload[6];
        let crc_type = match CrcType::from_code(payload[7]) {
            Some(v) => v,
            None => {
                return Err(UartPacketError::CorruptedError);
            },
        };
        let whitening_enable = payload[8] != 0;
        let pkt_params = GenericPacketParams {
            preamble_len,
            preamble_detection,
            sync_word_len,
            addr_comp,
            header_type,
            payload_len,
            crc_type,
            whitening_enable,
        };
        let bitrate_bps = read_le32(payload[9], payload[10], payload[11], payload[12]);
        let pulse_shape = match FskPulseShape::from_code(payload[13]) {
            Some(v) => v,
            None => {
                return Err(UartPacketError::CorruptedError);
            },
        };
        if !fsk_bandwidth_known(payload[14]) {
            return Err(UartPacketError::CorruptedError);
        }
        let bandwidth = FskBandwidth { bits: payload[14] };
        let fdev_hz = read_le32(payload[15], payload[16], payload[17], payload[18]);
        let fsk_mod = FskModParams { bitrate_bps, pulse_shape, bandwidth, fdev_hz };
        let sync_word = read_be64(payload, 19);
        Ok(RadioGfskConfigurator { pkt_params, fsk_mod, sync_word })
    }

    /// Reads the request from a decoded packet.
    pub fn try_from(value: UartPacketDecoder) -> (r: Result<
        RadioGfskConfigurator,
        UartPacketError,
    >)
        ensures
            r == gfsk_config_of(value.payload()),
    {
        let (buf, _) = value.get_payload();
        RadioGfskConfigurator::parse(buf)
    }

    /// Returns the operations that apply the request.
    pub fn configure_radio(&self) -> (ops: Vec<RadioOp>)
        ensures
            ops@ == self.radio_ops(),
    {
        let mut ops: Vec<RadioOp> = Vec::new();
        ops.push(RadioOp::SetStandby(StandbyClk::Rc));
        ops.push(RadioOp::SetPacketType(PacketType::Fsk));
        ops.push(RadioOp::SetSyncWord(self.sync_word));
        ops.push(RadioOp::SetFskModParams(self.fsk_mod));
        ops.push(RadioOp::SetPacketParams(self.pkt_params));
        assert(ops@ =~= self.radio_ops());
        ops
    }
}

} // verus!
