//! The request to configure the LoRa modem.
use vstd::prelude::*;
use crate::packet::uart_pkt_decoder::UartPacketDecoder;
use crate::packet::{le16_value, UartPacketError};
use crate::radio::RadioOp;
use crate::subghz::{
    CodingRate, HeaderType, LoRaBandwidth, LoRaModParams, LoRaPacketParams, PacketType,
    SpreadingFactor, StandbyClk,
};

verus! {

/// The 16-bit value whose high byte is `hi` and whose low byte is `lo`.
pub open spec fn be16_value(hi: u8, lo: u8) -> u16 {
    (0x100 * hi + lo) as u16
}

/// The LoRa settings that a payload asks for. Its twelve bytes are:
/// preamble length (two bytes, low byte first), header type flag, payload
/// length, checksum flag, inverted-IQ flag, spreading factor code,
/// bandwidth code, coding rate code, low-data-rate flag, and the two bytes
/// of the sync word. A shorter payload or an unknown code is corrupted.
pub open spec fn lora_config_of(payload: Seq<u8>) -> Result<
    RadioLoraConfigurator,
    UartPacketError,
> {
    if payload.len() < 12 {
        Err(UartPacketError::CorruptedError)
    } else if SpreadingFactor::of_code(payload[6]) is None || LoRaBandwidth::of_code(payload[7])
        is None || CodingRate::of_code(payload[8]) is None {
        Err(UartPacketError::CorruptedError)
    } else {
        Ok(
            RadioLoraConfigurator {
                pkt_params: LoRaPacketParams {
                    preamble_len: le16_value(payload[0], payload[1]),
                    header_type: HeaderType::of_flag(payload[2]),
                    payload_len: payload[3],
                    crc_en: payload[4] != 0,
                    invert_iq: payload[5] != 0,
                },
                lora_mod: LoRaModParams {
                    sf: SpreadingFactor::of_code(payload[6])->Some_0,
                    bw: LoRaBandwidth::of_code(payload[7])->Some_0,
                    cr: CodingRate::of_code(payload[8])->Some_0,
                    ldro_en: payload[9] != 0,
                },
                sync_word: be16_value(payload[10], payload[11]),
            },
        )
    }
}

/// A request to set LoRa packet layout, modulation and sync word.
#[derive(Debug, PartialEq, Eq, Clone, Copy, Structural)]
pub struct RadioLoraConfigurator {
    pub pkt_params: LoRaPacketParams,
    pub lora_mod: LoRaModParams,
    /// The two bytes of the sync word, the first in the high half.
    pub sync_word: u16,
}

impl RadioLoraConfigurator {
    /// The operations that apply the request.
    pub open spec fn radio_ops(&self) -> Seq<RadioOp> {
        seq![
            RadioOp::SetStandby(StandbyClk::Rc),
            RadioOp::SetPacketType(PacketType::LoRa),
            RadioOp::SetLoraSyncWord(self.sync_word),
            RadioOp::SetLoraModParams(self.lora_mod),
            RadioOp::SetLoraPacketParams(self.pkt_params),
        ]
    }

    /// Reads the request from a payload.
    pub fn parse(payload: &[u8]) -> (r: Result<RadioLoraConfigurator, UartPacketError>)
        ensures
            r == lora_config_of(payload@),
    {
        if payload.len() < 12 {
            return Err(UartPacketError::CorruptedError);
        }
        let preamble_len: u16 = payload[0] as u16 + 0x100 * (payload[1] as u16);
        let pkt_params = LoRaPacketParams {
            preamble_len,
            header_type: HeaderType::from_flag(payload[2]),
            payload_len: payload[3],
            crc_en: payload[4] != 0,
            invert_iq: payload[5] != 0,
        };
        let sf = match SpreadingFactor::from_code(payload[6]) {
            Some(sf) => sf,
            None => {
                return Err(UartPacketError::CorruptedError);
            },
        };
        let bw = match LoRaBandwidth::from_code(payload[7]) {
            Some(bw) => bw,
            None => {
                return Err(UartPacketError::CorruptedError);
            },
        };
        let cr = match CodingRate::from_code(payload[8]) {
            Some(cr) => cr,
            None => {
                return Err(UartPacketError::CorruptedError);
            },
        };
        let lora_mod = LoRaModParams { sf, bw, cr, ldro_en: payload[9] != 0 };
        let sync_word: u16 = 0x100 * (payload[10] as u16) + payload[11] as u16;
        Ok(RadioLoraConfigurator { pkt_params, lora_mod, sync_word })
    }

    /// Reads the request from a decoded packet.
    pub fn try_from(value: UartPacketDecoder) -> (r: Result<
        RadioLoraConfigurator,
        UartPacketError,
    >)
        ensures
            r == lora_config_of(value.payload()),
    {
        let (buf, _) = value.get_payload();
        RadioLoraConfigurator::parse(buf)
    }

    /// Returns the operations that apply the request.
    pub fn configure_radio(&self) -> (ops: Vec<RadioOp>)
        ensures
            ops@ == self.radio_ops(),
    {
        let mut ops: Vec<RadioOp> = Vec::new();
        ops.push(RadioOp::SetStandby(StandbyClk::Rc));
        ops.push(RadioOp::SetPacketType(PacketType::LoRa));
        ops.push(RadioOp::SetLoraSyncWord(self.sync_word));
        ops.push(RadioOp::SetLoraModParams(self.lora_mod));
        ops.push(RadioOp::SetLoraPacketParams(self.pkt_params));
        assert(ops@ =~= self.radio_ops());
        ops
    }
}

} // verus!
