//! The operations that the firmware asks of the radio, as lists for the
//! handlers to perform.
use vstd::prelude::*;
use crate::constants::{queue_bytes, CacheQueue};
use crate::misc::keep_newest;
use crate::packet::uart_pkt_encoder::{
    lemma_frame_grows, lemma_frame_parts, received_frame_wire, received_payload,
    UartPacketEncoder,
};
use crate::packet::{covered_with_length, le16, UartPacketType};
use crate::subghz::{
    timeout_bits_from_millis, timeout_bits_of, CodingRate, FallbackMode, FskModParams,
    GenericPacketParams, HeaderType, Irq, LoRaBandwidth, LoRaModParams, LoRaPacketParams,
    LoraPacketStatus, Ocp, PMode, PaConfig, PacketType, RegMode, SpreadingFactor, StandbyClk,
    TxParams,
};

verus! {

/// One operation on the radio. The operations of a list are performed in
/// order; the first that the radio refuses ends the list.
#[derive(Debug, PartialEq, Eq, Clone, Copy, Structural)]
pub enum RadioOp {
    /// Enter standby on the given clock.
    SetStandby(StandbyClk),
    /// Enter sleep.
    SetSleep { warm_start: bool, rtc_wakeup_en: bool },
    /// Choose what the radio falls back to after sending or receiving.
    SetTxRxFallbackMode(FallbackMode),
    /// Enable, on every interrupt line, the causes whose bits are set.
    SetIrqCfg { mask: u16 },
    /// Choose the supply.
    SetRegulatorMode(RegMode),
    /// Place transmit and receive data in the radio's buffer.
    SetBufferBaseAddress { tx: u8, rx: u8 },
    /// Set the power amplifier.
    SetPaConfig(PaConfig),
    /// Set the over-current protection of the power amplifier.
    SetPaOcp(Ocp),
    /// Set transmit power and ramp time.
    SetTxParams(TxParams),
    /// Set the receiver gain.
    SetRxGain(PMode),
    /// Choose the modem.
    SetPacketType(PacketType),
    /// Set the two-byte LoRa sync word, first byte in the high half.
    SetLoraSyncWord(u16),
    /// Set the eight-byte GFSK sync word, first byte most significant.
    SetSyncWord(u64),
    /// Set the LoRa modulation.
    SetLoraModParams(LoRaModParams),
    /// Set the LoRa packet layout.
    SetLoraPacketParams(LoRaPacketParams),
    /// Set the GFSK modulation.
    SetFskModParams(FskModParams),
    /// Set the GFSK packet layout.
    SetPacketParams(GenericPacketParams),
    /// Tune to a carrier frequency in hertz.
    SetRfFrequency { hz: u32 },
    /// Calibrate image rejection over a band given in megahertz.
    CalibrateImage { freq1_mhz: u16, freq2_mhz: u16 },
    /// Copy the first `len` bytes of the transmit buffer into the radio.
    WriteBuffer { offset: u8, len: usize },
    /// Read the interrupt status and clear what is set in it.
    ClearIrqStatus,
    /// Start receiving, with a timer value of zero for no timeout.
    SetRx { timeout_bits: u32 },
    /// Start sending, with a timer value of zero for no timeout.
    SetTx { timeout_bits: u32 },
}

/// Most bytes that the radio sends or receives in one packet.
pub const RADIO_BUF_LEN: usize = 256;

/// Where transmit data starts in the radio's buffer.
pub const TX_BUF_OFFSET: u8 = 0;

/// Where received data starts in the radio's buffer.
pub const RX_BUF_OFFSET: u8 = 0;

/// Timeout in milliseconds with which reception is restarted.
pub const DEFAULT_RX_TIMEOUT_MS: u32 = 5000;

/// Sync word that the radio is set up with.
pub const DEFAULT_LORA_SYNC_WORD: u16 = 0x2434;

/// Interrupt causes that the radio is set up to report: packet sent,
/// packet received, header error, packet error and timeout.
pub const IRQ_MASK: u16 = 0x0263;

/// The timer value that a timeout in milliseconds selects: none for zero
/// and for the largest value, else the saturated timer value.
pub open spec fn radio_timeout_bits(timeout_ms: u32) -> u32 {
    if timeout_ms == 0 || timeout_ms == u32::MAX {
        0
    } else {
        timeout_bits_of(timeout_ms)
    }
}

/// Returns the timer value that a timeout in milliseconds selects.
pub fn timeout_bits(timeout_ms: u32) -> (bits: u32)
    ensures
        bits == radio_timeout_bits(timeout_ms),
{
    if timeout_ms == 0 || timeout_ms == u32::MAX {
        0
    } else {
        timeout_bits_from_millis(timeout_ms)
    }
}

/// The LoRa modulation that the radio is set up with.
pub open spec fn default_mod_params() -> LoRaModParams {
    LoRaModParams {
        sf: SpreadingFactor::Sf10,
        bw: LoRaBandwidth::Bw125,
        cr: CodingRate::Cr45,
        ldro_en: false,
    }
}

/// The LoRa packet layout that the radio is set up with.
pub open spec fn default_packet_params() -> LoRaPacketParams {
    LoRaPacketParams {
        preamble_len: 16,
        header_type: HeaderType::Variable,
        payload_len: 24,
        crc_en: true,
        invert_iq: false,
    }
}

/// The operations that set the radio up after boot.
pub open spec fn setup_ops() -> Seq<RadioOp> {
    seq![
        RadioOp::SetStandby(StandbyClk::Rc),
        RadioOp::SetTxRxFallbackMode(FallbackMode::StandbyHse),
        RadioOp::SetIrqCfg { mask: IRQ_MASK },
        RadioOp::SetRegulatorMode(RegMode::Smps),
        RadioOp::SetBufferBaseAddress { tx: TX_BUF_OFFSET, rx: RX_BUF_OFFSET },
        RadioOp::SetPaOcp(Ocp::Max140m),
        RadioOp::SetStandby(StandbyClk::Rc),
        RadioOp::SetPacketType(PacketType::LoRa),
        RadioOp::SetLoraSyncWord(DEFAULT_LORA_SYNC_WORD),
        RadioOp::SetLoraModParams(default_mod_params()),
        RadioOp::SetLoraPacketParams(default_packet_params()),
    ]
}

/// Returns the interrupt causes that the radio is set up to report.
pub fn irq_mask_all() -> (mask: u16)
    ensures
        mask == IRQ_MASK,
{
    let tx = Irq::TxDone.mask();
    let rx = Irq::RxDone.mask();
    let timeout = Irq::Timeout.mask();
    let header = Irq::HeaderErr.mask();
    let err = Irq::PacketErr.mask();
    assert(0x0001u16 | 0x0002u16 | 0x0200u16 | 0x0020u16 | 0x0040u16 == 0x0263u16)
        by (bit_vector);
    tx | rx | timeout | header | err
}

/// Returns the operations that set the radio up after boot.
pub fn setup_radio() -> (ops: Vec<RadioOp>)
    ensures
        ops@ == setup_ops(),
{
    let mod_params = LoRaModParams {
        sf: SpreadingFactor::Sf10,
        bw: LoRaBandwidth::Bw125,
        cr: CodingRate::Cr45,
        ldro_en: false,
    };
    let pkt_params = LoRaPacketParams {
        preamble_len: 16,
        header_type: HeaderType::Variable,
        payload_len: 24,
        crc_en: true,
        invert_iq: false,
    };
    let mut ops: Vec<RadioOp> = Vec::new();
    ops.push(RadioOp::SetStandby(StandbyClk::Rc));
    ops.push(RadioOp::SetTxRxFallbackMode(FallbackMode::StandbyHse));
    ops.push(RadioOp::SetIrqCfg { mask: irq_mask_all() });
    ops.push(RadioOp::SetRegulatorMode(RegMode::Smps));
    ops.push(RadioOp::SetBufferBaseAddress { tx: TX_BUF_OFFSET, rx: RX_BUF_OFFSET });
    ops.push(RadioOp::SetPaOcp(Ocp::Max140m));
    ops.push(RadioOp::SetStandby(StandbyClk::Rc));
    ops.push(RadioOp::SetPacketType(PacketType::LoRa));
    ops.push(RadioOp::SetLoraSyncWord(DEFAULT_LORA_SYNC_WORD));
    ops.push(RadioOp::SetLoraModParams(mod_params));
    ops.push(RadioOp::SetLoraPacketParams(pkt_params));
    assert(ops@ =~= setup_ops());
    ops
}

/// Returns the operations that start reception with a timeout in
/// milliseconds; zero and the largest value select no timeout.
pub fn start_radio_rx(timeout_ms: u32) -> (ops: Vec<RadioOp>)
    ensures
        ops@ == seq![RadioOp::SetRx { timeout_bits: radio_timeout_bits(timeout_ms) }],
{
    let mut ops: Vec<RadioOp> = Vec::new();
    ops.push(RadioOp::SetRx { timeout_bits: timeout_bits(timeout_ms) });
    assert(ops@ =~= seq![RadioOp::SetRx { timeout_bits: radio_timeout_bits(timeout_ms) }]);
    ops
}

/// Returns the operations that send `tx_buf` with a timeout in
/// milliseconds; zero and the largest value select no timeout.
pub fn start_radio_tx(tx_buf: &[u8], timeout_ms: u32) -> (ops: Vec<RadioOp>)
    ensures
        ops@ == seq![
            RadioOp::WriteBuffer { offset: TX_BUF_OFFSET, len: tx_buf@.len() as usize },
            RadioOp::ClearIrqStatus,
            RadioOp::SetTx { timeout_bits: radio_timeout_bits(timeout_ms) },
        ],
{
    let mut ops: Vec<RadioOp> = Vec::new();
    ops.push(RadioOp::WriteBuffer { offset: TX_BUF_OFFSET, len: tx_buf.len() });
    ops.push(RadioOp::ClearIrqStatus);
    ops.push(RadioOp::SetTx { timeout_bits: timeout_bits(timeout_ms) });
    assert(ops@ =~= seq![
        RadioOp::WriteBuffer { offset: TX_BUF_OFFSET, len: tx_buf@.len() as usize },
        RadioOp::ClearIrqStatus,
        RadioOp::SetTx { timeout_bits: radio_timeout_bits(timeout_ms) },
    ]);
    ops
}

/// Returns the operations that put the radio into standby.
pub fn set_radio_to_standby() -> (ops: Vec<RadioOp>)
    ensures
        ops@ == seq![RadioOp::SetStandby(StandbyClk::Rc)],
{
    let mut ops: Vec<RadioOp> = Vec::new();
    ops.push(RadioOp::SetStandby(StandbyClk::Rc));
    assert(ops@ =~= seq![RadioOp::SetStandby(StandbyClk::Rc)]);
    ops
}

/// Returns the operations that put the radio to sleep: it will start cold,
/// and the clock does not wake it.
pub fn set_radio_to_sleep() -> (ops: Vec<RadioOp>)
    ensures
        ops@ == seq![RadioOp::SetSleep { warm_start: false, rtc_wakeup_en: false }],
{
    let mut ops: Vec<RadioOp> = Vec::new();
    ops.push(RadioOp::SetSleep { warm_start: false, rtc_wakeup_en: false });
    assert(ops@ =~= seq![RadioOp::SetSleep { warm_start: false, rtc_wakeup_en: false }]);
    ops
}

/// Writes the frame that forwards a received radio packet to the host:
/// link quality, then the data. The length field counts both.
pub fn radio_encode_packet(pkt_status: LoraPacketStatus, data: &[u8], rx_queue: &mut CacheQueue)
    requires
        data@.len() < RADIO_BUF_LEN,
    ensures
        queue_bytes(*final(rx_queue)) == keep_newest(
            queue_bytes(*old(rx_queue)) + received_frame_wire(pkt_status, data@),
        ),
{
    let mut encoder = UartPacketEncoder::new(UartPacketType::RadioReceivedPacket, rx_queue);
    encoder.add_payload_with_lora_status(data, data.len() as u8, pkt_status);
    proof {
        let t = UartPacketType::RadioReceivedPacket;
        let payload = received_payload(pkt_status, data@);
        let field = le16((4 + data@.len()) as u16);
        assert(encoder.covered@ =~= covered_with_length(t, (4 + data@.len()) as u16, payload));
        lemma_frame_grows(queue_bytes(*old(rx_queue)), seq![t.code()], field + payload);
        assert(seq![t.code()] + (field + payload) =~= encoder.covered@);
        lemma_frame_parts(queue_bytes(*old(rx_queue)), encoder.covered@);
    }
    encoder.finalize();
}

/// Forwards a received radio packet to the host if the interrupt status
/// word reports one, and tells whether it did; the serial transmit
/// interrupt is then to be raised so that the frame drains.
pub fn handle_radio_rx_done(
    irq: u16,
    pkt_status: LoraPacketStatus,
    data: &[u8],
    rx_queue: &mut CacheQueue,
) -> (forwarded: bool)
    requires
        data@.len() < RADIO_BUF_LEN,
    ensures
        forwarded == (irq & Irq::RxDone.mask_bits() != 0),
        forwarded ==> queue_bytes(*final(rx_queue)) == keep_newest(
            queue_bytes(*old(rx_queue)) + received_frame_wire(pkt_status, data@),
        ),
        !forwarded ==> queue_bytes(*final(rx_queue)) == queue_bytes(*old(rx_queue)),
{
    if irq & Irq::RxDone.mask() != 0 {
        radio_encode_packet(pkt_status, data, rx_queue);
        return true;
    }
    false
}

} // verus!
