//! Settings and status of the sub-GHz radio as plain values, and what the
//! radio driver computes from them.
use vstd::prelude::*;

verus! {

/// Link quality of a received LoRa packet: the four status bytes as the
/// radio reports them.
#[derive(Debug, PartialEq, Eq, Clone, Copy)]
pub struct LoraPacketStatus {
    pub raw: [u8; 4],
}

/// Signal strength after despreading in dBm: minus half the fourth status
/// byte, rounded towards zero.
pub open spec fn signal_rssi_of(raw: Seq<u8>) -> int {
    -(raw[3] as int / 2)
}

/// Signal-to-noise ratio in dB: a quarter of the third status byte, rounded
/// down.
pub open spec fn snr_of(raw: Seq<u8>) -> int {
    raw[2] as int / 4
}

/// `LoRaPacketStatus::signal_rssi_pkt` of the radio driver, brought to an
/// integer with `Ratio::to_integer`: the signal strength in dBm that the
/// status bytes `raw` stand for.
#[verifier::external_body]
pub(crate) fn signal_rssi_dbm(raw: [u8; 4]) -> (r: i16)
    ensures
        r == signal_rssi_of(raw@),
{
    stm32wlxx_hal::subghz::LoRaPacketStatus::from(raw).signal_rssi_pkt().to_integer()
}

/// `LoRaPacketStatus::snr_pkt` of the radio driver, brought to an integer
/// with `Ratio::to_integer`: the signal-to-noise ratio in dB that the status
/// bytes `raw` stand for.
#[verifier::external_body]
pub(crate) fn snr_db(raw: [u8; 4]) -> (r: i16)
    ensures
        r == snr_of(raw@),
{
    stm32wlxx_hal::subghz::LoRaPacketStatus::from(raw).snr_pkt().to_integer()
}

impl LoraPacketStatus {
    /// Returns the signal strength of the packet in dBm.
    pub fn signal_rssi(&self) -> (r: i16)
        ensures
            r == signal_rssi_of(self.raw@),
            -127 <= r <= 0,
    {
        signal_rssi_dbm(self.raw)
    }

    /// Returns the signal-to-noise ratio of the packet in dB.
    pub fn snr(&self) -> (r: i16)
        ensures
            r == snr_of(self.raw@),
            0 <= r <= 63,
    {
        snr_db(self.raw)
    }
}

/// Largest value of the radio's 24-bit timer.
pub const TIMEOUT_MAX_BITS: u32 = 0x00ff_ffff;

/// Timer steps in one millisecond; a step lasts 15.625 microseconds.
pub const TIMEOUT_BITS_PER_MILLI: u32 = 64;

/// The timer value for a timeout in milliseconds: 64 steps for each
/// millisecond, at least one step and at most the largest timer value.
pub open spec fn timeout_bits_of(millis: u32) -> u32 {
    if millis == 0 {
        1
    } else if millis >= 262_144 {
        TIMEOUT_MAX_BITS
    } else {
        (millis * TIMEOUT_BITS_PER_MILLI) as u32
    }
}

/// `Timeout::from_millis_sat` of the radio driver, read back with
/// `Timeout::into_bits`: the timer value for `millis` milliseconds,
/// saturated at both ends.
#[verifier::external_body]
pub(crate) fn timeout_bits_from_millis(millis: u32) -> (bits: u32)
    ensures
        bits == timeout_bits_of(millis),
{
    stm32wlxx_hal::subghz::Timeout::from_millis_sat(millis).into_bits()
}

/// Whether `bits` is one of the receiver bandwidth codes of the GFSK modem.
pub open spec fn is_fsk_bandwidth(bits: u8) -> bool {
    ||| 0x09 <= bits <= 0x0f
    ||| 0x11 <= bits <= 0x17
    ||| 0x19 <= bits <= 0x1f
}

/// `FskBandwidth::from_bits` of the radio driver: whether it accepts `bits`
/// as a bandwidth code.
#[verifier::external_body]
pub(crate) fn fsk_bandwidth_known(bits: u8) -> (r: bool)
    ensures
        r == is_fsk_bandwidth(bits),
{
    stm32wlxx_hal::subghz::FskBandwidth::from_bits(bits).is_ok()
}

/// The interrupt causes of the radio that the firmware uses.
#[derive(Debug, PartialEq, Eq, Clone, Copy, Structural)]
pub enum Irq {
    /// A packet was sent.
    TxDone,
    /// A packet was received.
    RxDone,
    /// A LoRa header failed its check.
    HeaderErr,
    /// A received packet failed its check.
    PacketErr,
    /// Reception or transmission ran out of time.
    Timeout,
}

impl Irq {
    /// The bit of the status word that reports this cause.
    pub open spec fn mask_bits(self) -> u16 {
        match self {
            Irq::TxDone => 0x0001,
            Irq::RxDone => 0x0002,
            Irq::HeaderErr => 0x0020,
            Irq::PacketErr => 0x0040,
            Irq::Timeout => 0x0200,
        }
    }

    /// Returns the bit of the status word that reports this cause.
    pub fn mask(self) -> (r: u16)
        ensures
            r == self.mask_bits(),
    {
        irq_mask(self)
    }
}

/// `Irq::mask` of the radio driver: the bit of the status word that reports
/// the cause.
#[verifier::external_body]
pub(crate) fn irq_mask(irq: Irq) -> (r: u16)
    ensures
        r == irq.mask_bits(),
{
    match irq {
        Irq::TxDone => stm32wlxx_hal::subghz::Irq::TxDone.mask(),
        Irq::RxDone => stm32wlxx_hal::subghz::Irq::RxDone.mask(),
        Irq::HeaderErr => stm32wlxx_hal::subghz::Irq::HeaderErr.mask(),
        Irq::PacketErr => stm32wlxx_hal::subghz::Irq::Err.mask(),
        Irq::Timeout => stm32wlxx_hal::subghz::Irq::Timeout.mask(),
    }
}

/// Clock that runs while the radio is in standby.
#[derive(Debug, PartialEq, Eq, Clone, Copy, Structural)]
pub enum StandbyClk {
    /// The 13 MHz RC oscillator.
    Rc,
    /// The external high-speed oscillator.
    Hse,
}

/// Modem that the radio uses.
#[derive(Debug, PartialEq, Eq, Clone, Copy, Structural)]
pub enum PacketType {
    /// (G)FSK modem.
    Fsk,
    /// LoRa modem.
    LoRa,
}

/// Supply of the radio.
#[derive(Debug, PartialEq, Eq, Clone, Copy, Structural)]
pub enum RegMode {
    /// Linear regulator.
    Ldo,
    /// Switching regulator.
    Smps,
}

/// Where the radio goes after a transmission or reception.
#[derive(Debug, PartialEq, Eq, Clone, Copy, Structural)]
pub enum FallbackMode {
    /// Standby on the RC oscillator.
    Standby,
    /// Standby on the external high-speed oscillator.
    StandbyHse,
    /// Frequency synthesis.
    Fs,
}

/// Over-current protection of the power amplifier.
#[derive(Debug, PartialEq, Eq, Clone, Copy, Structural)]
pub enum Ocp {
    /// Limit of 60 mA, for the low-power amplifier.
    Max60m,
    /// Limit of 140 mA, for the high-power amplifier.
    Max140m,
}

/// Power amplifier in use.
#[derive(Debug, PartialEq, Eq, Clone, Copy, Structural)]
pub enum PaSel {
    /// Low-power amplifier.
    Lp,
    /// High-power amplifier.
    Hp,
}

/// Receiver gain setting.
#[derive(Debug, PartialEq, Eq, Clone, Copy, Structural)]
pub enum PMode {
    /// Power-saving gain.
    PowerSaving,
    /// Boosted gain.
    Boost2,
}

/// Time that the power amplifier takes to ramp up.
#[derive(Debug, PartialEq, Eq, Clone, Copy, Structural)]
pub enum RampTime {
    Micros10,
    Micros20,
    Micros40,
    Micros80,
    Micros200,
    Micros800,
    Micros1700,
    Micros3400,
}

impl RampTime {
    /// The ramp time that a code stands for, if any.
    pub open spec fn of_code(code: u8) -> Option<RampTime> {
        if code == 0x00 {
            Some(RampTime::Micros10)
        } else if code == 0x01 {
            Some(RampTime::Micros20)
        } else if code == 0x02 {
            Some(RampTime::Micros40)
        } else if code == 0x03 {
            Some(RampTime::Micros80)
        } else if code == 0x04 {
            Some(RampTime::Micros200)
        } else if code == 0x05 {
            Some(RampTime::Micros800)
        } else if code == 0x06 {
            Some(RampTime::Micros1700)
        } else if code == 0x07 {
            Some(RampTime::Micros3400)
        } else {
            None
        }
    }

    /// Reads a ramp time code.
    pub fn from_code(code: u8) -> (r: Option<RampTime>)
        ensures
            r == RampTime::of_code(code),
    {
        match code {
            0x00 => Some(RampTime::Micros10),
            0x01 => Some(RampTime::Micros20),
            0x02 => Some(RampTime::Micros40),
            0x03 => Some(RampTime::Micros80),
            0x04 => Some(RampTime::Micros200),
            0x05 => Some(RampTime::Micros800),
            0x06 => Some(RampTime::Micros1700),
            0x07 => Some(RampTime::Micros3400),
            _ => None,
        }
    }
}

/// Power amplifier settings.
#[derive(Debug, PartialEq, Eq, Clone, Copy, Structural)]
pub struct PaConfig {
    pub pa_duty_cycle: u8,
    pub hp_max: u8,
    pub pa: PaSel,
}

/// Transmit power and ramp time.
#[derive(Debug, PartialEq, Eq, Clone, Copy, Structural)]
pub struct TxParams {
    pub ramp_time: RampTime,
    pub power: u8,
}

/// Whether a packet carries its length in a header.
#[derive(Debug, PartialEq, Eq, Clone, Copy, Structural)]
pub enum HeaderType {
    /// No header: both ends know the length.
    Fixed,
    /// The packet begins with a header that holds its length.
    Variable,
}

impl HeaderType {
    /// The header type that a flag byte stands for: fixed for zero.
    pub open spec fn of_flag(flag: u8) -> HeaderType {
        if flag == 0 {
            HeaderType::Fixed
        } else {
            HeaderType::Variable
        }
    }

    /// Reads a header type flag.
    pub fn from_flag(flag: u8) -> (r: HeaderType)
        ensures
            r == HeaderType::of_flag(flag),
    {
        if flag == 0 {
            HeaderType::Fixed
        } else {
            HeaderType::Variable
        }
    }
}

/// LoRa spreading factor.
#[derive(Debug, PartialEq, Eq, Clone, Copy, Structural)]
pub enum SpreadingFactor {
    Sf5,
    Sf6,
    Sf7,
    Sf8,
    Sf9,
    Sf10,
    Sf11,
    Sf12,
}

impl SpreadingFactor {
    /// The spreading factor that a code stands for, if any.
    pub open spec fn of_code(code: u8) -> Option<SpreadingFactor> {
        if code == 0x05 {
            Some(SpreadingFactor::Sf5)
        } else if code == 0x06 {
            Some(SpreadingFactor::Sf6)
        } else if code == 0x07 {
            Some(SpreadingFactor::Sf7)
        } else if code == 0x08 {
            Some(SpreadingFactor::Sf8)
        } else if code == 0x09 {
            Some(SpreadingFactor::Sf9)
        } else if code == 0x0a {
            Some(SpreadingFactor::Sf10)
        } else if code == 0x0b {
            Some(SpreadingFactor::Sf11)
        } else if code == 0x0c {
            Some(SpreadingFactor::Sf12)
        } else {
            None
        }
    }

    /// Reads a spreading factor code.
    pub fn from_code(code: u8) -> (r: Option<SpreadingFactor>)
        ensures
            r == SpreadingFactor::of_code(code),
    {
        match code {
            0x05 => Some(SpreadingFactor::Sf5),
            0x06 => Some(SpreadingFactor::Sf6),
            0x07 => Some(SpreadingFactor::Sf7),
            0x08 => Some(SpreadingFactor::Sf8),
            0x09 => Some(SpreadingFactor::Sf9),
            0x0a => Some(SpreadingFactor::Sf10),
            0x0b => Some(SpreadingFactor::Sf11),
            0x0c => Some(SpreadingFactor::Sf12),
            _ => None,
        }
    }
}

/// LoRa bandwidth.
#[derive(Debug, PartialEq, Eq, Clone, Copy, Structural)]
pub enum LoRaBandwidth {
    Bw7,
    Bw10,
    Bw15,
    Bw20,
    Bw31,
    Bw41,
    Bw62,
    Bw125,
    Bw250,
    Bw500,
}

impl LoRaBandwidth {
    /// The bandwidth that a code stands for, if any.
    pub open spec fn of_code(code: u8) -> Option<LoRaBandwidth> {
        if code == 0x00 {
            Some(LoRaBandwidth::Bw7)
        } else if code == 0x08 {
            Some(LoRaBandwidth::Bw10)
        } else if code == 0x01 {
            Some(LoRaBandwidth::Bw15)
        } else if code == 0x09 {
            Some(LoRaBandwidth::Bw20)
        } else if code == 0x02 {
            Some(LoRaBandwidth::Bw31)
        } else if code == 0x0a {
            Some(LoRaBandwidth::Bw41)
        } else if code == 0x03 {
            Some(LoRaBandwidth::Bw62)
        } else if code == 0x04 {
            Some(LoRaBandwidth::Bw125)
        } else if code == 0x05 {
            Some(LoRaBandwidth::Bw250)
        } else if code == 0x06 {
            Some(LoRaBandwidth::Bw500)
        } else {
            None
        }
    }

    /// Reads a bandwidth code.
    pub fn from_code(code: u8) -> (r: Option<LoRaBandwidth>)
        ensures
            r == LoRaBandwidth::of_code(code),
    {
        match code {
            0x00 => Some(LoRaBandwidth::Bw7),
            0x08 => Some(LoRaBandwidth::Bw10),
            0x01 => Some(LoRaBandwidth::Bw15),
            0x09 => Some(LoRaBandwidth::Bw20),
            0x02 => Some(LoRaBandwidth::Bw31),
            0x0a => Some(LoRaBandwidth::Bw41),
            0x03 => Some(LoRaBandwidth::Bw62),
            0x04 => Some(LoRaBandwidth::Bw125),
            0x05 => Some(LoRaBandwidth::Bw250),
            0x06 => Some(LoRaBandwidth::Bw500),
            _ => None,
        }
    }
}

/// LoRa forward error correction rate.
#[derive(Debug, PartialEq, Eq, Clone, Copy, Structural)]
pub enum CodingRate {
    Cr44,
    Cr45,
    Cr46,
    Cr47,
    Cr48,
}

impl CodingRate {
    /// The coding rate that a code stands for, if any.
    pub open spec fn of_code(code: u8) -> Option<CodingRate> {
        if code == 0x00 {
            Some(CodingRate::Cr44)
        } else if code == 0x01 {
            Some(CodingRate::Cr45)
        } else if code == 0x02 {
            Some(CodingRate::Cr46)
        } else if code == 0x03 {
            Some(CodingRate::Cr47)
        } else if code == 0x04 {
            Some(CodingRate::Cr48)
        } else {
            None
        }
    }

    /// Reads a coding rate code.
    pub fn from_code(code: u8) -> (r: Option<CodingRate>)
        ensures
            r == CodingRate::of_code(code),
    {
        match code {
            0x00 => Some(CodingRate::Cr44),
            0x01 => Some(CodingRate::Cr45),
            0x02 => Some(CodingRate::Cr46),
            0x03 => Some(CodingRate::Cr47),
            0x04 => Some(CodingRate::Cr48),
            _ => None,
        }
    }
}

/// LoRa packet layout.
#[derive(Debug, PartialEq, Eq, Clone, Copy, Structural)]
pub struct LoRaPacketParams {
    pub preamble_len: u16,
    pub header_type: HeaderType,
    pub payload_len: u8,
    pub crc_en: bool,
    pub invert_iq: bool,
}

/// LoRa modulation.
#[derive(Debug, PartialEq, Eq, Clone, Copy, Structural)]
pub struct LoRaModParams {
    pub sf: SpreadingFactor,
    pub bw: LoRaBandwidth,
    pub cr: CodingRate,
    pub ldro_en: bool,
}

/// Number of preamble bits that the GFSK receiver must see.
#[derive(Debug, PartialEq, Eq, Clone, Copy, Structural)]
pub enum PreambleDetection {
    Disabled,
    Bit8,
    Bit16,
    Bit24,
    Bit32,
}

impl PreambleDetection {
    /// The preamble detection that a code stands for, if any.
    pub open spec fn of_code(code: u8) -> Option<PreambleDetection> {
        if code == 0 {
            Some(PreambleDetection::Disabled)
        } else if code == 4 {
            Some(PreambleDetection::Bit8)
        } else if code == 5 {
            Some(PreambleDetection::Bit16)
        } else if code == 6 {
            Some(PreambleDetection::Bit24)
        } else if code == 7 {
            Some(PreambleDetection::Bit32)
        } else {
            None
        }
    }

    /// Reads a preamble detection code.
    pub fn from_code(code: u8) -> (r: Option<PreambleDetection>)
        ensures
            r == PreambleDetection::of_code(code),
    {
        match code {
            0 => Some(PreambleDetection::Disabled),
            4 => Some(PreambleDetection::Bit8),
            5 => Some(PreambleDetection::Bit16),
            6 => Some(PreambleDetection::Bit24),
            7 => Some(PreambleDetection::Bit32),
            _ => None,
        }
    }
}

/// Address filtering of the GFSK receiver.
#[derive(Debug, PartialEq, Eq, Clone, Copy, Structural)]
pub enum AddrComp {
    Disabled,
    Node,
    Broadcast,
}

impl AddrComp {
    /// The address filtering that a code stands for, if any.
    pub open spec fn of_code(code: u8) -> Option<AddrComp> {
        if code == 0 {
            Some(AddrComp::Disabled)
        } else if code == 1 {
            Some(AddrComp::Node)
        } else if code == 2 {
            Some(AddrComp::Broadcast)
        } else {
            None
        }
    }

    /// Reads an address filtering code.
    pub fn from_code(code: u8) -> (r: Option<AddrComp>)
        ensures
            r == AddrComp::of_code(code),
    {
        match code {
            0 => Some(AddrComp::Disabled),
            1 => Some(AddrComp::Node),
            2 => Some(AddrComp::Broadcast),
            _ => None,
        }
    }
}

/// Checksum that GFSK packets carry.
#[derive(Debug, PartialEq, Eq, Clone, Copy, Structural)]
pub enum CrcType {
    Byte1,
    Disabled,
    Byte2,
    Byte1Inverted,
    Byte2Inverted,
}

impl CrcType {
    /// The checksum type that a code stands for, if any.
    pub open spec fn of_code(code: u8) -> Option<CrcType> {
        if code == 0 {
            Some(CrcType::Byte1)
        } else if code == 1 {
            Some(CrcType::Disabled)
        } else if code == 2 {
            Some(CrcType::Byte2)
        } else if code == 4 {
            Some(CrcType::Byte1Inverted)
        } else if code == 6 {
            Some(CrcType::Byte2Inverted)
        } else {
            None
        }
    }

    /// Reads a checksum type code.
    pub fn from_code(code: u8) -> (r: Option<CrcType>)
        ensures
            r == CrcType::of_code(code),
    {
        match code {
            0 => Some(CrcType::Byte1),
            1 => Some(CrcType::Disabled),
            2 => Some(CrcType::Byte2),
            4 => Some(CrcType::Byte1Inverted),
            6 => Some(CrcType::Byte2Inverted),
            _ => None,
        }
    }
}

/// Pulse shaping of the GFSK transmitter.
#[derive(Debug, PartialEq, Eq, Clone, Copy, Structural)]
pub enum FskPulseShape {
    Unfiltered,
    Bt03,
    Bt05,
    Bt07,
    Bt10,
}

impl FskPulseShape {
    /// The pulse shape that a code stands for, if any.
    pub open spec fn of_code(code: u8) -> Option<FskPulseShape> {
        if code == 0x00 {
            Some(FskPulseShape::Unfiltered)
        } else if code == 0x08 {
            Some(FskPulseShape::Bt03)
        } else if code == 0x09 {
            Some(FskPulseShape::Bt05)
        } else if code == 0x0a {
            Some(FskPulseShape::Bt07)
        } else if code == 0x0b {
            Some(FskPulseShape::Bt10)
        } else {
            None
        }
    }

    /// Reads a pulse shape code.
    pub fn from_code(code: u8) -> (r: Option<FskPulseShape>)
        ensures
            r == FskPulseShape::of_code(code),
    {
        match code {
            0x00 => Some(FskPulseShape::Unfiltered),
            0x08 => Some(FskPulseShape::Bt03),
            0x09 => Some(FskPulseShape::Bt05),
            0x0a => Some(FskPulseShape::Bt07),
            0x0b => Some(FskPulseShape::Bt10),
            _ => None,
        }
    }
}

/// Receiver bandwidth of the GFSK modem, as the code that the radio takes.
#[derive(Debug, PartialEq, Eq, Clone, Copy, Structural)]
pub struct FskBandwidth {
    pub bits: u8,
}

/// GFSK packet layout.
#[derive(Debug, PartialEq, Eq, Clone, Copy, Structural)]
pub struct GenericPacketParams {
    pub preamble_len: u16,
    pub preamble_detection: PreambleDetection,
    pub sync_word_len: u8,
    pub addr_comp: AddrComp,
    pub header_type: HeaderType,
    pub payload_len: u8,
    pub crc_type: CrcType,
    pub whitening_enable: bool,
}

/// GFSK modulation.
#[derive(Debug, PartialEq, Eq, Clone, Copy, Structural)]
pub struct FskModParams {
    pub bitrate_bps: u32,
    pub pulse_shape: FskPulseShape,
    pub bandwidth: FskBandwidth,
    pub fdev_hz: u32,
}

} // verus!
