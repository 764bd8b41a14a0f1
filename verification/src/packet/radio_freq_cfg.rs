//! The request to tune the radio to a carrier frequency.
use vstd::prelude::*;
use crate::packet::uart_pkt_decoder::UartPacketDecoder;
use crate::packet::{le32_value, read_le32, UartPacketError};
use crate::radio::RadioOp;

verus! {

/// Lowest carrier frequency that is accepted, in hertz.
pub const FREQ_MIN_HZ: u32 = 100_000_000;

/// Highest carrier frequency that is accepted, in hertz.
pub const FREQ_MAX_HZ: u32 = 960_000_000;

/// The carrier frequency that a payload asks for: its first four bytes as
/// hertz, lowest byte first. A payload shorter than that, or a frequency
/// outside 100 to 960 MHz, is corrupted.
pub open spec fn freq_config_of(payload: Seq<u8>) -> Result<u32, UartPacketError> {
    if payload.len() < 4 {
        Err(UartPacketError::CorruptedError)
    } else {
        let hz = le32_value(payload[0], payload[1], payload[2], payload[3]);
        if hz < FREQ_MIN_HZ || hz > FREQ_MAX_HZ {
            Err(UartPacketError::CorruptedError)
        } else {
            Ok(hz)
        }
    }
}

/// The band in megahertz over which image rejection is calibrated for a
/// carrier: from 4 MHz below to 4 MHz above the carrier's megahertz
/// rounded down to a multiple of four.
pub open spec fn calibration_band(freq_hz: u32) -> (int, int) {
    let base = 4 * (freq_hz as int / 1_000_000 / 4);
    (base - 4, base + 4)
}

/// The operations that tune the radio to a carrier: set the frequency,
/// then calibrate image rejection around it.
pub open spec fn tune_ops(freq_hz: u32) -> Seq<RadioOp> {
    seq![
        RadioOp::SetRfFrequency { hz: freq_hz },
        RadioOp::CalibrateImage {
            freq1_mhz: calibration_band(freq_hz).0 as u16,
            freq2_mhz: calibration_band(freq_hz).1 as u16,
        },
    ]
}

/// A request to tune the radio to a carrier frequency.
pub struct RadioFreqConfigurator {
    freq_hz: u32,
}

impl RadioFreqConfigurator {
    #[verifier::type_invariant]
    spec fn in_range(&self) -> bool {
        FREQ_MIN_HZ <= self.freq_hz <= FREQ_MAX_HZ
    }

    /// The carrier frequency in hertz.
    pub closed spec fn frequency(&self) -> u32 {
        self.freq_hz
    }

    /// Returns the carrier frequency in hertz.
    pub fn freq_hz(&self) -> (hz: u32)
        ensures
            hz == self.frequency(),
            FREQ_MIN_HZ <= hz <= FREQ_MAX_HZ,
    {
        proof {
            use_type_invariant(self);
        }
        self.freq_hz
    }

    /// Reads the request from a payload.
    pub fn parse(payload: &[u8]) -> (r: Result<RadioFreqConfigurator, UartPacketError>)
        ensures
            match freq_config_of(payload@) {
                Ok(hz) => r is Ok && r->Ok_0.frequency() == hz,
                Err(e) => r is Err && r->Err_0 == e,
            },
    {
        if payload.len() < 4 {
            return Err(UartPacketError::CorruptedError);
        }
        let freq_hz = read_le32(payload[0], payload[1], payload[2], payload[3]);
        if freq_hz < FREQ_MIN_HZ || freq_hz > FREQ_MAX_HZ {
            return Err(UartPacketError::CorruptedError);
        }
        Ok(RadioFreqConfigurator { freq_hz })
    }

    /// Reads the request from a decoded packet.
    pub fn try_from(value: UartPacketDecoder) -> (r: Result<
        RadioFreqConfigurator,
        UartPacketError,
    >)
        ensures
            match freq_config_of(value.payload()) {
                Ok(hz) => r is Ok && r->Ok_0.frequency() == hz,
                Err(e) => r is Err && r->Err_0 == e,
            },
    {
        let (buf, _) = value.get_payload();
        RadioFreqConfigurator::parse(buf)
    }

    /// Returns the operations that apply the request: tune to the carrier,
    /// then calibrate image rejection around it. The band is in order, made
    /// of multiples of 4 MHz, and within what the radio can calibrate.
    pub fn configure_radio(&self) -> (ops: Vec<RadioOp>)
        ensures
            ops@ == tune_ops(self.frequency()),
            96 <= calibration_band(self.frequency()).0 < calibration_band(self.frequency()).1
                <= 964,
            calibration_band(self.frequency()).0 % 4 == 0,
            calibration_band(self.frequency()).1 % 4 == 0,
    {
        proof {
            use_type_invariant(self);
        }
        let mhz = self.freq_hz / 1_000_000;
        let freqx4 = mhz - (mhz % 4);
        assert(freqx4 == 4 * (mhz / 4));
        let freq1_mhz = (freqx4 - 4) as u16;
        let freq2_mhz = (freqx4 + 4) as u16;
        let mut ops: Vec<RadioOp> = Vec::new();
        ops.push(RadioOp::SetRfFrequency { hz: self.freq_hz });
        ops.push(RadioOp::CalibrateImage { freq1_mhz, freq2_mhz });
        assert(ops@ =~= tune_ops(self.frequency()));
        ops
    }
}

} // verus!
