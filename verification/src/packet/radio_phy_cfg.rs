//! The request to configure power amplifier and receive gain.
use vstd::prelude::*;
use crate::packet::uart_pkt_decoder::UartPacketDecoder;
use crate::packet::UartPacketError;
use crate::radio::RadioOp;
use crate::subghz::{Ocp, PMode, PaConfig, PaSel, RampTime, RegMode, StandbyClk, TxParams};

verus! {

/// The power amplifier that a selection byte names: low power for zero.
pub open spec fn pa_sel_of(flag: u8) -> PaSel {
    if flag == 0 {
        PaSel::Lp
    } else {
        PaSel::Hp
    }
}

/// The over-current limit that goes with a selection byte: 60 mA for the
/// low-power amplifier, 140 mA for the high-power one.
pub open spec fn ocp_of(flag: u8) -> Ocp {
    if flag == 0 {
        Ocp::Max60m
    } else {
        Ocp::Max140m
    }
}

/// The physical-layer settings that a payload asks for. Its six bytes are:
/// amplifier duty cycle, high-power maximum, amplifier selection, transmit
/// power, ramp time code, receive boost flag. A shorter payload or an
/// unknown ramp time code is corrupted.
pub open spec fn phy_config_of(payload: Seq<u8>) -> Result<
    RadioPhyConfigurator,
    UartPacketError,
> {
    if payload.len() < 6 {
        Err(UartPacketError::CorruptedError)
    } else {
        match RampTime::of_code(payload[4]) {
            None => Err(UartPacketError::CorruptedError),
            Some(ramp_time) => Ok(
                RadioPhyConfigurator {
                    tx_params: TxParams { ramp_time, power: payload[3] },
                    pa_config: PaConfig {
                        pa_duty_cycle: payload[0],
                        hp_max: payload[1],
                        pa: pa_sel_of(payload[2]),
                    },
                    ocp: ocp_of(payload[2]),
                    rx_boost: payload[5] != 0,
                },
            ),
        }
    }
}

/// A request to set power amplifier, transmit power and receive gain.
#[derive(Debug, PartialEq, Eq, Clone, Copy, Structural)]
pub struct RadioPhyConfigurator {
    pub tx_params: TxParams,
    pub pa_config: PaConfig,
    pub ocp: Ocp,
    pub rx_boost: bool,
}

impl RadioPhyConfigurator {
    /// The receiver gain that the request selects.
    pub open spec fn rx_gain(&self) -> PMode {
        if self.rx_boost {
            PMode::Boost2
        } else {
            PMode::PowerSaving
        }
    }

    /// The operations that apply the request.
    pub open spec fn radio_ops(&self) -> Seq<RadioOp> {
        seq![
            RadioOp::SetStandby(StandbyClk::Rc),
            RadioOp::SetBufferBaseAddress { tx: 0, rx: 0 },
            RadioOp::SetRegulatorMode(RegMode::Smps),
            RadioOp::SetPaConfig(self.pa_config),
            RadioOp::SetPaOcp(self.ocp),
            RadioOp::SetTxParams(self.tx_params),
            RadioOp::SetRxGain(self.rx_gain()),
        ]
    }

    /// Reads the request from a payload.
    pub fn parse(payload: &[u8]) -> (r: Result<RadioPhyConfigurator, UartPacketError>)
        ensures
            r == phy_config_of(payload@),
    {
        if payload.len() < 6 {
            return Err(UartPacketError::CorruptedError);
        }
        let pa_sel = if payload[2] == 0 {
            PaSel::Lp
        } else {
            PaSel::Hp
        };
        let ocp = if payload[2] == 0 {
            Ocp::Max60m
        } else {
            Ocp::Max140m
        };
        let pa_config = PaConfig { pa_duty_cycle: payload[0], hp_max: payload[1], pa: pa_sel };
        let ramp_time = match RampTime::from_code(payload[4]) {
            Some(rt) => rt,
            None => {
                return Err(UartPacketError::CorruptedError);
            },
        };
        let tx_params = TxParams { ramp_time, power: payload[3] };
        let rx_boost = payload[5] != 0;
        Ok(RadioPhyConfigurator { tx_params, pa_config, ocp, rx_boost })
    }

    /// Reads the request from a decoded packet.
    pub fn try_from(value: UartPacketDecoder) -> (r: Result<
        RadioPhyConfigurator,
        UartPacketError,
    >)
        ensures
            r == phy_config_of(value.payload()),
    {
        let (buf, _) = value.get_payload();
        RadioPhyConfigurator::parse(buf)
    }

    /// Returns the operations that apply the request.
    pub fn configure_radio(&self) -> (ops: Vec<RadioOp>)
        ensures
            ops@ == self.radio_ops(),
    {
        let mut ops: Vec<RadioOp> = Vec::new();
        ops.push(RadioOp::SetStandby(StandbyClk::Rc));
        ops.push(RadioOp::SetBufferBaseAddress { tx: 0, rx: 0 });
        ops.push(RadioOp::SetRegulatorMode(RegMode::Smps));
        ops.push(RadioOp::SetPaConfig(self.pa_config));
        ops.push(RadioOp::SetPaOcp(self.ocp));
        ops.push(RadioOp::SetTxParams(self.tx_params));
        if self.rx_boost {
            ops.push(RadioOp::SetRxGain(PMode::Boost2));
        } else {
            ops.push(RadioOp::SetRxGain(PMode::PowerSaving));
        }
        assert(ops@ =~= self.radio_ops());
        ops
    }
}

} // verus!
