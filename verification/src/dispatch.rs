//! The command dispatcher: from a decoded packet to the operations on the
//! radio, and from their outcome to the reply.
use vstd::prelude::*;
use crate::constants::{queue_bytes, CacheQueue};
use crate::misc::{appended, enqueue_all_ditch_oldest, keep_newest};
use crate::packet::radio_freq_cfg::{freq_config_of, tune_ops, RadioFreqConfigurator};
use crate::packet::radio_gfsk_cfg::{gfsk_config_of, RadioGfskConfigurator};
use crate::packet::radio_lora_cfg::{lora_config_of, RadioLoraConfigurator};
use crate::packet::radio_phy_cfg::{phy_config_of, RadioPhyConfigurator};
use crate::packet::radio_rx_cmd::{rx_command_of, RadioRxCommand};
use crate::packet::uart_pkt_decoder::UartPacketDecoder;
use crate::packet::uart_pkt_encoder::UartPacketEncoder;
use crate::packet::{frame_wire, UartPacketType};
use crate::radio::{
    radio_timeout_bits, set_radio_to_sleep, set_radio_to_standby, timeout_bits, RadioOp,
};
use crate::radio_task::{RadioController, RadioState, RfSwitch};
use crate::subghz::StandbyClk;

verus! {

/// What a command of the host amounts to for the radio.
#[derive(Debug, PartialEq, Eq, Clone, Copy, Structural)]
pub enum CommandKind {
    /// Answer with a pong.
    Ping,
    /// Operations that leave the radio in standby.
    EnterStandby,
    /// Operations that leave the radio asleep.
    EnterSleep,
    /// Operations that do not change what the radio is doing.
    Tune,
    /// Operations that start reception with the given timer value.
    StartRx { timeout_bits: u32 },
    /// The payload is to be sent by the radio.
    Send,
    /// Reset the system.
    Restart,
    /// The command is unknown, unsupported or malformed.
    Rejected,
}

/// What the dispatcher does with a command: its kind and the operations to
/// perform on the radio.
pub struct CommandPlan {
    pub kind: CommandKind,
    pub ops: Vec<RadioOp>,
}

/// The kind of a command and the operations it asks of the radio, for a
/// packet of kind `t` with the given payload. A payload that does not parse
/// and a kind that the host may not send are rejected.
pub open spec fn command_of(t: UartPacketType, payload: Seq<u8>) -> (CommandKind, Seq<RadioOp>) {
    match t {
        UartPacketType::Ping => (CommandKind::Ping, Seq::<RadioOp>::empty()),
        UartPacketType::RadioPhyConfig => match phy_config_of(payload) {
            Ok(c) => (CommandKind::EnterStandby, c.radio_ops()),
            Err(_) => (CommandKind::Rejected, Seq::<RadioOp>::empty()),
        },
        UartPacketType::RadioFreqConfig => match freq_config_of(payload) {
            Ok(hz) => (CommandKind::Tune, tune_ops(hz)),
            Err(_) => (CommandKind::Rejected, Seq::<RadioOp>::empty()),
        },
        UartPacketType::RadioLoraConfig => match lora_config_of(payload) {
            Ok(c) => (CommandKind::EnterStandby, c.radio_ops()),
            Err(_) => (CommandKind::Rejected, Seq::<RadioOp>::empty()),
        },
        UartPacketType::RadioGfskConfig => match gfsk_config_of(payload) {
            Ok(c) => (CommandKind::EnterStandby, c.radio_ops()),
            Err(_) => (CommandKind::Rejected, Seq::<RadioOp>::empty()),
        },
        UartPacketType::RadioGoSleep => (
            CommandKind::EnterSleep,
            seq![RadioOp::SetSleep { warm_start: false, rtc_wakeup_en: false }],
        ),
        UartPacketType::RadioGoIdle => (
            CommandKind::EnterStandby,
            seq![RadioOp::SetStandby(StandbyClk::Rc)],
        ),
        UartPacketType::RadioSend => (CommandKind::Send, Seq::<RadioOp>::empty()),
        UartPacketType::RadioRecvStart => match rx_command_of(payload) {
            Ok(c) => (
                CommandKind::StartRx { timeout_bits: radio_timeout_bits(c.timeout_ms) },
                c.radio_ops(),
            ),
            Err(_) => (CommandKind::Rejected, Seq::<RadioOp>::empty()),
        },
        UartPacketType::Restart => (CommandKind::Restart, Seq::<RadioOp>::empty()),
        _ => (CommandKind::Rejected, Seq::<RadioOp>::empty()),
    }
}

/// The reply to a command, given whether the radio took every operation.
/// A reset gets no reply.
pub open spec fn reply_of(kind: CommandKind, radio_ok: bool) -> Option<UartPacketType> {
    match kind {
        CommandKind::Ping => Some(UartPacketType::Pong),
        CommandKind::Send => Some(UartPacketType::Ack),
        CommandKind::Restart => None,
        CommandKind::Rejected => Some(UartPacketType::Nack),
        _ => if radio_ok {
            Some(UartPacketType::Ack)
        } else {
            Some(UartPacketType::Nack)
        },
    }
}

/// What the handler has to do once a command is completed.
#[derive(Debug, PartialEq, Eq, Clone, Copy, Structural)]
pub struct Outcome {
    /// The reply to send, if any.
    pub reply: Option<UartPacketType>,
    /// Whether the serial transmit interrupt is to be raised, so that the
    /// reply drains.
    pub pend_serial_tx: bool,
    /// Whether the radio interrupt is to be raised, so that pending data is
    /// sent.
    pub pend_radio_irq: bool,
    /// Whether the system is to be reset.
    pub reset: bool,
}

/// The outcome of a command, given whether the radio took every operation.
pub open spec fn outcome_of(kind: CommandKind, radio_ok: bool) -> Outcome {
    Outcome {
        reply: reply_of(kind, radio_ok),
        pend_serial_tx: reply_of(kind, radio_ok) is Some,
        pend_radio_irq: kind == CommandKind::Send,
        reset: kind == CommandKind::Restart,
    }
}

impl RadioController {
    /// The controller after a command, given whether the radio took every
    /// operation. A command that is not acknowledged changes nothing.
    /// Reception puts the antenna switch on the receive path.
    pub open spec fn after_command(self, kind: CommandKind, radio_ok: bool) -> RadioController {
        if !radio_ok {
            self
        } else {
            match kind {
                CommandKind::EnterStandby => RadioController {
                    state: RadioState::Standby,
                    rf_switch: self.rf_switch,
                    was_tx: self.was_tx,
                },
                CommandKind::EnterSleep => RadioController {
                    state: RadioState::Sleep,
                    rf_switch: self.rf_switch,
                    was_tx: self.was_tx,
                },
                CommandKind::StartRx { timeout_bits } => RadioController {
                    state: RadioState::Rx { timeout_bits },
                    rf_switch: RfSwitch::Receive,
                    was_tx: self.was_tx,
                },
                _ => self,
            }
        }
    }

    /// Records how a command ended and tells what is left to do.
    pub fn complete_command(&mut self, kind: CommandKind, radio_ok: bool) -> (outcome: Outcome)
        ensures
            outcome == outcome_of(kind, radio_ok),
            *final(self) == old(self).after_command(kind, radio_ok),
            old(self).wf() ==> final(self).wf(),
            outcome.reply == Some(UartPacketType::Nack) ==> *final(self) == *old(self),
    {
        let reply = match kind {
            CommandKind::Ping => Some(UartPacketType::Pong),
            CommandKind::Send => Some(UartPacketType::Ack),
            CommandKind::Restart => None,
            CommandKind::Rejected => Some(UartPacketType::Nack),
            _ => if radio_ok {
                Some(UartPacketType::Ack)
            } else {
                Some(UartPacketType::Nack)
            },
        };
        if radio_ok {
            match kind {
                CommandKind::EnterStandby => {
                    self.state = RadioState::Standby;
                },
                CommandKind::EnterSleep => {
                    self.state = RadioState::Sleep;
                },
                CommandKind::StartRx { timeout_bits } => {
                    self.rf_switch = RfSwitch::Receive;
                    self.state = RadioState::Rx { timeout_bits };
                },
                _ => {},
            }
        }
        let pend_radio_irq = match kind {
            CommandKind::Send => true,
            _ => false,
        };
        let reset = match kind {
            CommandKind::Restart => true,
            _ => false,
        };
        Outcome { reply, pend_serial_tx: reply.is_some(), pend_radio_irq, reset }
    }
}

/// Whatever the state, a command leaves the antenna switch in agreement
/// with the direction of the radio; it is answered with a pong, an ack or
/// a nack, or not at all where it asks for a reset; and a command that is
/// answered with a nack leaves the controller as it was.
pub proof fn lemma_commands_keep_state(c: RadioController, kind: CommandKind, radio_ok: bool)
    requires
        c.wf(),
    ensures
        c.after_command(kind, radio_ok).wf(),
        reply_of(kind, radio_ok) == Some(UartPacketType::Nack) ==> c.after_command(kind, radio_ok)
            == c,
        reply_of(kind, radio_ok) is None <==> kind == CommandKind::Restart,
        reply_of(kind, radio_ok) is Some ==> reply_of(kind, radio_ok)->Some_0
            == UartPacketType::Pong || reply_of(kind, radio_ok)->Some_0 == UartPacketType::Ack
            || reply_of(kind, radio_ok)->Some_0 == UartPacketType::Nack,
{
}

/// Whatever the state, an interrupt of the radio leaves the antenna switch
/// in agreement with the direction of the radio.
pub proof fn lemma_irq_keeps_state(c: RadioController, irq: u16)
    requires
        c.wf(),
    ensures
        c.after_irq(irq).wf(),
{
}

/// Tells what a decoded packet asks for.
pub fn plan_command(pkt: &UartPacketDecoder) -> (plan: CommandPlan)
    ensures
        (plan.kind, plan.ops@) == command_of(pkt.packet_type(), pkt.payload()),
{
    let rejected = CommandPlan { kind: CommandKind::Rejected, ops: Vec::new() };
    match pkt.get_type() {
        UartPacketType::Ping => CommandPlan { kind: CommandKind::Ping, ops: Vec::new() },
        UartPacketType::RadioPhyConfig => match RadioPhyConfigurator::try_from(*pkt) {
            Ok(c) => CommandPlan { kind: CommandKind::EnterStandby, ops: c.configure_radio() },
            Err(_) => rejected,
        },
        UartPacketType::RadioFreqConfig => match RadioFreqConfigurator::try_from(*pkt) {
            Ok(c) => CommandPlan { kind: CommandKind::Tune, ops: c.configure_radio() },
            Err(_) => rejected,
        },
        UartPacketType::RadioLoraConfig => match RadioLoraConfigurator::try_from(*pkt) {
            Ok(c) => CommandPlan { kind: CommandKind::EnterStandby, ops: c.configure_radio() },
            Err(_) => rejected,
        },
        UartPacketType::RadioGfskConfig => match RadioGfskConfigurator::try_from(*pkt) {
            Ok(c) => CommandPlan { kind: CommandKind::EnterStandby, ops: c.configure_radio() },
            Err(_) => rejected,
        },
        UartPacketType::RadioGoSleep => CommandPlan {
            kind: CommandKind::EnterSleep,
            ops: set_radio_to_sleep(),
        },
        UartPacketType::RadioGoIdle => CommandPlan {
            kind: CommandKind::EnterStandby,
            ops: set_radio_to_standby(),
        },
        UartPacketType::RadioSend => CommandPlan { kind: CommandKind::Send, ops: Vec::new() },
        UartPacketType::RadioRecvStart => match RadioRxCommand::try_from(*pkt) {
            Ok(c) => CommandPlan {
                kind: CommandKind::StartRx { timeout_bits: timeout_bits(c.timeout_ms) },
                ops: c.configure_radio(),
            },
            Err(_) => rejected,
        },
        UartPacketType::Restart => CommandPlan { kind: CommandKind::Restart, ops: Vec::new() },
        _ => rejected,
    }
}

/// Begins the handling of a decoded packet: tells what it asks for and,
/// where it hands over data to send, appends the payload to the pending
/// data of the radio under the drop-oldest policy.
pub fn dispatch(pkt: &UartPacketDecoder, radio_tx_pending: &mut CacheQueue) -> (plan: CommandPlan)
    ensures
        (plan.kind, plan.ops@) == command_of(pkt.packet_type(), pkt.payload()),
        plan.kind == CommandKind::Send ==> queue_bytes(*final(radio_tx_pending)) == appended(
            queue_bytes(*old(radio_tx_pending)),
            pkt.payload(),
        ),
        plan.kind != CommandKind::Send ==> queue_bytes(*final(radio_tx_pending)) == queue_bytes(
            *old(radio_tx_pending),
        ),
{
    let plan = plan_command(pkt);
    match plan.kind {
        CommandKind::Send => {
            let (payload, _) = pkt.get_payload();
            enqueue_all_ditch_oldest(radio_tx_pending, payload);
        },
        _ => {},
    }
    plan
}

/// Writes the reply to a command into the queue towards the host.
pub fn send_reply(reply: Option<UartPacketType>, uart_tx: &mut CacheQueue)
    ensures
        queue_bytes(*final(uart_tx)) == match reply {
            Some(kind) => keep_newest(
                queue_bytes(*old(uart_tx)) + frame_wire(kind, Seq::<u8>::empty()),
            ),
            None => queue_bytes(*old(uart_tx)),
        },
{
    match reply {
        Some(UartPacketType::Pong) => UartPacketEncoder::make_pong(uart_tx),
        Some(UartPacketType::Ack) => UartPacketEncoder::make_ack(uart_tx),
        Some(UartPacketType::Nack) => UartPacketEncoder::make_nack(uart_tx),
        Some(kind) => UartPacketEncoder::make_bare(kind, uart_tx),
        None => {},
    }
}

/// Ends the handling of a command: records how it ended, writes the reply
/// into the queue towards the host and tells what is left to do.
pub fn finish_command(
    ctrl: &mut RadioController,
    kind: CommandKind,
    radio_ok: bool,
    uart_tx: &mut CacheQueue,
) -> (outcome: Outcome)
    ensures
        outcome == outcome_of(kind, radio_ok),
        *final(ctrl) == old(ctrl).after_command(kind, radio_ok),
        old(ctrl).wf() ==> final(ctrl).wf(),
        queue_bytes(*final(uart_tx)) == match reply_of(kind, radio_ok) {
            Some(reply) => keep_newest(
                queue_bytes(*old(uart_tx)) + frame_wire(reply, Seq::<u8>::empty()),
            ),
            None => queue_bytes(*old(uart_tx)),
        },
{
    let outcome = ctrl.complete_command(kind, radio_ok);
    send_reply(outcome.reply, uart_tx);
    outcome
}

} // verus!
