//! The state machine that the radio interrupt drives.
use vstd::prelude::*;
use vstd::slice::slice_subrange;
use crate::constants::{queue_bytes, queue_dequeue, CacheQueue};
use crate::misc::keep_newest;
use crate::packet::uart_pkt_encoder::received_frame_wire;
use crate::radio::{
    handle_radio_rx_done, radio_timeout_bits, start_radio_rx, start_radio_tx, timeout_bits,
    RadioOp, DEFAULT_RX_TIMEOUT_MS, RADIO_BUF_LEN, TX_BUF_OFFSET,
};
use crate::subghz::{Irq, LoraPacketStatus};

verus! {

/// Setting of the antenna switch, which two output pins control.
#[derive(Debug, PartialEq, Eq, Clone, Copy, Structural)]
pub enum RfSwitch {
    /// Antenna cut off: both pins low.
    Isolated,
    /// Antenna on the transmit path: first pin low, second pin high.
    Transmit,
    /// Antenna on the receive path: first pin high, second pin low.
    Receive,
}

impl RfSwitch {
    /// The levels of the two pins, `true` for high.
    pub open spec fn levels(self) -> (bool, bool) {
        match self {
            RfSwitch::Isolated => (false, false),
            RfSwitch::Transmit => (false, true),
            RfSwitch::Receive => (true, false),
        }
    }

    /// Returns the levels of the two pins, `true` for high.
    pub fn pins(self) -> (r: (bool, bool))
        ensures
            r == self.levels(),
    {
        match self {
            RfSwitch::Isolated => (false, false),
            RfSwitch::Transmit => (false, true),
            RfSwitch::Receive => (true, false),
        }
    }
}

/// What the radio is doing.
#[derive(Debug, PartialEq, Eq, Clone, Copy, Structural)]
pub enum RadioState {
    /// Not set up yet.
    Uninit,
    /// Idle and ready.
    Standby,
    /// Asleep.
    Sleep,
    /// Receiving, with the timer value it was started with.
    Rx { timeout_bits: u32 },
    /// Sending, with the timer value it was started with.
    Tx { timeout_bits: u32 },
}

/// What an interrupt of the radio calls for.
#[derive(Debug, PartialEq, Eq, Clone, Copy, Structural)]
pub enum IrqAction {
    /// A transmission timed out: report it.
    LogTxTimeout,
    /// Go back to receiving.
    RestartRx,
    /// A packet arrived: read it out of the radio and forward it.
    ReadPacket,
    /// The interrupt was raised by software: send what is pending.
    StartPendingTx,
    /// Nothing to do.
    Nothing,
}

/// What an interrupt status word calls for. A timeout comes first, then a
/// received packet, then a sent packet; a word without any bit stands for
/// an interrupt raised by software.
pub open spec fn irq_action_of(irq: u16, was_tx: bool) -> IrqAction {
    if irq & Irq::Timeout.mask_bits() != 0 {
        if was_tx {
            IrqAction::LogTxTimeout
        } else {
            IrqAction::RestartRx
        }
    } else if irq & Irq::RxDone.mask_bits() != 0 {
        IrqAction::ReadPacket
    } else if irq & Irq::TxDone.mask_bits() != 0 {
        IrqAction::RestartRx
    } else if irq == 0 {
        IrqAction::StartPendingTx
    } else {
        IrqAction::Nothing
    }
}

/// Tells what an interrupt status word calls for.
pub fn classify_irq(irq: u16, was_tx: bool) -> (action: IrqAction)
    ensures
        action == irq_action_of(irq, was_tx),
{
    if irq & Irq::Timeout.mask() != 0 {
        if was_tx {
            IrqAction::LogTxTimeout
        } else {
            IrqAction::RestartRx
        }
    } else if irq & Irq::RxDone.mask() != 0 {
        IrqAction::ReadPacket
    } else if irq & Irq::TxDone.mask() != 0 {
        IrqAction::RestartRx
    } else if irq == 0 {
        IrqAction::StartPendingTx
    } else {
        IrqAction::Nothing
    }
}

/// The state of the radio and of its antenna switch, as the handlers track
/// them.
#[derive(Debug, PartialEq, Eq, Clone, Copy, Structural)]
pub struct RadioController {
    /// What the radio is doing.
    pub state: RadioState,
    /// Where the antenna switch stands.
    pub rf_switch: RfSwitch,
    /// Whether the last mode counts as transmission when a timeout is
    /// reported. No transition sets it.
    pub was_tx: bool,
}

/// The state while receiving with the default timeout.
pub open spec fn default_rx_state() -> RadioState {
    RadioState::Rx { timeout_bits: radio_timeout_bits(DEFAULT_RX_TIMEOUT_MS) }
}

/// What the handler of the radio interrupt is to do.
pub struct IrqPlan {
    /// What the interrupt calls for.
    pub action: IrqAction,
    /// The operations to perform on the radio now.
    pub ops: Vec<RadioOp>,
}

impl RadioController {
    /// The antenna switch agrees with the direction of the radio.
    pub open spec fn wf(&self) -> bool {
        &&& self.state is Rx ==> self.rf_switch == RfSwitch::Receive
        &&& self.state is Tx ==> self.rf_switch == RfSwitch::Transmit
    }

    /// The controller after an interrupt with status word `irq`: reception
    /// is restarted with the switch on the receive path; for a packet that
    /// arrived the radio has fallen back to standby and the switch cuts the
    /// antenna off while the packet is read; pending data is sent with the
    /// switch on the transmit path and without timeout.
    pub open spec fn after_irq(self, irq: u16) -> RadioController {
        match irq_action_of(irq, self.was_tx) {
            IrqAction::RestartRx => RadioController {
                state: default_rx_state(),
                rf_switch: RfSwitch::Receive,
                was_tx: self.was_tx,
            },
            IrqAction::ReadPacket => RadioController {
                state: RadioState::Standby,
                rf_switch: RfSwitch::Isolated,
                was_tx: self.was_tx,
            },
            IrqAction::StartPendingTx => RadioController {
                state: RadioState::Tx { timeout_bits: 0 },
                rf_switch: RfSwitch::Transmit,
                was_tx: self.was_tx,
            },
            _ => self,
        }
    }

    /// A controller for a radio that is not set up yet.
    pub fn new() -> (c: RadioController)
        ensures
            c.state == RadioState::Uninit,
            c.rf_switch == RfSwitch::Isolated,
            !c.was_tx,
            c.wf(),
    {
        RadioController { state: RadioState::Uninit, rf_switch: RfSwitch::Isolated, was_tx: false }
    }

    /// Records how the set-up of the radio ended: a radio that took every
    /// operation is in standby.
    pub fn complete_setup(&mut self, radio_ok: bool)
        ensures
            radio_ok ==> final(self).state == RadioState::Standby,
            !radio_ok ==> final(self).state == old(self).state,
            final(self).rf_switch == old(self).rf_switch,
            final(self).was_tx == old(self).was_tx,
            old(self).wf() ==> final(self).wf(),
    {
        if radio_ok {
            self.state = RadioState::Standby;
        }
    }

    /// Puts the switch on the receive path and returns the operations that
    /// restart reception with the default timeout.
    pub fn restart_rx(&mut self) -> (ops: Vec<RadioOp>)
        ensures
            final(self).state == default_rx_state(),
            final(self).rf_switch == RfSwitch::Receive,
            final(self).was_tx == old(self).was_tx,
            final(self).wf(),
            ops@ == seq![
                RadioOp::SetRx { timeout_bits: radio_timeout_bits(DEFAULT_RX_TIMEOUT_MS) },
            ],
    {
        self.rf_switch = RfSwitch::Receive;
        let ops = start_radio_rx(DEFAULT_RX_TIMEOUT_MS);
        self.state = RadioState::Rx { timeout_bits: timeout_bits(DEFAULT_RX_TIMEOUT_MS) };
        ops
    }

    /// Ends the handling of a packet that arrived, once its status and data
    /// were read out of the radio: forwards the packet to the host if the
    /// status word `irq` reports one, puts the switch on the receive path and
    /// returns the operations that restart reception with the default
    /// timeout, and whether the serial transmit interrupt is to be raised so
    /// that the frame drains.
    pub fn packet_read(
        &mut self,
        irq: u16,
        pkt_status: LoraPacketStatus,
        data: &[u8],
        uart_tx: &mut CacheQueue,
    ) -> (next: (Vec<RadioOp>, bool))
        requires
            data@.len() < RADIO_BUF_LEN,
        ensures
            final(self).state == default_rx_state(),
            final(self).rf_switch == RfSwitch::Receive,
            final(self).was_tx == old(self).was_tx,
            final(self).wf(),
            next.0@ == seq![
                RadioOp::SetRx { timeout_bits: radio_timeout_bits(DEFAULT_RX_TIMEOUT_MS) },
            ],
            next.1,
            irq & Irq::RxDone.mask_bits() != 0 ==> queue_bytes(*final(uart_tx)) == keep_newest(
                queue_bytes(*old(uart_tx)) + received_frame_wire(pkt_status, data@),
            ),
            irq & Irq::RxDone.mask_bits() == 0 ==> queue_bytes(*final(uart_tx)) == queue_bytes(
                *old(uart_tx),
            ),
    {
        let _ = handle_radio_rx_done(irq, pkt_status, data, uart_tx);
        let ops = self.restart_rx();
        (ops, true)
    }

    /// Handles an interrupt of the radio with status word `irq`, which has
    /// been read and cleared. For a packet that arrived, `packet_read` ends
    /// the handling once the packet was read out of the radio. Pending data is moved from `tx_pending` to the
    /// front of `tx_buf`, at most as much as the radio sends at once.
    pub fn handle_irq(
        &mut self,
        irq: u16,
        tx_pending: &mut CacheQueue,
        tx_buf: &mut [u8; 256],
    ) -> (plan: IrqPlan)
        ensures
            plan.action == irq_action_of(irq, old(self).was_tx),
            *final(self) == old(self).after_irq(irq),
            old(self).wf() ==> final(self).wf(),
            plan.action == IrqAction::RestartRx ==> plan.ops@ == seq![
                RadioOp::SetRx { timeout_bits: radio_timeout_bits(DEFAULT_RX_TIMEOUT_MS) },
            ],
            plan.action == IrqAction::StartPendingTx ==> plan.ops@ == seq![
                RadioOp::WriteBuffer {
                    offset: TX_BUF_OFFSET,
                    len: pending_len(queue_bytes(*old(tx_pending))) as usize,
                },
                RadioOp::ClearIrqStatus,
                RadioOp::SetTx { timeout_bits: 0 },
            ],
            plan.action != IrqAction::RestartRx && plan.action != IrqAction::StartPendingTx
                ==> plan.ops@ == Seq::<RadioOp>::empty(),
            plan.action == IrqAction::StartPendingTx ==> moved_to_radio(
                queue_bytes(*old(tx_pending)),
                queue_bytes(*final(tx_pending)),
                old(tx_buf)@,
                final(tx_buf)@,
            ),
            plan.action != IrqAction::StartPendingTx ==> queue_bytes(*final(tx_pending))
                == queue_bytes(*old(tx_pending)) && final(tx_buf)@ == old(tx_buf)@,
    {
        let action = classify_irq(irq, self.was_tx);
        match action {
            IrqAction::RestartRx => {
                let ops = self.restart_rx();
                IrqPlan { action, ops }
            },
            IrqAction::ReadPacket => {
                self.rf_switch = RfSwitch::Isolated;
                self.state = RadioState::Standby;
                IrqPlan { action, ops: Vec::new() }
            },
            IrqAction::StartPendingTx => {
                self.rf_switch = RfSwitch::Transmit;
                let n = drain_tx_pending(tx_pending, tx_buf);
                let ops = start_radio_tx(slice_subrange(tx_buf.as_slice(), 0, n), 0);
                self.state = RadioState::Tx { timeout_bits: 0 };
                IrqPlan { action, ops }
            },
            _ => IrqPlan { action, ops: Vec::new() },
        }
    }
}

/// Number of pending bytes that go to the radio at once.
pub open spec fn pending_len(pending: Seq<u8>) -> nat {
    if pending.len() <= RADIO_BUF_LEN {
        pending.len()
    } else {
        RADIO_BUF_LEN as nat
    }
}

/// Pending bytes were moved to the front of the transmit buffer: as many
/// as go to the radio at once, oldest first; the rest stays pending, and
/// the rest of the buffer is as it was.
pub open spec fn moved_to_radio(
    pending: Seq<u8>,
    pending_after: Seq<u8>,
    buf: Seq<u8>,
    buf_after: Seq<u8>,
) -> bool {
    let n = pending_len(pending) as int;
    &&& pending_after == pending.skip(n)
    &&& buf_after == pending.take(n) + buf.skip(n)
}

/// Moves pending bytes to the front of `out`, oldest first, until nothing
/// is pending or `out` is full, and returns their number.
pub fn drain_tx_pending(pending: &mut CacheQueue, out: &mut [u8; 256]) -> (n: usize)
    ensures
        n == pending_len(queue_bytes(*old(pending))),
        moved_to_radio(
            queue_bytes(*old(pending)),
            queue_bytes(*final(pending)),
            old(out)@,
            final(out)@,
        ),
{
    let ghost before = queue_bytes(*pending);
    let mut n: usize = 0;
    proof {
        assert(before.skip(0) =~= before);
        assert(out@ =~= before.take(0) + old(out)@.skip(0));
    }
    while n < RADIO_BUF_LEN
        invariant
            n <= RADIO_BUF_LEN,
            n <= before.len(),
            before == queue_bytes(*old(pending)),
            queue_bytes(*pending) == before.skip(n as int),
            out@ == before.take(n as int) + old(out)@.skip(n as int),
        ensures
            n == pending_len(before),
            queue_bytes(*pending) == before.skip(n as int),
            out@ == before.take(n as int) + old(out)@.skip(n as int),
        decreases RADIO_BUF_LEN - n,
    {
        match queue_dequeue(pending) {
            Some(b) => {
                out[n] = b;
                proof {
                    assert(before.skip(n as int).skip(1) =~= before.skip(n + 1));
                    assert(out@ =~= before.take(n + 1) + old(out)@.skip(n + 1));
                }
                n += 1;
            },
            None => {
                break;
            },
        }
    }
    n
}

} // verus!
