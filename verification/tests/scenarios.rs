use heapless::spsc::Queue;
use lplora::constants::CacheQueue;
use lplora::dispatch::{dispatch, finish_command, CommandKind};
use lplora::misc::enqueue_ditch_oldest;
use lplora::packet::uart_pkt_decoder::UartPacketDecoder;
use lplora::packet::uart_pkt_encoder::UartPacketEncoder;
use lplora::packet::{slip_dequeue, UartPacketError, UartPacketType};
use lplora::radio::RadioOp;
use lplora::radio_task::{IrqAction, RadioController, RadioState, RfSwitch};
use lplora::serial::{next_tx_byte, receive_byte};
use lplora::subghz::LoraPacketStatus;

struct Device {
    ctrl: RadioController,
    uart_rx: CacheQueue,
    uart_tx: CacheQueue,
    radio_tx_pending: CacheQueue,
    performed: Vec<RadioOp>,
    radio_ok: bool,
}

fn device() -> Device {
    let mut ctrl = RadioController::new();
    ctrl.complete_setup(true);
    Device {
        ctrl,
        uart_rx: Queue::new(),
        uart_tx: Queue::new(),
        radio_tx_pending: Queue::new(),
        performed: Vec::new(),
        radio_ok: true,
    }
}

fn host_sends(dev: &mut Device, bytes: &[u8]) -> Vec<Result<CommandKind, UartPacketError>> {
    let mut seen = Vec::new();
    for b in bytes {
        match receive_byte(&mut dev.uart_rx, *b) {
            None => {}
            Some(Err(e)) => seen.push(Err(e)),
            Some(Ok(pkt)) => {
                let plan = dispatch(&pkt, &mut dev.radio_tx_pending);
                dev.performed.extend_from_slice(&plan.ops);
                finish_command(&mut dev.ctrl, plan.kind, dev.radio_ok, &mut dev.uart_tx);
                seen.push(Ok(plan.kind));
            }
        }
    }
    seen
}

fn host_receives(dev: &mut Device) -> Vec<u8> {
    let mut out = Vec::new();
    while let Some(b) = next_tx_byte(&mut dev.uart_tx) {
        out.push(b);
    }
    out
}

fn frame(kind: UartPacketType, payload: &[u8]) -> Vec<u8> {
    let mut q: CacheQueue = Queue::new();
    UartPacketEncoder::encode_packet(kind, payload, &mut q);
    let mut out = Vec::new();
    while let Some(b) = q.dequeue() {
        out.push(b);
    }
    out
}

const PING: [u8; 7] = [0xa5, 0x00, 0x03, 0x00, 0x68, 0x2a, 0xc0];
const PONG: [u8; 7] = [0xa5, 0x80, 0x03, 0x00, 0x84, 0x26, 0xc0];
const ACK: [u8; 7] = [0xa5, 0x83, 0x03, 0x00, 0xe0, 0xc9, 0xc0];
const NACK: [u8; 7] = [0xa5, 0x84, 0x03, 0x00, 0xe5, 0x45, 0xc0];

#[test]
fn ping_is_answered_with_pong() {
    let mut dev = device();
    assert_eq!(host_sends(&mut dev, &PING), vec![Ok(CommandKind::Ping)]);
    let reply = host_receives(&mut dev);
    assert_eq!(reply, PONG.to_vec());
    let mut q: CacheQueue = Queue::new();
    for b in &reply {
        enqueue_ditch_oldest(&mut q, *b);
    }
    let pkt = UartPacketDecoder::new(&mut q).unwrap();
    assert_eq!(pkt.get_type(), UartPacketType::Pong);
    assert_eq!(pkt.get_payload_len(), 3);
    assert!(dev.performed.is_empty());
}

#[test]
fn frequency_in_range_is_acked_and_out_of_range_nacked() {
    let mut dev = device();
    let seen = host_sends(&mut dev, &frame(UartPacketType::RadioFreqConfig, &[0x00, 0x40, 0x83, 0x36]));
    assert_eq!(seen, vec![Ok(CommandKind::Tune)]);
    assert_eq!(host_receives(&mut dev), ACK.to_vec());
    assert_eq!(
        dev.performed,
        vec![
            RadioOp::SetRfFrequency { hz: 914_571_264 },
            RadioOp::CalibrateImage { freq1_mhz: 908, freq2_mhz: 916 },
        ]
    );
    dev.performed.clear();
    let before = dev.ctrl;
    let seen = host_sends(&mut dev, &frame(UartPacketType::RadioFreqConfig, &[0, 0, 0, 0]));
    assert_eq!(seen, vec![Ok(CommandKind::Rejected)]);
    assert_eq!(host_receives(&mut dev), NACK.to_vec());
    assert!(dev.performed.is_empty());
    assert_eq!(dev.ctrl, before);
}

#[test]
fn radio_failure_is_nacked_and_changes_nothing() {
    let mut dev = device();
    dev.radio_ok = false;
    let before = dev.ctrl;
    let seen = host_sends(&mut dev, &frame(UartPacketType::RadioRecvStart, &[0x88, 0x13, 0, 0]));
    assert_eq!(seen, vec![Ok(CommandKind::StartRx { timeout_bits: 320_000 })]);
    assert_eq!(host_receives(&mut dev), NACK.to_vec());
    assert_eq!(dev.ctrl, before);
}

#[test]
fn lora_loopback() {
    let mut dev = device();
    let config = [16, 0, 1, 24, 1, 0, 0x0a, 0x04, 0x01, 0, 0x24, 0x34];
    let seen = host_sends(&mut dev, &frame(UartPacketType::RadioLoraConfig, &config));
    assert_eq!(seen, vec![Ok(CommandKind::EnterStandby)]);
    assert_eq!(host_receives(&mut dev), ACK.to_vec());
    assert_eq!(dev.ctrl.state, RadioState::Standby);

    let data: Vec<u8> = (0..24u8).collect();
    let seen = host_sends(&mut dev, &frame(UartPacketType::RadioSend, &data));
    assert_eq!(seen, vec![Ok(CommandKind::Send)]);
    assert_eq!(host_receives(&mut dev), ACK.to_vec());

    let mut tx_buf = [0u8; 256];
    let plan = dev.ctrl.handle_irq(0, &mut dev.radio_tx_pending, &mut tx_buf);
    assert_eq!(plan.action, IrqAction::StartPendingTx);
    assert_eq!(plan.ops[0], RadioOp::WriteBuffer { offset: 0, len: 24 });
    assert_eq!(&tx_buf[..24], &data[..]);
    assert_eq!(dev.ctrl.rf_switch, RfSwitch::Transmit);

    let mut peer = device();
    let mut rx_buf = [0u8; 256];
    let plan = peer.ctrl.handle_irq(0x0002, &mut peer.radio_tx_pending, &mut rx_buf);
    assert_eq!(plan.action, IrqAction::ReadPacket);
    assert_eq!(peer.ctrl.rf_switch, RfSwitch::Isolated);
    let status = LoraPacketStatus { raw: [0x54, 70, 36, 72] };
    let (ops, pend_serial_tx) =
        peer.ctrl.packet_read(0x0002, status, &tx_buf[..24], &mut peer.uart_tx);
    assert_eq!(ops, vec![RadioOp::SetRx { timeout_bits: 320_000 }]);
    assert!(pend_serial_tx);
    assert_eq!(peer.ctrl.rf_switch, RfSwitch::Receive);
    assert_eq!(peer.ctrl.state, RadioState::Rx { timeout_bits: 320_000 });

    let wire = host_receives(&mut peer);
    let rssi: i16 = -36;
    let snr: i16 = 9;
    let mut covered = vec![0xc1, 0x1c, 0x00];
    covered.extend_from_slice(&rssi.to_le_bytes());
    covered.extend_from_slice(&snr.to_le_bytes());
    covered.extend_from_slice(&data);
    let crc = crc::Crc::<u16>::new(&crc::CRC_16_KERMIT).checksum(&covered);
    let mut q: CacheQueue = Queue::new();
    for b in &wire {
        enqueue_ditch_oldest(&mut q, *b);
    }
    let mut body = [0u8; 64];
    assert_eq!(slip_dequeue(&mut q, &mut body), Ok(33));
    assert_eq!(&body[..31], &covered[..]);
    assert_eq!(&body[31..33], &crc.to_le_bytes());
}

#[test]
fn truncated_frame_is_discarded() {
    let mut dev = device();
    assert_eq!(host_sends(&mut dev, &[0xa5, 0x00, 0x03, 0x00]), vec![]);
    assert_eq!(host_sends(&mut dev, &PING), vec![Ok(CommandKind::Ping)]);
    assert_eq!(host_receives(&mut dev), PONG.to_vec());
    assert!(dev.uart_rx.is_empty());
}

#[test]
fn noise_between_frames_is_discarded() {
    let mut dev = device();
    assert_eq!(host_sends(&mut dev, &[0x13, 0x37, 0xdb, 0x00]), vec![]);
    assert_eq!(host_sends(&mut dev, &PING), vec![Ok(CommandKind::Ping)]);
    assert_eq!(host_sends(&mut dev, &[0x01, 0x02]), vec![]);
    assert_eq!(host_sends(&mut dev, &PING), vec![Ok(CommandKind::Ping)]);
    let mut twice = PONG.to_vec();
    twice.extend_from_slice(&PONG);
    assert_eq!(host_receives(&mut dev), twice);
}

#[test]
fn end_byte_without_a_frame_is_reported() {
    let mut dev = device();
    assert_eq!(host_sends(&mut dev, &[0x01, 0xc0]), vec![Err(UartPacketError::CorruptedError)]);
    assert!(host_receives(&mut dev).is_empty());
}

#[test]
fn corrupted_frame_gets_no_reply() {
    let mut dev = device();
    let mut bad = PING;
    bad[4] ^= 0x01;
    assert_eq!(host_sends(&mut dev, &bad), vec![Err(UartPacketError::CorruptedError)]);
    assert!(host_receives(&mut dev).is_empty());
    assert_eq!(host_sends(&mut dev, &PING), vec![Ok(CommandKind::Ping)]);
}

#[test]
fn reply_queue_overflow_drops_the_oldest() {
    let mut dev = device();
    let bytes: Vec<u8> = (0..1026u32).map(|i| (i % 251) as u8).collect();
    for b in &bytes {
        enqueue_ditch_oldest(&mut dev.uart_tx, *b);
    }
    assert_eq!(dev.uart_tx.len(), 1024);
    assert_eq!(host_receives(&mut dev), bytes[2..].to_vec());
}

#[test]
fn unsupported_kinds_are_nacked() {
    let mut dev = device();
    for kind in [
        UartPacketType::Pong,
        UartPacketType::Ack,
        UartPacketType::Nack,
        UartPacketType::RadioReceivedPacket,
    ] {
        assert_eq!(host_sends(&mut dev, &frame(kind, &[])), vec![Ok(CommandKind::Rejected)]);
        assert_eq!(host_receives(&mut dev), NACK.to_vec());
    }
}

#[test]
fn restart_gets_no_reply() {
    let mut dev = device();
    assert_eq!(
        host_sends(&mut dev, &frame(UartPacketType::Restart, &[])),
        vec![Ok(CommandKind::Restart)]
    );
    assert!(host_receives(&mut dev).is_empty());
}

#[test]
fn sleep_and_idle() {
    let mut dev = device();
    host_sends(&mut dev, &frame(UartPacketType::RadioGoSleep, &[]));
    assert_eq!(dev.ctrl.state, RadioState::Sleep);
    assert_eq!(host_receives(&mut dev), ACK.to_vec());
    host_sends(&mut dev, &frame(UartPacketType::RadioGoIdle, &[]));
    assert_eq!(dev.ctrl.state, RadioState::Standby);
    assert_eq!(host_receives(&mut dev), ACK.to_vec());
    host_sends(&mut dev, &frame(UartPacketType::RadioRecvStart, &[0, 0, 0, 0]));
    assert_eq!(dev.ctrl.state, RadioState::Rx { timeout_bits: 0 });
    assert_eq!(dev.ctrl.rf_switch, RfSwitch::Receive);
    assert_eq!(host_receives(&mut dev), ACK.to_vec());
}
