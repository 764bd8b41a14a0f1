//! Host-link firmware core for a sub-GHz LoRa/GFSK transceiver: framing,
//! typed packets, radio configuration parsing, the radio state machine and
//! the command dispatcher, over bounded drop-oldest byte queues.
pub mod checksum;
pub mod constants;
pub mod dispatch;
pub mod misc;
pub mod packet;
pub mod radio;
pub mod radio_task;
pub mod serial;
pub mod subghz;
pub mod uid;
