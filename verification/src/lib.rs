//! Packet capture to pcap files with time-, count- and size-based rollover.
//!
//! The crate holds the rules of a capture session: how options are read, how
//! output files are named, when the current file is rolled over, and how the
//! session counters evolve from one packet to the next. Reading packets from a
//! device and writing records to disk is left to the caller, which drives a
//! [`CaptureSession`] with what it observed and carries out what it is told.

pub mod capturer;
pub mod engine;
pub mod error;
pub mod naming;
pub mod options;
pub mod packet;
pub mod rollover;
pub mod source;
mod trusted;

pub use capturer::PcapCapturer;
pub use engine::{CaptureSession, Directive, Outcome, Phase, Verdict};
pub use error::SavePcapError;
pub use options::{FileFormat, PacketSource, PcapCaptureOptions};
pub use packet::{PacketRecord, Timestamp, UserPacket};
pub use rollover::RolloverPolicy;
