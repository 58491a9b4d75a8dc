//! Configuration of one capture session.

use crate::rollover::RolloverPolicy;
use vstd::prelude::*;

verus! {

/// Container format selected for the output files.
#[derive(Debug, Clone, Copy, PartialEq, Eq, Structural)]
pub enum FileFormat {
    Pcap,
    PcapNg,
}

/// Where the packets of a session come from.
#[derive(Debug, Clone)]
pub enum PacketSource {
    /// A live capture on the named network interface.
    NetworkDevice(String),
    /// Packets pushed by the application through a channel.
    UserProvided,
}

/// Immutable configuration of one capture session.
pub struct PcapCaptureOptions {
    pub packet_source: PacketSource,
    pub file_prefix: String,
    pub file_path: String,
    pub file_format: FileFormat,
    /// Ceiling on the number of packets written over the whole session.
    pub packet_limit: Option<usize>,
    pub snaplen: i32,
    pub timeout_ms: i32,
    /// When false, exactly one file is written and the rollover thresholds are ignored.
    pub continuous_capture: bool,
    pub rollover_time_seconds: Option<u64>,
    pub rollover_packet_count: Option<usize>,
    pub rollover_file_size_mb: Option<u64>,
}

impl PcapCaptureOptions {
    /// The rollover thresholds of these options.
    pub open spec fn policy(self) -> RolloverPolicy {
        RolloverPolicy {
            max_age_seconds: self.rollover_time_seconds,
            max_packets: self.rollover_packet_count,
            max_size_mb: self.rollover_file_size_mb,
        }
    }

    /// The rollover thresholds of these options.
    pub fn rollover_policy(&self) -> (policy: RolloverPolicy)
        ensures
            policy == self.policy(),
    {
        RolloverPolicy {
            max_age_seconds: self.rollover_time_seconds,
            max_packets: self.rollover_packet_count,
            max_size_mb: self.rollover_file_size_mb,
        }
    }
}

impl Default for PcapCaptureOptions {
    fn default() -> (options: Self)
        ensures
            options.packet_source matches PacketSource::NetworkDevice(name) && name@.len() == 0,
            options.file_prefix@ == "capture"@,
            options.file_path@ == "."@,
            options.file_format == FileFormat::Pcap,
            options.packet_limit is None,
            options.snaplen == 65535,
            options.timeout_ms == 1000,
            !options.continuous_capture,
            options.rollover_time_seconds is None,
            options.rollover_packet_count is None,
            options.rollover_file_size_mb is None,
    {
        PcapCaptureOptions {
            packet_source: PacketSource::NetworkDevice(String::new()),
            file_prefix: "capture".to_owned(),
            file_path: ".".to_owned(),
            file_format: FileFormat::Pcap,
            packet_limit: None,
            snaplen: 65535,
            timeout_ms: 1000,
            continuous_capture: false,
            rollover_time_seconds: None,
            rollover_packet_count: None,
            rollover_file_size_mb: None,
        }
    }
}

} // verus!
