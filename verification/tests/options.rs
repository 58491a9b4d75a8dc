use save_pcap::{FileFormat, PacketSource, PcapCaptureOptions, RolloverPolicy};

#[test]
fn test_pcap_capture_options_default() {
    let options = PcapCaptureOptions::default();
    assert_eq!(options.file_prefix, "capture");
    assert_eq!(options.file_path, ".");
    assert_eq!(options.snaplen, 65535);
    assert_eq!(options.timeout_ms, 1000);
}

#[test]
fn default_options_are_single_shot_on_an_unnamed_device() {
    let options = PcapCaptureOptions::default();
    assert!(matches!(&options.packet_source, PacketSource::NetworkDevice(name) if name.is_empty()));
    assert_eq!(options.file_format, FileFormat::Pcap);
    assert_eq!(options.packet_limit, None);
    assert!(!options.continuous_capture);
    assert_eq!(options.rollover_time_seconds, None);
    assert_eq!(options.rollover_packet_count, None);
    assert_eq!(options.rollover_file_size_mb, None);
}

#[test]
fn rollover_policy_is_read_from_the_options() {
    let options = PcapCaptureOptions {
        rollover_time_seconds: Some(30),
        rollover_packet_count: Some(20),
        rollover_file_size_mb: Some(5),
        ..PcapCaptureOptions::default()
    };
    assert_eq!(
        options.rollover_policy(),
        RolloverPolicy { max_age_seconds: Some(30), max_packets: Some(20), max_size_mb: Some(5) }
    );
    assert_eq!(PcapCaptureOptions::default().rollover_policy(), RolloverPolicy::unset());
}
