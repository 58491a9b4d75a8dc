use save_pcap::naming::file_name;
use save_pcap::source::{classify_capture_error, contains_bytes, device_is_listed, validate_source};
use save_pcap::{FileFormat, Outcome, PacketSource, SavePcapError};

#[test]
fn file_name_joins_prefix_stamp_and_extension() {
    assert_eq!(file_name("capture", "20240102_030405", FileFormat::Pcap), "capture_20240102_030405.pcap");
    assert_eq!(
        file_name("user_packets", "19991231_235959", FileFormat::PcapNg),
        "user_packets_19991231_235959.pcapng"
    );
    assert_eq!(file_name("", "", FileFormat::Pcap), "_.pcap");
}

#[test]
fn extension_follows_the_format() {
    assert_eq!(FileFormat::Pcap.extension(), "pcap");
    assert_eq!(FileFormat::PcapNg.extension(), "pcapng");
}

#[test]
fn substring_search_finds_a_word_anywhere() {
    assert!(contains_bytes(b"a timeout", b"timeout"));
    assert!(contains_bytes(b"timeout", b"timeout"));
    assert!(contains_bytes(b"timeouts happen", b"timeout"));
    assert!(contains_bytes(b"xxtimeoutxx", b"timeout"));
    assert!(contains_bytes(b"anything", b""));
    assert!(contains_bytes(b"", b""));
    assert!(!contains_bytes(b"", b"timeout"));
    assert!(!contains_bytes(b"timeou", b"timeout"));
    assert!(!contains_bytes(b"timeouT", b"timeout"));
    assert!(!contains_bytes(b"time out", b"timeout"));
    assert!(contains_bytes(b"tititimeout", b"timeout"));
}

#[test]
fn timeout_messages_are_not_failures() {
    assert_eq!(
        classify_capture_error("timeout expired while reading from a live capture"),
        Outcome::Timeout
    );
    assert_eq!(classify_capture_error("read timeout"), Outcome::Timeout);
    assert_eq!(classify_capture_error("no more packets to read from the file"), Outcome::SourceError);
    assert_eq!(classify_capture_error("Timeout"), Outcome::SourceError);
    assert_eq!(classify_capture_error(""), Outcome::SourceError);
}

#[test]
fn device_lookup_compares_whole_names() {
    let devices = vec!["lo".to_string(), "eth0".to_string(), "wlan0".to_string()];
    assert!(device_is_listed(&devices, &"eth0".to_string()));
    assert!(device_is_listed(&devices, &"lo".to_string()));
    assert!(device_is_listed(&devices, &"wlan0".to_string()));
    assert!(!device_is_listed(&devices, &"eth".to_string()));
    assert!(!device_is_listed(&devices, &"eth00".to_string()));
    assert!(!device_is_listed(&Vec::new(), &"eth0".to_string()));
}

#[test]
fn invalid_device_is_reported_by_name() {
    let devices = vec!["lo".to_string(), "eth0".to_string()];
    let missing = PacketSource::NetworkDevice("eth9".to_string());
    match validate_source(&missing, &devices) {
        Err(SavePcapError::InvalidDevice(name)) => assert_eq!(name, "eth9"),
        other => panic!("unexpected result: {:?}", other),
    }
    assert!(validate_source(&PacketSource::NetworkDevice("eth0".to_string()), &devices).is_ok());
    assert!(validate_source(&PacketSource::UserProvided, &Vec::new()).is_ok());
}

#[test]
fn error_messages_carry_label_and_detail() {
    assert_eq!(SavePcapError::PcapError("boom".to_string()).message(), "Pcap error: boom");
    assert_eq!(SavePcapError::IoError("disk full".to_string()).message(), "IO error: disk full");
    assert_eq!(SavePcapError::InvalidDevice("eth9".to_string()).message(), "Invalid device name: eth9");
    assert_eq!(
        SavePcapError::DirectoryCreationFailed("denied".to_string()).message(),
        "Directory creation failed: denied"
    );
    assert_eq!(SavePcapError::CaptureInterrupted.message(), "Capture interrupted");
    assert_eq!(SavePcapError::PcapFileError("bad".to_string()).message(), "Pcap file error: bad");
}

#[test]
fn directory_failure_names_directory_and_cause() {
    let error = SavePcapError::directory_creation_failed("/data/out", "permission denied");
    assert_eq!(
        error.message(),
        "Directory creation failed: Failed to create directory: /data/out, error: permission denied"
    );
}
