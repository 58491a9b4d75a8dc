use save_pcap::{
    Directive, FileFormat, Outcome, PacketSource, PcapCaptureOptions, PcapCapturer, Phase,
    SavePcapError, Timestamp, UserPacket, Verdict,
};
use std::path::Path;
use std::time::{Duration, SystemTime};

fn user_options() -> PcapCaptureOptions {
    PcapCaptureOptions {
        packet_source: PacketSource::UserProvided,
        file_prefix: "user_packets".to_string(),
        file_path: "out".to_string(),
        ..PcapCaptureOptions::default()
    }
}

#[test]
fn user_source_ends_when_every_producer_is_gone() {
    let mut capturer = PcapCapturer::new(user_options());
    let sender = capturer.get_packet_sender().unwrap();
    let second = sender.clone();
    let mut session = capturer.begin_session();
    for i in 0..10u8 {
        let handle = if i % 2 == 0 { &sender } else { &second };
        handle.send(UserPacket { data: vec![i; 64], timestamp: None }).unwrap();
    }
    drop(sender);
    drop(second);
    let mut payloads = Vec::new();
    let verdict = loop {
        assert_eq!(session.poll(None), Directive::Fetch);
        match capturer.next_user_packet() {
            Some(record) => {
                assert_eq!(record.orig_len, 64);
                assert!(record.timestamp.secs > 1_600_000_000);
                let len = record.data.len();
                payloads.push(record.data);
                assert_eq!(session.observe(Outcome::Written { len }), Verdict::Continue);
            }
            None => break session.observe(Outcome::Disconnected),
        }
    };
    assert_eq!(verdict, Verdict::Finish);
    assert_eq!(session.phase(), Phase::Terminated);
    assert_eq!(session.total(), 10);
    assert_eq!(session.file_packets(), 10);
    let expected: Vec<Vec<u8>> = (0..10u8).map(|i| vec![i; 64]).collect();
    assert_eq!(payloads, expected);
}

#[test]
fn user_packets_keep_their_timestamps_in_order() {
    let mut capturer = PcapCapturer::new(user_options());
    let sender = capturer.get_packet_sender().unwrap();
    let _session = capturer.begin_session();
    let stamp = Timestamp { secs: 42, nanos: 7 };
    sender.send(UserPacket { data: vec![1, 2], timestamp: Some(stamp) }).unwrap();
    sender.send(UserPacket { data: vec![3], timestamp: None }).unwrap();
    drop(sender);
    let first = capturer.next_user_packet().unwrap();
    assert_eq!(first.timestamp, stamp);
    assert_eq!(first.data, vec![1, 2]);
    assert_eq!(first.orig_len, 2);
    let second = capturer.next_user_packet().unwrap();
    assert_eq!(second.data, vec![3]);
    assert!(second.timestamp.nanos < 1_000_000_000);
    assert!(capturer.next_user_packet().is_none());
}

#[test]
fn sender_exists_only_for_user_source_and_before_the_session() {
    let mut device = PcapCapturer::new(PcapCaptureOptions::default());
    assert!(device.get_packet_sender().is_none());
    assert!(device.next_user_packet().is_none());
    let _ = device.begin_session();
    assert!(device.get_packet_sender().is_none());

    let mut user = PcapCapturer::new(user_options());
    assert!(user.get_packet_sender().is_some());
    assert!(user.get_packet_sender().is_some());
    let _ = user.begin_session();
    assert!(user.get_packet_sender().is_none());
    assert!(user.next_user_packet().is_none());
}

#[test]
fn producer_fails_once_the_capturer_is_gone() {
    let capturer = PcapCapturer::new(user_options());
    let sender = capturer.get_packet_sender().unwrap();
    assert!(sender.send(UserPacket { data: vec![1], timestamp: None }).is_ok());
    drop(capturer);
    assert!(sender.send(UserPacket { data: vec![2], timestamp: None }).is_err());
}

#[test]
fn capturer_keeps_its_options() {
    let mut capturer = PcapCapturer::new(PcapCaptureOptions {
        packet_limit: Some(7),
        continuous_capture: true,
        rollover_packet_count: Some(3),
        ..user_options()
    });
    assert_eq!(capturer.options().file_prefix, "user_packets");
    assert_eq!(capturer.options().packet_limit, Some(7));
    let mut session = capturer.begin_session();
    assert_eq!(capturer.options().packet_limit, Some(7));
    let mut rollovers = 0;
    loop {
        match session.poll(None) {
            Directive::Finish => break,
            Directive::Rollover => rollovers += 1,
            Directive::Fetch => {}
        }
        session.observe(Outcome::Written { len: 1 });
    }
    assert_eq!(session.total(), 7);
    assert_eq!(rollovers, 2);
    assert_eq!(session.file_packets(), 1);
}

#[test]
fn invalid_device_fails_before_anything_is_opened() {
    let capturer = PcapCapturer::new(PcapCaptureOptions {
        packet_source: PacketSource::NetworkDevice("no_such_device".to_string()),
        ..PcapCaptureOptions::default()
    });
    let devices = vec!["lo".to_string(), "eth0".to_string()];
    match capturer.validate_source(&devices) {
        Err(SavePcapError::InvalidDevice(name)) => assert_eq!(name, "no_such_device"),
        other => panic!("unexpected result: {:?}", other),
    }
    let present = PcapCapturer::new(PcapCaptureOptions {
        packet_source: PacketSource::NetworkDevice("eth0".to_string()),
        ..PcapCaptureOptions::default()
    });
    assert!(present.validate_source(&devices).is_ok());
    assert!(PcapCapturer::new(user_options()).validate_source(&Vec::new()).is_ok());
}

fn assert_file_name(name: &str, prefix: &str, extension: &str) {
    let head = format!("{}_", prefix);
    let tail = format!(".{}", extension);
    assert!(name.starts_with(&head));
    assert!(name.ends_with(&tail));
    let stamp = &name[head.len()..name.len() - tail.len()];
    assert_eq!(stamp.len(), 15);
    for (i, c) in stamp.chars().enumerate() {
        if i == 8 {
            assert_eq!(c, '_');
        } else {
            assert!(c.is_ascii_digit());
        }
    }
}

#[test]
fn new_file_is_named_after_prefix_time_and_format() {
    let capturer = PcapCapturer::new(user_options());
    let (name, path) = capturer.create_new_file().unwrap();
    assert_file_name(&name, "user_packets", "pcap");
    assert_eq!(path, Path::new("out").join(&name));

    let ng = PcapCapturer::new(PcapCaptureOptions { file_format: FileFormat::PcapNg, ..user_options() });
    let (name, path) = ng.create_new_file().unwrap();
    assert_file_name(&name, "user_packets", "pcapng");
    assert_eq!(path, Path::new("out").join(&name));
}

#[test]
fn rollover_check_reads_the_age_from_the_clock() {
    let capturer = PcapCapturer::new(PcapCaptureOptions {
        rollover_time_seconds: Some(30),
        rollover_packet_count: Some(20),
        rollover_file_size_mb: Some(1),
        ..user_options()
    });
    let now = SystemTime::now();
    let old = now.checked_sub(Duration::from_secs(100)).unwrap();
    let ahead = now.checked_add(Duration::from_secs(10_000)).unwrap();
    assert!(!capturer.check_needs_rollover(0, 0, &now));
    assert!(capturer.check_needs_rollover(0, 0, &old));
    assert!(!capturer.check_needs_rollover(19, 1_048_575, &ahead));
    assert!(capturer.check_needs_rollover(20, 0, &now));
    assert!(capturer.check_needs_rollover(0, 1_048_576, &ahead));
    let unset = PcapCapturer::new(user_options());
    assert!(!unset.check_needs_rollover(usize::MAX, u64::MAX, &old));
}

#[test]
fn file_age_is_in_whole_seconds() {
    let now = SystemTime::now();
    let old = now.checked_sub(Duration::from_millis(100_900)).unwrap();
    let age = PcapCapturer::file_age(&old).unwrap();
    assert!(age >= 100 && age < 110);
    let ahead = now.checked_add(Duration::from_secs(10_000)).unwrap();
    assert_eq!(PcapCapturer::file_age(&ahead), None);
}
