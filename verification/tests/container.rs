use pcap_file::pcap::{PcapPacket, PcapReader, PcapWriter};
use save_pcap::{PacketRecord, Timestamp, UserPacket};
use std::time::Duration;

fn write_all(records: &[PacketRecord]) -> Vec<u8> {
    let mut writer = PcapWriter::new(Vec::new()).unwrap();
    for record in records {
        let stamp = Duration::new(record.timestamp.secs, record.timestamp.nanos);
        writer.write_packet(&PcapPacket::new(stamp, record.orig_len, &record.data)).unwrap();
    }
    writer.into_writer()
}

#[test]
fn records_read_back_with_payload_and_microsecond_time() {
    let records = vec![
        PacketRecord::from_capture(1_700_000_000, 123_456, vec![0x11; 64]).unwrap(),
        PacketRecord::from_user(
            UserPacket { data: vec![1, 2, 3, 4, 5], timestamp: Some(Timestamp { secs: 9, nanos: 999_999_999 }) },
            Timestamp { secs: 0, nanos: 0 },
        ),
        PacketRecord::from_user(
            UserPacket { data: Vec::new(), timestamp: None },
            Timestamp { secs: 77, nanos: 1_500 },
        ),
    ];
    let image = write_all(&records);
    assert_eq!(image.len(), 24 + (16 + 64) + (16 + 5) + 16);
    let mut reader = PcapReader::new(&image[..]).unwrap();
    for record in &records {
        let packet = reader.next_packet().unwrap().unwrap();
        assert_eq!(&packet.data[..], &record.data[..]);
        assert_eq!(packet.orig_len, record.orig_len);
        assert_eq!(packet.timestamp.as_secs(), record.timestamp.secs);
        assert_eq!(packet.timestamp.subsec_micros(), record.timestamp.nanos / 1_000);
    }
    assert!(reader.next_packet().is_none());
}

#[test]
fn device_time_survives_the_container_exactly() {
    let record = PacketRecord::from_capture(1_700_000_000, 999_999, vec![0xAB; 10]).unwrap();
    let image = write_all(std::slice::from_ref(&record));
    let mut reader = PcapReader::new(&image[..]).unwrap();
    let packet = reader.next_packet().unwrap().unwrap();
    assert_eq!(packet.timestamp, Duration::new(record.timestamp.secs, record.timestamp.nanos));
}
