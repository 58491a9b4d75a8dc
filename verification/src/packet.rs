//! Packets as they travel from a source to the container writer.

use crate::trusted::{since_unix_epoch, subsecond_nanos, system_now, whole_seconds};
use vstd::prelude::*;

verus! {

/// Nanoseconds in one second.
pub const NANOS_PER_SEC: u32 = 1_000_000_000;

/// Microseconds in one second.
pub const MICROS_PER_SEC: i64 = 1_000_000;

/// Number of distinct values of a 32-bit length field.
pub const LEN_FIELD_MODULUS: u64 = 0x1_0000_0000;

/// A capture instant: whole seconds since the Unix epoch plus a nanosecond remainder.
#[derive(Debug, Clone, Copy, PartialEq, Eq, Structural)]
pub struct Timestamp {
    pub secs: u64,
    pub nanos: u32,
}

impl Timestamp {
    /// The remainder is less than one second.
    pub open spec fn is_normalized(self) -> bool {
        self.nanos < NANOS_PER_SEC
    }

    /// The instant `tv_sec` seconds and `tv_usec` microseconds after the epoch, when
    /// neither is negative.
    pub open spec fn of_timeval(tv_sec: i64, tv_usec: i64) -> Option<Timestamp> {
        if tv_sec >= 0 && tv_usec >= 0 {
            Some(
                Timestamp {
                    secs: (tv_sec + tv_usec / MICROS_PER_SEC) as u64,
                    nanos: ((tv_usec % MICROS_PER_SEC) * 1000) as u32,
                },
            )
        } else {
            None
        }
    }

    /// The current time of the system clock, counted from the Unix epoch; the epoch
    /// itself when the clock stands before it.
    pub fn now() -> (stamp: Timestamp)
        ensures
            stamp.is_normalized(),
    {
        let instant = system_now();
        let offset = match since_unix_epoch(&instant) {
            Some(span) => Some((whole_seconds(&span), subsecond_nanos(&span))),
            None => None,
        };
        Self::after_epoch(offset)
    }

    /// The instant that lies `offset` after the Unix epoch, the offset given as whole
    /// seconds and a nanosecond remainder; the epoch itself when there is no offset.
    pub open spec fn of_epoch_offset(offset: Option<(u64, u32)>) -> Timestamp {
        match offset {
            Some(parts) => Timestamp { secs: parts.0, nanos: parts.1 },
            None => Timestamp { secs: 0, nanos: 0 },
        }
    }

    /// Makes the time stamp of a clock reading from its offset to the Unix epoch. A
    /// reading that lies before the epoch has no offset and is stamped as the epoch.
    pub fn after_epoch(offset: Option<(u64, u32)>) -> (stamp: Timestamp)
        ensures
            stamp == Self::of_epoch_offset(offset),
    {
        match offset {
            Some((secs, nanos)) => Timestamp { secs, nanos },
            None => Timestamp { secs: 0, nanos: 0 },
        }
    }

    /// Converts a device timestamp given in seconds and microseconds. The microseconds
    /// are scaled to nanoseconds; whole seconds among them carry into the seconds.
    /// A negative part gives `None`.
    pub fn from_timeval(tv_sec: i64, tv_usec: i64) -> (stamp: Option<Timestamp>)
        ensures
            stamp == Self::of_timeval(tv_sec, tv_usec),
            stamp matches Some(t) ==> t.is_normalized() && t.nanos % 1000 == 0 && t.secs
                * MICROS_PER_SEC + t.nanos / 1000 == tv_sec * MICROS_PER_SEC + tv_usec,
    {
        if tv_sec < 0 || tv_usec < 0 {
            return None;
        }
        let carry: i64 = tv_usec / MICROS_PER_SEC;
        let rest: i64 = tv_usec % MICROS_PER_SEC;
        let secs: u64 = tv_sec as u64 + carry as u64;
        let nanos: u32 = (rest * 1000) as u32;
        Some(Timestamp { secs, nanos })
    }
}

/// A packet handed in by the application.
#[derive(Debug)]
pub struct UserPacket {
    pub data: Vec<u8>,
    /// Capture instant; the time of receipt is used when absent.
    pub timestamp: Option<Timestamp>,
}

/// One unit ready to be appended to a capture file.
#[derive(Debug)]
pub struct PacketRecord {
    pub timestamp: Timestamp,
    /// Length of the packet on the wire, as stored in the 32-bit record field.
    pub orig_len: u32,
    pub data: Vec<u8>,
}

impl PacketRecord {
    /// The value a 32-bit length field takes for a payload of `len` bytes.
    pub open spec fn length_field(len: nat) -> u32 {
        (len % LEN_FIELD_MODULUS as nat) as u32
    }

    /// Number of payload bytes, the amount by which a file grows in the accounting.
    pub open spec fn payload_len(self) -> nat {
        self.data@.len()
    }

    /// Builds the record for a payload captured in full at `timestamp`.
    pub fn new(timestamp: Timestamp, data: Vec<u8>) -> (record: PacketRecord)
        ensures
            record.timestamp == timestamp,
            record.data == data,
            record.orig_len == Self::length_field(data@.len()),
    {
        let len: u64 = data.len() as u64;
        let orig_len: u32 = (len % LEN_FIELD_MODULUS) as u32;
        PacketRecord { timestamp, orig_len, data }
    }

    /// Builds the record for an application packet received at `now`: the packet's own
    /// timestamp is kept when it has one, otherwise `now` is used.
    pub fn from_user(packet: UserPacket, now: Timestamp) -> (record: PacketRecord)
        ensures
            record.timestamp == (match packet.timestamp {
                Some(t) => t,
                None => now,
            }),
            record.data == packet.data,
            record.orig_len == Self::length_field(packet.data@.len()),
    {
        let timestamp = match packet.timestamp {
            Some(t) => t,
            None => now,
        };
        Self::new(timestamp, packet.data)
    }

    /// Builds the record for a packet read from a device, whose header carries the
    /// capture time as seconds and microseconds. `None` when the time is negative.
    pub fn from_capture(tv_sec: i64, tv_usec: i64, data: Vec<u8>) -> (record: Option<PacketRecord>)
        ensures
            record is Some <==> tv_sec >= 0 && tv_usec >= 0,
            record matches Some(r) ==> Some(r.timestamp) == Timestamp::of_timeval(tv_sec, tv_usec)
                && r.data == data && r.orig_len == Self::length_field(data@.len()),
    {
        match Timestamp::from_timeval(tv_sec, tv_usec) {
            Some(timestamp) => Some(Self::new(timestamp, data)),
            None => None,
        }
    }
}

} // verus!
