//! Calls into the standard library's clock, channels and paths and into `chrono`.
//!
//! Nothing in this file is proved: each contract states what the documentation of the
//! function called promises, and no more. Values of the declared types are opaque and
//! are only carried from one call to the next.

use crate::packet::UserPacket;
use std::path::PathBuf;
use std::sync::mpsc::{Receiver, Sender};
use std::time::{Duration, SystemTime};
use vstd::prelude::*;

verus! {

/// `std::time::SystemTime`, a reading of the system clock.
#[verifier::external_type_specification]
#[verifier::external_body]
pub struct ExSystemTime(std::time::SystemTime);

/// `std::path::PathBuf`, an owned filesystem path.
#[verifier::external_type_specification]
#[verifier::external_body]
pub struct ExPathBuf(std::path::PathBuf);

/// `std::sync::mpsc::Sender`, the producing end of a channel.
#[verifier::external_type_specification]
#[verifier::external_body]
#[verifier::reject_recursive_types(T)]
pub struct ExSender<T>(std::sync::mpsc::Sender<T>);

/// `std::sync::mpsc::Receiver`, the consuming end of a channel.
#[verifier::external_type_specification]
#[verifier::external_body]
#[verifier::reject_recursive_types(T)]
pub struct ExReceiver<T>(std::sync::mpsc::Receiver<T>);

/// `SystemTime::now`: the current reading of the system clock. Nothing is claimed of it.
#[verifier::external_body]
pub(crate) fn system_now() -> SystemTime {
    SystemTime::now()
}

/// `SystemTime::elapsed`: the time that has passed since `since`, or `None` when the
/// clock has gone back behind it. Nothing is claimed of the amount.
#[verifier::external_body]
pub(crate) fn elapsed_since(since: &SystemTime) -> Option<Duration> {
    since.elapsed().ok()
}

/// `SystemTime::duration_since` with `UNIX_EPOCH`: the time between the epoch and
/// `instant`, or `None` when `instant` lies before the epoch.
#[verifier::external_body]
pub(crate) fn since_unix_epoch(instant: &SystemTime) -> Option<Duration> {
    instant.duration_since(std::time::UNIX_EPOCH).ok()
}

/// `Duration::as_secs`: the whole seconds of a duration.
#[verifier::external_body]
pub(crate) fn whole_seconds(span: &Duration) -> u64 {
    span.as_secs()
}

/// `Duration::subsec_nanos`: the part of a duration below one second, in nanoseconds.
/// The standard library documents it as less than one second.
#[verifier::external_body]
pub(crate) fn subsecond_nanos(span: &Duration) -> (nanos: u32)
    ensures
        nanos < 1_000_000_000,
{
    span.subsec_nanos()
}

/// `std::sync::mpsc::channel`: a new channel for application packets.
#[verifier::external_body]
pub(crate) fn open_channel() -> (Sender<UserPacket>, Receiver<UserPacket>) {
    std::sync::mpsc::channel()
}

/// `Sender::clone`: another producing handle on the same channel.
#[verifier::external_body]
pub(crate) fn clone_sender(sender: &Sender<UserPacket>) -> Sender<UserPacket> {
    sender.clone()
}

/// `Receiver::recv`: blocks for the next packet; `None` once every producing handle is
/// gone and the channel is empty. Which packet arrives depends on the producers.
#[verifier::external_body]
pub(crate) fn receive(receiver: &Receiver<UserPacket>) -> Option<UserPacket> {
    receiver.recv().ok()
}

/// `Path::join`: the path of `name` inside `directory`, by the rules of the platform.
#[verifier::external_body]
pub(crate) fn join_path(directory: &str, name: &str) -> PathBuf {
    std::path::Path::new(directory).join(name)
}

/// `chrono::Local::now` followed by `DateTime::format`, rendered to a string: the
/// current date and time in the machine's time zone, for the one pattern this crate
/// uses (year, month, day, an underscore, hour, minute, second). The text depends on
/// the clock and the time zone, so nothing is claimed of it.
#[verifier::external_body]
pub(crate) fn local_time_text(pattern: &str) -> String
    requires
        pattern@ == "%Y%m%d_%H%M%S"@,
{
    chrono::Local::now().format(pattern).to_string()
}

} // verus!
