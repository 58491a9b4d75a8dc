//! What a packet source reports, read as outcomes for the engine.

use crate::engine::Outcome;
use crate::error::SavePcapError;
use crate::options::PacketSource;
use vstd::prelude::*;
use vstd::string::*;

verus! {

/// `word` stands in `text` at position `at`.
pub open spec fn occurs_at(text: Seq<u8>, word: Seq<u8>, at: int) -> bool {
    0 <= at && at + word.len() <= text.len() && text.subrange(at, at + word.len()) == word
}

/// `word` stands somewhere in `text`.
pub open spec fn occurs_in(text: Seq<u8>, word: Seq<u8>) -> bool {
    exists|at: int| occurs_at(text, word, at)
}

/// The message of a capture failure that only says that the read timeout ran out:
/// it holds the word "timeout".
pub open spec fn is_timeout_message(message: &str) -> bool {
    occurs_in(message.spec_bytes(), "timeout".spec_bytes())
}

/// The name is among the devices.
pub open spec fn lists_device(devices: Seq<String>, name: Seq<char>) -> bool {
    exists|i: int| 0 <= i < devices.len() && (#[trigger] devices[i])@ == name
}

fn matches_at(text: &[u8], word: &[u8], at: usize) -> (hit: bool)
    requires
        at + word@.len() <= text@.len(),
    ensures
        hit == occurs_at(text@, word@, at as int),
{
    let size: usize = text.len();
    let mut k: usize = 0;
    while k < word.len()
        invariant
            k <= word@.len(),
            size == text@.len(),
            at + word@.len() <= text@.len(),
            forall|j: int| 0 <= j < k ==> text@[at + j] == word@[j],
        decreases word@.len() - k,
    {
        if text[at + k] != word[k] {
            assert(text@.subrange(at as int, at + word@.len())[k as int] == text@[at + k]);
            return false;
        }
        k += 1;
    }
    assert(text@.subrange(at as int, at + word@.len()) =~= word@);
    true
}

/// Tells whether `word` stands somewhere in `text`.
pub fn contains_bytes(text: &[u8], word: &[u8]) -> (found: bool)
    ensures
        found == occurs_in(text@, word@),
{
    if word.len() > text.len() {
        return false;
    }
    let last: usize = text.len() - word.len();
    let mut at: usize = 0;
    while at <= last
        invariant
            at <= last + 1,
            last == text@.len() - word@.len(),
            forall|i: int| 0 <= i < at ==> !occurs_at(text@, word@, i),
        decreases last + 1 - at,
    {
        if matches_at(text, word, at) {
            return true;
        }
        if at == last {
            return false;
        }
        at += 1;
    }
    false
}

/// Reads the message of a failed read from a device: a message that mentions a timeout
/// means that no packet arrived in time, any other is a failure of the source.
pub fn classify_capture_error(message: &str) -> (outcome: Outcome)
    ensures
        outcome == (if is_timeout_message(message) {
            Outcome::Timeout
        } else {
            Outcome::SourceError
        }),
{
    if contains_bytes(message.as_bytes(), "timeout".as_bytes()) {
        Outcome::Timeout
    } else {
        Outcome::SourceError
    }
}

/// Tells whether `name` is among `devices`.
pub fn device_is_listed(devices: &Vec<String>, name: &String) -> (listed: bool)
    ensures
        listed == lists_device(devices@, name@),
{
    let mut i: usize = 0;
    while i < devices.len()
        invariant
            i <= devices@.len(),
            forall|j: int| 0 <= j < i ==> (#[trigger] devices@[j])@ != name@,
        decreases devices@.len() - i,
    {
        if devices[i] == *name {
            return true;
        }
        i += 1;
    }
    false
}

/// Checks the source of a session against the devices that are present. A session fed
/// by the application needs no device; a session on a device needs its name among them.
pub fn validate_source(source: &PacketSource, devices: &Vec<String>) -> (checked: Result<
    (),
    SavePcapError,
>)
    ensures
        checked is Ok <==> (source matches PacketSource::NetworkDevice(name) ==> lists_device(
            devices@,
            name@,
        )),
        checked matches Err(e) ==> source matches PacketSource::NetworkDevice(name) && e
            matches SavePcapError::InvalidDevice(reported) && reported@ == name@,
{
    match source {
        PacketSource::UserProvided => Ok(()),
        PacketSource::NetworkDevice(name) => {
            if device_is_listed(devices, name) {
                Ok(())
            } else {
                Err(SavePcapError::InvalidDevice(name.clone()))
            }
        },
    }
}

} // verus!
