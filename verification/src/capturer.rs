//! The capturer: one configured capture session and its packet channel.

use crate::engine::{CaptureSession, SessionView};
use crate::error::SavePcapError;
use crate::naming::{file_name, file_name_of};
use crate::options::{PacketSource, PcapCaptureOptions};
use crate::packet::{PacketRecord, Timestamp, UserPacket};
use crate::source::{lists_device, validate_source};
use crate::trusted::{
    clone_sender, elapsed_since, join_path, local_time_text, open_channel, receive, whole_seconds,
};
use std::path::PathBuf;
use std::sync::mpsc::{Receiver, Sender};
use std::time::SystemTime;
use vstd::prelude::*;

verus! {

/// A capture session that has been configured and not yet run. When the packets come
/// from the application it owns the channel they arrive on.
pub struct PcapCapturer {
    options: PcapCaptureOptions,
    packet_receiver: Option<Receiver<UserPacket>>,
    packet_sender: Option<Sender<UserPacket>>,
}

impl PcapCapturer {
    /// The options the capturer was made with.
    pub closed spec fn spec_options(&self) -> &PcapCaptureOptions {
        &self.options
    }

    /// The packets of the session come from the application.
    pub open spec fn has_channel(&self) -> bool {
        self.options().packet_source is UserProvided
    }

    /// The capturer still holds its own sending handle: no session has begun and the
    /// packets come from the application.
    pub closed spec fn holds_sender(&self) -> bool {
        self.packet_sender is Some
    }

    /// The receiving end exists exactly when the packets come from the application, and
    /// a sending handle is kept for no other source.
    #[verifier::type_invariant]
    spec fn channel_matches_source(self) -> bool {
        &&& self.packet_receiver is Some <==> self.options.packet_source is UserProvided
        &&& self.packet_sender is Some ==> self.options.packet_source is UserProvided
    }

    /// Makes a capturer for `options`. A channel is opened exactly when the packets are
    /// to come from the application.
    pub fn new(options: PcapCaptureOptions) -> (capturer: Self)
        ensures
            *capturer.options() == options,
            capturer.holds_sender() <==> options.packet_source is UserProvided,
    {
        match options.packet_source {
            PacketSource::UserProvided => {
                let (sender, receiver) = open_channel();
                PcapCapturer {
                    options,
                    packet_receiver: Some(receiver),
                    packet_sender: Some(sender),
                }
            },
            PacketSource::NetworkDevice(_) => PcapCapturer {
                options,
                packet_receiver: None,
                packet_sender: None,
            },
        }
    }

    /// The options the capturer was made with.
    #[verifier::when_used_as_spec(spec_options)]
    pub fn options(&self) -> (options: &PcapCaptureOptions)
        ensures
            options == self.options(),
    {
        &self.options
    }

    /// A handle to push packets with. There is one while the packets come from the
    /// application and the session has not begun; more producers clone it.
    pub fn get_packet_sender(&self) -> (sender: Option<Sender<UserPacket>>)
        ensures
            sender is Some <==> self.holds_sender(),
            sender is Some ==> self.has_channel(),
    {
        proof {
            use_type_invariant(self);
        }
        match &self.packet_sender {
            Some(sender) => Some(clone_sender(sender)),
            None => None,
        }
    }

    /// Checks the configured source against the devices that are present.
    pub fn validate_source(&self, devices: &Vec<String>) -> (checked: Result<(), SavePcapError>)
        ensures
            checked is Ok <==> (self.options().packet_source matches PacketSource::NetworkDevice(
                name,
            ) ==> lists_device(devices@, name@)),
            checked matches Err(e) ==> self.options().packet_source
                matches PacketSource::NetworkDevice(name) && e matches SavePcapError::InvalidDevice(
                reported,
            ) && reported@ == name@,
    {
        validate_source(&self.options.packet_source, devices)
    }

    /// Names the next output file after the current local time and places it in the
    /// output directory. The file itself is not created.
    pub fn create_new_file(&self) -> (file: Result<(String, PathBuf), SavePcapError>)
        ensures
            file matches Ok(named) && exists|stamp: Seq<char>|
                named.0@ == file_name_of(
                    self.options().file_prefix@,
                    stamp,
                    self.options().file_format,
                ),
    {
        let stamp = local_time_text("%Y%m%d_%H%M%S");
        let name = file_name(
            self.options.file_prefix.as_str(),
            stamp.as_str(),
            self.options.file_format,
        );
        let full_path = join_path(self.options.file_path.as_str(), name.as_str());
        assert(name@ == file_name_of(
            self.options().file_prefix@,
            stamp@,
            self.options().file_format,
        ));
        Ok((name, full_path))
    }

    /// Decides whether a file created at `file_creation_time`, holding
    /// `current_packet_count` packets and `current_file_size_bytes` payload bytes, is due
    /// for rollover now. The age of the file is read from the system clock; when the
    /// clock cannot tell it, the age threshold does not trigger.
    pub fn check_needs_rollover(
        &self,
        current_packet_count: usize,
        current_file_size_bytes: u64,
        file_creation_time: &SystemTime,
    ) -> (due: bool)
        ensures
            exists|elapsed: Option<u64>|
                due == self.options().policy().due(
                    current_packet_count as nat,
                    current_file_size_bytes as nat,
                    elapsed,
                ),
            self.options().policy().count_reached(current_packet_count as nat) ==> due,
            self.options().policy().size_reached(current_file_size_bytes as nat) ==> due,
            self.options().rollover_time_seconds is None ==> due == self.options().policy().due(
                current_packet_count as nat,
                current_file_size_bytes as nat,
                None,
            ),
    {
        let elapsed = Self::file_age(file_creation_time);
        self.options.rollover_policy().needs_rollover(
            current_packet_count,
            current_file_size_bytes,
            elapsed,
        )
    }

    /// Age in whole seconds of a file created at `file_creation_time`, `None` when the
    /// system clock has gone back behind that time.
    pub fn file_age(file_creation_time: &SystemTime) -> Option<u64> {
        match elapsed_since(file_creation_time) {
            Some(span) => Some(whole_seconds(&span)),
            None => None,
        }
    }

    /// Starts the engine of a session with these options, its first file just opened.
    /// The capturer lets go of its own sending handle, so that the source ends when
    /// the producers have dropped theirs.
    pub fn begin_session(&mut self) -> (session: CaptureSession)
        ensures
            session@ == SessionView::start(
                old(self).options().continuous_capture,
                old(self).options().packet_limit,
                old(self).options().policy(),
            ),
            session@.inv(),
            final(self).options() == old(self).options(),
            !final(self).holds_sender(),
    {
        proof {
            use_type_invariant(&*self);
        }
        self.packet_sender = None;
        CaptureSession::start(
            self.options.continuous_capture,
            self.options.packet_limit,
            self.options.rollover_policy(),
        )
    }

    /// Blocks for the next packet from the application and makes its record, stamped with
    /// the current time when the packet carries none. `None` once every sender is gone,
    /// and at once when the capturer has no channel.
    pub fn next_user_packet(&self) -> (record: Option<PacketRecord>)
        ensures
            !self.has_channel() ==> record is None,
            record matches Some(r) ==> r.orig_len == PacketRecord::length_field(r.data@.len()),
    {
        proof {
            use_type_invariant(self);
        }
        match &self.packet_receiver {
            Some(receiver) => match receive(receiver) {
                Some(packet) => Some(PacketRecord::from_user(packet, Timestamp::now())),
                None => None,
            },
            None => None,
        }
    }
}

} // verus!
