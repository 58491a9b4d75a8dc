//! Errors surfaced by a capture session.

use vstd::prelude::*;

verus! {

/// Why a capture session failed. Low-level failures are carried as their message text.
#[derive(Debug, Clone)]
pub enum SavePcapError {
    /// The capture source reported a failure.
    PcapError(String),
    /// A filesystem or stream operation failed.
    IoError(String),
    /// The named interface is not among the available devices.
    InvalidDevice(String),
    /// The output directory could not be created.
    DirectoryCreationFailed(String),
    /// The session was cancelled.
    CaptureInterrupted,
    /// The container writer rejected a header or a packet record.
    PcapFileError(String),
}

impl SavePcapError {
    /// The text shown for this error: a fixed label followed by the carried detail.
    pub open spec fn message_spec(self) -> Seq<char> {
        match self {
            SavePcapError::PcapError(detail) => "Pcap error: "@ + detail@,
            SavePcapError::IoError(detail) => "IO error: "@ + detail@,
            SavePcapError::InvalidDevice(name) => "Invalid device name: "@ + name@,
            SavePcapError::DirectoryCreationFailed(detail) => "Directory creation failed: "@
                + detail@,
            SavePcapError::CaptureInterrupted => "Capture interrupted"@,
            SavePcapError::PcapFileError(detail) => "Pcap file error: "@ + detail@,
        }
    }

    /// The error for an output directory that could not be created: it names the
    /// directory and the cause.
    pub fn directory_creation_failed(directory: &str, cause: &str) -> (error: SavePcapError)
        ensures
            error matches SavePcapError::DirectoryCreationFailed(detail) && detail@
                == "Failed to create directory: "@ + directory@ + ", error: "@ + cause@,
    {
        SavePcapError::DirectoryCreationFailed(
            "Failed to create directory: ".to_owned().concat(directory).concat(", error: ").concat(
                cause,
            ),
        )
    }

    /// Renders the error as text.
    pub fn message(&self) -> (text: String)
        ensures
            text@ == self.message_spec(),
    {
        match self {
            SavePcapError::PcapError(detail) => "Pcap error: ".to_owned().concat(detail.as_str()),
            SavePcapError::IoError(detail) => "IO error: ".to_owned().concat(detail.as_str()),
            SavePcapError::InvalidDevice(name) => "Invalid device name: ".to_owned().concat(
                name.as_str(),
            ),
            SavePcapError::DirectoryCreationFailed(detail) => "Directory creation failed: "
                .to_owned().concat(detail.as_str()),
            SavePcapError::CaptureInterrupted => "Capture interrupted".to_owned(),
            SavePcapError::PcapFileError(detail) => "Pcap file error: ".to_owned().concat(
                detail.as_str(),
            ),
        }
    }
}

} // verus!
