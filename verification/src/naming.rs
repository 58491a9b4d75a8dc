//! Names of the output files.

use crate::options::FileFormat;
use vstd::prelude::*;

verus! {

impl FileFormat {
    /// The file extension that goes with the format.
    pub open spec fn extension_spec(self) -> Seq<char> {
        match self {
            FileFormat::Pcap => "pcap"@,
            FileFormat::PcapNg => "pcapng"@,
        }
    }

    /// The file extension that goes with the format.
    pub fn extension(&self) -> (ext: &'static str)
        ensures
            ext@ == self.extension_spec(),
    {
        match self {
            FileFormat::Pcap => "pcap",
            FileFormat::PcapNg => "pcapng",
        }
    }
}

/// The name of an output file: the prefix, an underscore, the time stamp, a dot and the
/// extension of the format.
pub open spec fn file_name_of(prefix: Seq<char>, stamp: Seq<char>, format: FileFormat) -> Seq<
    char,
> {
    prefix + "_"@ + stamp + "."@ + format.extension_spec()
}

/// Builds the name of the output file opened at the time that `stamp` renders.
pub fn file_name(prefix: &str, stamp: &str, format: FileFormat) -> (name: String)
    ensures
        name@ == file_name_of(prefix@, stamp@, format),
{
    prefix.to_owned().concat("_").concat(stamp).concat(".").concat(format.extension())
}

} // verus!
