//! A second, minimal reader of Binary Asset files: it checks that the stream holds a first
//! 32-bit value and reports the end of the stream.

use vstd::prelude::*;

use crate::bytes::{DataError, Endian, Reader};
use crate::common::Version;

verus! {

/// Error conditions of this reader.
#[derive(Clone, Copy, Debug, PartialEq, Eq, Structural)]
pub enum Error {
    /// Thrown if trying to read the file out of its current bounds.
    EndOfFile,
    /// Thrown if the header contains a magic number other than "pbj\0\n\r".
    InvalidMagic,
}

impl Error {
    /// The error that a failed read becomes.
    pub fn from(error: DataError) -> (r: Error)
        requires
            error == DataError::EndOfFile,
        ensures
            r == Error::EndOfFile,
    {
        Error::EndOfFile
    }
}

/// A Binary Asset held in memory.
pub struct BinaryAsset {
    pub data: Vec<u8>,
}

/// Latest revision of the BAM format.
pub open spec fn current_version() -> Version {
    Version { major: 6, minor: 45 }
}

/// Earliest supported revision of the BAM format.
pub open spec fn minimum_version() -> Version {
    Version { major: 6, minor: 14 }
}

impl BinaryAsset {
    /// Latest revision of the BAM format.
    pub fn current_version() -> (v: Version)
        ensures
            v == current_version(),
    {
        Version { major: 6, minor: 45 }
    }

    /// Earliest supported revision of the BAM format.
    pub fn minimum_version() -> (v: Version)
        ensures
            v == minimum_version(),
    {
        Version { major: 6, minor: 14 }
    }

    /// Reads the first 32-bit value of the stream; loading then stops at the end of the
    /// stream, so every input gives `EndOfFile`.
    pub fn load(input: Vec<u8>) -> (r: Result<BinaryAsset, Error>)
        ensures
            r is Err && r->Err_0 == Error::EndOfFile,
    {
        let mut data = Reader::new(input.as_slice(), Endian::Little);
        match data.read_u32() {
            Ok(_) => {},
            Err(e) => return Err(Error::from(e)),
        }
        Err(Error::EndOfFile)
    }
}

} // verus!
