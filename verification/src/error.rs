//! Errors that the library's own logic reports.

use vstd::prelude::*;

verus! {

/// Errors of the library's own logic. Errors that come from the hardware
/// (task spawning, the flash peripheral, the RFID reader) are added around the
/// library by the code that drives the hardware.
#[derive(Clone, Copy, Debug, PartialEq, Eq, Structural)]
pub enum Error {
    /// `bits_to_indexes` did not have enough preallocated space.
    BitsToIndexesNotEnoughSpace,
    /// The bits-to-indexes map is full.
    BitsToIndexesFull,
    /// An output pin could not be set.
    CannotSetOutputState,
    /// An index was outside the valid range.
    IndexOutOfBounds,
    /// A value could not be formatted or serialized.
    FormatError,
    /// A stored block failed its length or checksum test.
    StorageCorrupted,
    /// Stored WiFi credentials are invalid.
    CredentialStorageCorrupted,
}

impl Error {
    /// A one-line description of the error.
    pub fn message(&self) -> (text: &'static str)
        ensures
            text@ == match self {
                Error::BitsToIndexesNotEnoughSpace => "bits_to_indexes does not have enough preallocated space"@,
                Error::BitsToIndexesFull => "BitsToIndexes is full"@,
                Error::CannotSetOutputState => "Error setting output state"@,
                Error::IndexOutOfBounds => "Index out of bounds"@,
                Error::FormatError => "Format error"@,
                Error::StorageCorrupted => "Stored data is corrupted"@,
                Error::CredentialStorageCorrupted => "WiFi credential storage is invalid"@,
            },
    {
        match self {
            Error::BitsToIndexesNotEnoughSpace => "bits_to_indexes does not have enough preallocated space",
            Error::BitsToIndexesFull => "BitsToIndexes is full",
            Error::CannotSetOutputState => "Error setting output state",
            Error::IndexOutOfBounds => "Index out of bounds",
            Error::FormatError => "Format error",
            Error::StorageCorrupted => "Stored data is corrupted",
            Error::CredentialStorageCorrupted => "WiFi credential storage is invalid",
        }
    }
}

/// A `Result` whose error is this library's [`Error`].
pub type Result<T> = core::result::Result<T, Error>;

} // verus!
