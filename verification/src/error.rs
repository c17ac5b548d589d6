//! The ways in which a host call stops the guest that made it.

use vstd::prelude::*;

verus! {

/// Why a request to use gas was refused.
#[derive(Clone, Copy, Debug, PartialEq, Eq, Structural)]
pub enum GasError {
    /// The gas in use would be more than the transaction may use.
    LimitExceeded,
    /// The gas in use would be more than the meter can count.
    Overflow,
}

/// Why a host call stops the guest. The guest does not get an answer.
#[derive(Clone, Copy, Debug, PartialEq, Eq, Structural)]
pub enum HostError {
    /// The key is not UTF-8 text within the guest's memory, or the data of a match is not within it.
    KeyNotReadable,
    /// The prefix is not UTF-8 text within the guest's memory.
    PrefixNotReadable,
    /// The value is not within the guest's memory.
    ValueNotReadable,
    /// The string to log is not UTF-8 text within the guest's memory.
    StringNotReadable,
    /// The text is not a storage key.
    KeyNotParsed,
    /// The text of the prefix is not a storage key.
    PrefixNotParsed,
    /// The storage could not be read.
    StorageReadFailed,
    /// A key that the storage holds is not UTF-8 text.
    StoredKeyNotText,
    /// A key value pair is too long to be serialized.
    KeyValNotSerialized,
    /// The length of the data is more than the guest's signed result can hold.
    DataLengthOverflow,
    /// The guest asked for gas that it may not use.
    Gas(GasError),
}

impl HostError {
    /// The message that [`HostError::message`] gives.
    pub open spec fn spec_message(self) -> Seq<char> {
        match self {
            HostError::KeyNotReadable => "Cannot read the key from memory"@,
            HostError::PrefixNotReadable => "Cannot read the prefix from memory"@,
            HostError::ValueNotReadable => "Cannot read the value from memory"@,
            HostError::StringNotReadable => "Cannot read the string from memory"@,
            HostError::KeyNotParsed => "Cannot parse the key string"@,
            HostError::PrefixNotParsed => "Cannot parse the prefix string"@,
            HostError::StorageReadFailed => "storage read failed"@,
            HostError::StoredKeyNotText => "Cannot convert from bytes to key string"@,
            HostError::KeyValNotSerialized => "cannot serialize the key value pair"@,
            HostError::DataLengthOverflow => "data length overflow"@,
            HostError::Gas(GasError::LimitExceeded) => "gas limit exceeded"@,
            HostError::Gas(GasError::Overflow) => "gas overflow"@,
        }
    }

    /// What to report when the guest is stopped.
    pub fn message(&self) -> (message: &'static str)
        ensures
            message@ == self.spec_message(),
    {
        match self {
            HostError::KeyNotReadable => "Cannot read the key from memory",
            HostError::PrefixNotReadable => "Cannot read the prefix from memory",
            HostError::ValueNotReadable => "Cannot read the value from memory",
            HostError::StringNotReadable => "Cannot read the string from memory",
            HostError::KeyNotParsed => "Cannot parse the key string",
            HostError::PrefixNotParsed => "Cannot parse the prefix string",
            HostError::StorageReadFailed => "storage read failed",
            HostError::StoredKeyNotText => "Cannot convert from bytes to key string",
            HostError::KeyValNotSerialized => "cannot serialize the key value pair",
            HostError::DataLengthOverflow => "data length overflow",
            HostError::Gas(GasError::LimitExceeded) => "gas limit exceeded",
            HostError::Gas(GasError::Overflow) => "gas overflow",
        }
    }
}

} // verus!
