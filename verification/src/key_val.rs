//! Key value pairs, in the form in which they are written to the guest's memory.

use borsh::BorshSerialize;
use vstd::prelude::*;
use vstd::utf8::encode_utf8;

use crate::error::HostError;

verus! {

/// A key of the storage with its value.
#[derive(Debug)]
pub struct KeyVal {
    pub key: String,
    pub val: Vec<u8>,
}

/// A length as four bytes, the least significant one first.
pub open spec fn length_bytes(len: nat) -> Seq<u8> {
    seq![
        (len % 0x100) as u8,
        (len / 0x100 % 0x100) as u8,
        (len / 0x1_0000 % 0x100) as u8,
        (len / 0x100_0000 % 0x100) as u8,
    ]
}

/// Bytes after their length.
pub open spec fn with_length(bytes: Seq<u8>) -> Seq<u8> {
    length_bytes(bytes.len()) + bytes
}

/// Whether a key value pair can be serialized: each of its lengths fits in four bytes.
pub open spec fn is_serializable(key: Seq<char>, val: Seq<u8>) -> bool {
    encode_utf8(key).len() <= u32::MAX && val.len() <= u32::MAX
}

/// The serialized form of a key value pair: the text of the key in UTF-8, then the value, each
/// after its length.
pub open spec fn key_val_bytes(key: Seq<char>, val: Seq<u8>) -> Seq<u8> {
    with_length(encode_utf8(key)) + with_length(val)
}

/// The error of `borsh`'s serialization, which the library only drops.
#[verifier::external_type_specification]
#[verifier::external_body]
pub struct ExIoError(std::io::Error);

/// `BorshSerialize::try_to_vec` of a tuple of a string and bytes. The members of a tuple are
/// serialized one after the other; a string as its UTF-8 bytes; bytes after their length as a
/// little-endian `u32`. It fails where a length does not fit in a `u32`, and not otherwise.
#[verifier::external_body]
fn borsh_pair(key: &String, val: &Vec<u8>) -> (res: Result<Vec<u8>, std::io::Error>)
    ensures
        res is Ok <==> is_serializable(key@, val@),
        res matches Ok(bytes) ==> bytes@ == key_val_bytes(key@, val@),
{
    (key, val).try_to_vec()
}

impl KeyVal {
    /// Serializes the pair.
    pub fn try_to_vec(&self) -> (res: Result<Vec<u8>, HostError>)
        ensures
            match res {
                Ok(bytes) => is_serializable(self.key@, self.val@) && bytes@ == key_val_bytes(
                    self.key@,
                    self.val@,
                ),
                Err(err) => !is_serializable(self.key@, self.val@) && err
                    == HostError::KeyValNotSerialized,
            },
    {
        match borsh_pair(&self.key, &self.val) {
            Ok(bytes) => Ok(bytes),
            Err(_) => Err(HostError::KeyValNotSerialized),
        }
    }
}

} // verus!
