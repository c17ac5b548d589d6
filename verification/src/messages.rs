//! Messages that guests ask the host to log.

use vstd::prelude::*;

use crate::error::HostError;
use crate::text::{guest_text, read_guest_text};

verus! {

/// The message for a string at which the guest points: the string after a label.
pub open spec fn log_message(label: Seq<char>, string: Option<Vec<u8>>) -> Result<
    Seq<char>,
    HostError,
> {
    match guest_text(string) {
        Some(text) => Ok(label + text),
        None => Err(HostError::StringNotReadable),
    }
}

/// The text of a message.
pub open spec fn logged(message: Result<String, HostError>) -> Result<Seq<char>, HostError> {
    match message {
        Ok(message) => Ok(message@),
        Err(err) => Err(err),
    }
}

/// Makes the message for a string at which the guest points.
pub fn message(label: &str, string: Option<Vec<u8>>) -> (res: Result<String, HostError>)
    ensures
        logged(res) == log_message(label@, string),
{
    match read_guest_text(string) {
        Some(text) => {
            let mut message = label.to_owned();
            message.append(text.as_str());
            Ok(message)
        },
        None => Err(HostError::StringNotReadable),
    }
}

} // verus!
