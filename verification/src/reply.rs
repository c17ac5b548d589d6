//! Answers to host calls: the number that the guest gets, and what is written to its memory.

use vstd::prelude::*;

use crate::error::HostError;

verus! {

/// Bytes to write to the guest's memory.
#[derive(Debug)]
pub struct MemoryWrite {
    /// Where the first byte goes.
    pub ptr: u64,
    pub bytes: Vec<u8>,
}

/// An answer of which the guest knows the length beforehand.
#[derive(Debug)]
pub struct HostReply {
    /// What the call returns: `1` on success, `0` where there is nothing.
    pub ret: u64,
    /// What is written to the guest's memory before the call returns.
    pub write: Option<MemoryWrite>,
}

/// An answer that tells the guest its length.
#[derive(Debug)]
pub struct VarlenReply {
    /// What the call returns: the length of the data, `-1` where there is nothing.
    pub ret: i64,
    /// What is written to the guest's memory before the call returns.
    pub write: Option<MemoryWrite>,
}

/// An answer of either form.
pub struct Reply {
    pub ret: int,
    /// Where bytes are written, and which.
    pub write: Option<(u64, Seq<u8>)>,
}

/// Where bytes are written to the guest's memory, and which.
pub open spec fn written(write: Option<MemoryWrite>) -> Option<(u64, Seq<u8>)> {
    match write {
        Some(write) => Some((write.ptr, write.bytes@)),
        None => None,
    }
}

impl View for HostReply {
    type V = Reply;

    open spec fn view(&self) -> Reply {
        Reply { ret: self.ret as int, write: written(self.write) }
    }
}

impl View for VarlenReply {
    type V = Reply;

    open spec fn view(&self) -> Reply {
        Reply { ret: self.ret as int, write: written(self.write) }
    }
}

/// The outcome of a call that answers with a [`HostReply`].
pub open spec fn outcome(res: Result<HostReply, HostError>) -> Result<Reply, HostError> {
    match res {
        Ok(reply) => Ok(reply@),
        Err(err) => Err(err),
    }
}

/// The outcome of a call that answers with a [`VarlenReply`].
pub open spec fn varlen_outcome(res: Result<VarlenReply, HostError>) -> Result<Reply, HostError> {
    match res {
        Ok(reply) => Ok(reply@),
        Err(err) => Err(err),
    }
}

/// The answer with data of which the guest knows the length, or with nothing.
pub open spec fn fixed_reply(
    data: Result<Option<Seq<u8>>, HostError>,
    result_ptr: u64,
) -> Result<Reply, HostError> {
    match data {
        Ok(Some(bytes)) => Ok(Reply { ret: 1, write: Some((result_ptr, bytes)) }),
        Ok(None) => Ok(Reply { ret: 0, write: None }),
        Err(err) => Err(err),
    }
}

/// The answer with data of any length, or with nothing.
pub open spec fn varlen_reply(
    data: Result<Option<Seq<u8>>, HostError>,
    result_ptr: u64,
) -> Result<Reply, HostError> {
    match data {
        Ok(Some(bytes)) => if bytes.len() <= i64::MAX {
            Ok(Reply { ret: bytes.len() as int, write: Some((result_ptr, bytes)) })
        } else {
            Err(HostError::DataLengthOverflow)
        },
        Ok(None) => Ok(Reply { ret: -1, write: None }),
        Err(err) => Err(err),
    }
}

/// What data of a host call holds.
pub open spec fn data_of(data: Result<Option<Vec<u8>>, HostError>) -> Result<
    Option<Seq<u8>>,
    HostError,
> {
    match data {
        Ok(Some(bytes)) => Ok(Some(bytes@)),
        Ok(None) => Ok(None),
        Err(err) => Err(err),
    }
}

/// Answers with data of which the guest knows the length, or with nothing.
pub fn answer(data: Result<Option<Vec<u8>>, HostError>, result_ptr: u64) -> (res: Result<
    HostReply,
    HostError,
>)
    ensures
        outcome(res) == fixed_reply(data_of(data), result_ptr),
        match data {
            Ok(Some(bytes)) => res == Ok::<HostReply, HostError>(
                HostReply { ret: 1, write: Some(MemoryWrite { ptr: result_ptr, bytes }) },
            ),
            Ok(None) => res == Ok::<HostReply, HostError>(HostReply { ret: 0, write: None }),
            Err(err) => res == Err::<HostReply, HostError>(err),
        },
{
    match data {
        Ok(Some(bytes)) => Ok(
            HostReply { ret: 1, write: Some(MemoryWrite { ptr: result_ptr, bytes }) },
        ),
        Ok(None) => Ok(HostReply { ret: 0, write: None }),
        Err(err) => Err(err),
    }
}

/// Answers with data of any length, or with nothing.
pub fn answer_varlen(data: Result<Option<Vec<u8>>, HostError>, result_ptr: u64) -> (res: Result<
    VarlenReply,
    HostError,
>)
    ensures
        varlen_outcome(res) == varlen_reply(data_of(data), result_ptr),
        match data {
            Ok(Some(bytes)) => if bytes@.len() <= i64::MAX {
                res == Ok::<VarlenReply, HostError>(
                    VarlenReply {
                        ret: bytes@.len() as i64,
                        write: Some(MemoryWrite { ptr: result_ptr, bytes }),
                    },
                )
            } else {
                res == Err::<VarlenReply, HostError>(HostError::DataLengthOverflow)
            },
            Ok(None) => res matches Ok(reply) && reply.ret == -1 && reply.write is None,
            Err(err) => res == Err::<VarlenReply, HostError>(err),
        },
{
    match data {
        Ok(Some(bytes)) => {
            let len: u64 = bytes.len() as u64;
            if len <= i64::MAX as u64 {
                Ok(
                    VarlenReply {
                        ret: len as i64,
                        write: Some(MemoryWrite { ptr: result_ptr, bytes }),
                    },
                )
            } else {
                Err(HostError::DataLengthOverflow)
            }
        },
        Ok(None) => Ok(VarlenReply { ret: -1, write: None }),
        Err(err) => Err(err),
    }
}

} // verus!
