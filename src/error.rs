//! The ways a stream fails. Every one of them is fatal for the stream.

use vstd::prelude::*;

verus! {

#[derive(Clone, Copy, Debug, PartialEq, Eq, Structural)]
pub enum VmessError {
    /// The transport closed before the expected bytes arrived.
    UnexpectedEof,
    /// The response did not echo the verification byte of the request.
    InvalidRespV,
    /// The server asked to move the session to another port.
    DynamicPortNotSupported,
    /// A decrypted response header is shorter than its fixed fields.
    HeaderTooShort,
    /// A received chunk announces more than the largest chunk size.
    ChunkTooLarge,
    /// An AEAD tag did not authenticate a chunk or a header envelope.
    DecryptionFailed,
    /// The transport accepted no bytes while a chunk was pending.
    WriteZero,
    /// The security kind is none of the supported ones.
    Unsupported,
    /// The 16-bit chunk counter of one direction is used up.
    NonceExhausted,
}

impl VmessError {
    /// Whether the error belongs to the invalid-data family of the byte-stream
    /// error taxonomy.
    pub open spec fn is_invalid_data_spec(&self) -> bool {
        match self {
            VmessError::InvalidRespV | VmessError::DynamicPortNotSupported
            | VmessError::HeaderTooShort | VmessError::ChunkTooLarge
            | VmessError::DecryptionFailed => true,
            _ => false,
        }
    }

    pub fn is_invalid_data(&self) -> (r: bool)
        ensures
            r == self.is_invalid_data_spec(),
    {
        match self {
            VmessError::InvalidRespV | VmessError::DynamicPortNotSupported
            | VmessError::HeaderTooShort | VmessError::ChunkTooLarge
            | VmessError::DecryptionFailed => true,
            _ => false,
        }
    }
}

} // verus!
