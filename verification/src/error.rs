//! Error taxonomy of the node runtime.
//!
//! Transport failures and handshake violations are fatal to the runtime;
//! a handler's own errors are confined to the handler invocation that
//! raised them.

use vstd::prelude::*;

verus! {

/// A wire error code, written as a fixed integer in error payloads. Never
/// generated by the runtime itself for application errors, but decodable.
#[derive(Debug, Clone, Copy, PartialEq, Eq, Structural)]
pub enum ErrorCode {
    Timeout,
    NodeNotFound,
    NotSupported,
    TemporarilyUnavailable,
    MalformedRequest,
    Crash,
    Abort,
    KeyDoesNotExist,
    KeyAlreadyExists,
    PreconditionFailed,
    TxnConflict,
}

/// The integer each error code is written as on the wire.
pub open spec fn wire_code(c: ErrorCode) -> u64 {
    match c {
        ErrorCode::Timeout => 0,
        ErrorCode::NodeNotFound => 1,
        ErrorCode::NotSupported => 10,
        ErrorCode::TemporarilyUnavailable => 11,
        ErrorCode::MalformedRequest => 12,
        ErrorCode::Crash => 13,
        ErrorCode::Abort => 14,
        ErrorCode::KeyDoesNotExist => 20,
        ErrorCode::KeyAlreadyExists => 21,
        ErrorCode::PreconditionFailed => 22,
        ErrorCode::TxnConflict => 30,
    }
}

/// No two error codes share a wire integer.
pub proof fn lemma_wire_code_injective(a: ErrorCode, b: ErrorCode)
    requires
        wire_code(a) == wire_code(b),
    ensures
        a == b,
{
}

impl ErrorCode {
    /// The integer this code is written as on the wire.
    pub fn code(&self) -> (r: u64)
        ensures
            r == wire_code(*self),
    {
        match self {
            ErrorCode::Timeout => 0,
            ErrorCode::NodeNotFound => 1,
            ErrorCode::NotSupported => 10,
            ErrorCode::TemporarilyUnavailable => 11,
            ErrorCode::MalformedRequest => 12,
            ErrorCode::Crash => 13,
            ErrorCode::Abort => 14,
            ErrorCode::KeyDoesNotExist => 20,
            ErrorCode::KeyAlreadyExists => 21,
            ErrorCode::PreconditionFailed => 22,
            ErrorCode::TxnConflict => 30,
        }
    }

    /// The error code a wire integer denotes, if any.
    pub fn from_code(code: u64) -> (r: Option<ErrorCode>)
        ensures
            match r {
                Some(c) => wire_code(c) == code,
                None => forall|c: ErrorCode| wire_code(c) != code,
            },
    {
        match code {
            0 => Some(ErrorCode::Timeout),
            1 => Some(ErrorCode::NodeNotFound),
            10 => Some(ErrorCode::NotSupported),
            11 => Some(ErrorCode::TemporarilyUnavailable),
            12 => Some(ErrorCode::MalformedRequest),
            13 => Some(ErrorCode::Crash),
            14 => Some(ErrorCode::Abort),
            20 => Some(ErrorCode::KeyDoesNotExist),
            21 => Some(ErrorCode::KeyAlreadyExists),
            22 => Some(ErrorCode::PreconditionFailed),
            30 => Some(ErrorCode::TxnConflict),
            _ => None,
        }
    }
}

/// A violation of the runtime's own protocol, as opposed to an error of the
/// transport or of a protocol handler.
#[derive(Debug, Clone, PartialEq)]
pub enum InternalError {
    /// End of input arrived before the handshake message.
    Eof,
    /// A handshake request arrived after the node was already initialized.
    UnexpectedInit,
    /// The node was queried before the handshake completed.
    NeedsInit,
    /// A free-form condition not otherwise classified.
    Whatever { message: String },
}

/// An error of the runtime, generic over the protocol handler's own error
/// type `E`.
#[derive(Debug, Clone, PartialEq)]
#[allow(inconsistent_fields)]
pub enum Error<E> {
    /// A failure reading or writing the byte stream, described in words.
    Io { message: String },
    /// An error raised by the protocol handler.
    Node { source: E },
    /// A violation of the runtime's own protocol.
    Internal { source: InternalError },
    /// A free-form condition not otherwise classified.
    Whatever { message: String },
}

} // verus!
