//! The errors of a session.

use vstd::prelude::*;

verus! {

/// What can go wrong while a session is opened and while frames are encoded,
/// decoded and received on it.
///
/// Every variant is a condition of one connection; none of them is treated as
/// fatal by this library.
#[derive(Clone, Copy, Debug, PartialEq, Eq, Structural)]
pub enum Error {
    /// The underlying stream failed: it could not be connected, a read or a
    /// write on it failed, or it ended inside a frame.
    IOFailure,
    /// The TLS context of a session could not be built.
    TLSFailure,
    /// The TLS handshake did not lead to a session: the peers found no
    /// protocol in common, a certificate was not accepted, and the like.
    TLSHandshakeFailure,
    /// The header is truncated or malformed: it has fewer bytes than a header
    /// has, or it announces more payload than a frame can carry.
    FramingError,
    /// The opcode byte is not one that this protocol version defines.
    UnknownOpcode,
    /// The payload is longer than a frame can carry.
    MessageTooBig,
    /// The payload bytes do not decode to what the opcode calls for.
    InvalidEncoding,
}

impl Error {
    /// The text shown for this error.
    pub open spec fn spec_description(self) -> Seq<char> {
        match self {
            Error::IOFailure => "I/O error"@,
            Error::TLSFailure => "TLS error"@,
            Error::TLSHandshakeFailure => "TLS handshake error"@,
            Error::FramingError => "malformed frame"@,
            Error::UnknownOpcode => "unknown message type"@,
            Error::MessageTooBig => "message too long"@,
            Error::InvalidEncoding => "invalid UTF-8"@,
        }
    }

    /// A short description of this error, for display.
    pub fn description(&self) -> (text: &'static str)
        ensures
            text@ == self.spec_description(),
    {
        match self {
            Error::IOFailure => "I/O error",
            Error::TLSFailure => "TLS error",
            Error::TLSHandshakeFailure => "TLS handshake error",
            Error::FramingError => "malformed frame",
            Error::UnknownOpcode => "unknown message type",
            Error::MessageTooBig => "message too long",
            Error::InvalidEncoding => "invalid UTF-8",
        }
    }
}

} // verus!
