use vstd::prelude::*;

verus! {

/// Failure while serialising a message.
#[derive(Clone, Copy, Debug, PartialEq, Eq, Structural)]
pub enum EncodeError {
    /// A single option, together with its two-byte header, would exceed the
    /// 2040 bytes that an eight-bit length field in eight-byte units can
    /// describe.
    OptionTooLong,
}

/// Failure while parsing a buffer as an NDP message.
#[derive(Clone, Copy, Debug, PartialEq, Eq, Structural)]
pub enum DecodeError {
    /// Fewer bytes than the fixed header of the message kind requires.
    TooShort,
    /// The leading ICMPv6 type byte names none of the four handled kinds.
    UnknownType,
    /// An option header is truncated, declares length zero, or claims more
    /// bytes than remain in the buffer.
    MalformedOption,
}

/// Failure reported by the channel that carries packets; the core never
/// retries it, only surfaces it.
#[derive(Clone, Debug, PartialEq, Eq)]
pub struct TransportError {
    pub message: String,
}

/// Failure of one of the request/response procedures.
#[derive(Clone, Debug, PartialEq, Eq)]
pub enum ProcedureError {
    /// No packet arrived before the bounded wait elapsed.
    NoResponse,
    /// A packet arrived but was not the message kind the procedure awaited.
    UnexpectedMessage,
    /// A router advertisement arrived without a prefix information option.
    MissingPrefixInformation,
    /// An option in the reply is malformed or too short for its kind.
    MalformedOption,
    /// The channel itself failed.
    Transport(TransportError),
}

} // verus!
