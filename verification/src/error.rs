use vstd::prelude::*;

verus! {

/// Why a value could not be read from a byte buffer.
#[derive(Debug, Clone, Copy, PartialEq, Eq, Structural)]
pub enum DeserializerError {
    /// The buffer ended before the value did.
    InsufficientBytes,
    /// Five bytes of a VarInt all carried the continuation bit.
    VarIntTooBig,
    /// Ten bytes of a VarLong all carried the continuation bit.
    VarLongTooBig,
    /// A string announced more bytes than the caller allows, or a negative
    /// number of them.
    StringTooLong,
    /// The bytes of a string are not UTF-8.
    InvalidUtf8,
    /// A list announced fewer than no items.
    NegativeLength,
}

impl DeserializerError {
    /// The text shown for this error.
    pub fn message(&self) -> (text: &'static str)
        ensures
            text@ == self.spec_message()@,
    {
        match self {
            DeserializerError::InsufficientBytes => "No bytes left to consume",
            DeserializerError::VarIntTooBig => "VarInt is too big",
            DeserializerError::VarLongTooBig => "VarLong is too big",
            DeserializerError::StringTooLong => "String length is bigger than max size",
            DeserializerError::InvalidUtf8 => "String is not valid UTF-8",
            DeserializerError::NegativeLength => "List length is negative",
        }
    }

    pub open spec fn spec_message(&self) -> &'static str {
        match self {
            DeserializerError::InsufficientBytes => "No bytes left to consume",
            DeserializerError::VarIntTooBig => "VarInt is too big",
            DeserializerError::VarLongTooBig => "VarLong is too big",
            DeserializerError::StringTooLong => "String length is bigger than max size",
            DeserializerError::InvalidUtf8 => "String is not valid UTF-8",
            DeserializerError::NegativeLength => "List length is negative",
        }
    }
}

/// Why a frame could not be written or taken apart.
#[derive(Debug, Clone, Copy, PartialEq, Eq, Structural)]
pub enum PacketError {
    /// The packet id is not one that the current state accepts.
    DecodeID,
    /// A length prefix, a data length or a packet id ran over five bytes.
    VarIntTooBig,
    /// The data length of a compressed frame does not match what the frame
    /// holds, or announces compressed data below the threshold.
    BadCompression,
    /// A frame announces more bytes than a frame may have, or fewer than none.
    FrameTooLarge,
    /// A frame ends before its data length or its packet id does.
    Truncated,
    /// The packet to send is longer than a frame may be.
    TooLong,
    /// The compressor failed on the packet to send.
    CompressionFailed,
}

/// Why a step of the login exchange was refused.
#[derive(Debug, Clone, Copy, PartialEq, Eq, Structural)]
pub enum LoginError {
    /// The plugin response answers another request than the one sent.
    MismatchedResponseId { got: i32, expected: i32 },
    /// The plugin response carries no data: the proxy does not forward.
    MissingResponseData,
    /// The plugin response is too short to hold a signature.
    InvalidResponseLength,
    /// A forwarding response arrived although the server does not expect one.
    InvalidState,
    /// The signature over the forwarded data is not the proxy's.
    InvalidSignature,
    /// The forwarded client address is neither an IPv4 nor an IPv6 address.
    InvalidRemoteAddress,
    /// The forwarded name is not the one the client logged in with.
    MismatchedUsernames,
}

/// Every way in which handling a client's packets can fail. Each of them ends
/// the connection.
#[derive(Debug, Clone, Copy, PartialEq, Eq)]
pub enum PacketIoError {
    Packet(PacketError),
    /// The socket failed.
    Io,
    Deserializer(DeserializerError),
    /// The private key could not decrypt what the client sent.
    Rsa,
    BadPacket(&'static str),
    /// The peer closed the connection, or is to be dropped without a warning.
    Disconnect,
    Login(LoginError),
}

} // verus!
