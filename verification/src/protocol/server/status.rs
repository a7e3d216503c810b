use vstd::prelude::*;
use crate::components::{read_i64, Read, ReadByteBuffer};
use crate::error::DeserializerError;

verus! {

/// Asks for the server's description. It has no fields.
#[derive(Debug, Clone, Copy)]
pub struct SStatusRequest {}

impl SStatusRequest {
    pub const PACKET_ID: i32 = 0x00;

    pub fn read(bytebuf: &mut ReadByteBuffer) -> (r: Result<Self, DeserializerError>)
        ensures
            r is Ok,
            final(bytebuf)@ == old(bytebuf)@,
    {
        Ok(Self {  })
    }
}

/// A ping: a number that the server sends back.
#[derive(Debug, Clone, Copy, PartialEq, Eq, Structural)]
pub struct SStatusPingRequest {
    pub payload: i64,
}

impl SStatusPingRequest {
    pub const PACKET_ID: i32 = 0x01;

    /// A ping is one 64-bit number.
    pub open spec fn parse(s: Seq<u8>) -> Read<SStatusPingRequest> {
        match read_i64(s) {
            (Ok(payload), rest) => (Ok(SStatusPingRequest { payload }), rest),
            (Err(e), rest) => (Err(e), rest),
        }
    }

    pub fn read(bytebuf: &mut ReadByteBuffer) -> (r: Result<Self, DeserializerError>)
        ensures
            (r, final(bytebuf)@) == Self::parse(old(bytebuf)@),
    {
        let payload = bytebuf.get_i64()?;
        Ok(Self { payload })
    }
}

} // verus!
