use vstd::prelude::*;
use crate::components::{read_i64, Read, ReadByteBuffer};
use crate::error::DeserializerError;

verus! {

/// Answers a keep-alive with the id the server sent.
#[derive(Debug, Clone, Copy, PartialEq, Eq, Structural)]
pub struct SKeepAlive {
    pub keep_alive_id: i64,
}

impl SKeepAlive {
    pub const PACKET_ID: i32 = 0x18;

    /// A keep-alive is one 64-bit number.
    pub open spec fn parse(s: Seq<u8>) -> Read<SKeepAlive> {
        match read_i64(s) {
            (Ok(keep_alive_id), rest) => (Ok(SKeepAlive { keep_alive_id }), rest),
            (Err(e), rest) => (Err(e), rest),
        }
    }

    pub fn read(bytebuf: &mut ReadByteBuffer) -> (r: Result<Self, DeserializerError>)
        ensures
            (r, final(bytebuf)@) == Self::parse(old(bytebuf)@),
    {
        let keep_alive_id = bytebuf.get_i64()?;
        Ok(Self { keep_alive_id })
    }
}

/// The player moved.
#[derive(Debug, Clone, Copy)]
pub struct SPlayerPosition {}

impl SPlayerPosition {
    pub const PACKET_ID: i32 = 0x1A;
}

/// The player moved and turned.
#[derive(Debug, Clone, Copy)]
pub struct SPlayerPositionRotation {}

impl SPlayerPositionRotation {
    pub const PACKET_ID: i32 = 0x1B;
}

} // verus!
