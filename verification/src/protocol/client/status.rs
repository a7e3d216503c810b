use vstd::prelude::*;
use crate::protocol::bytebuf::{encode_i64, encode_string, put_i64, put_string};
use crate::protocol::ClientPacket;

verus! {

/// Answers a status request with the server's description, as JSON.
pub struct CStatusResponse<'a> {
    pub json_response: &'a str,
}

impl<'a> CStatusResponse<'a> {
    pub fn new(json_response: &'a str) -> (p: Self)
        ensures
            p.json_response == json_response,
    {
        Self { json_response }
    }
}

impl<'a> ClientPacket for CStatusResponse<'a> {
    open spec fn packet_id() -> i32 {
        0x00
    }

    open spec fn fields(&self) -> Seq<u8> {
        encode_string(self.json_response@)
    }

    fn id() -> (id: i32) {
        0x00
    }

    fn write(&self, buf: &mut Vec<u8>) {
        put_string(buf, self.json_response);
    }
}

/// Answers a ping with the number the client sent.
pub struct CPingResponse {
    pub payload: i64,
}

impl CPingResponse {
    pub fn new(payload: i64) -> (p: Self)
        ensures
            p.payload == payload,
    {
        Self { payload }
    }
}

impl ClientPacket for CPingResponse {
    open spec fn packet_id() -> i32 {
        0x01
    }

    open spec fn fields(&self) -> Seq<u8> {
        encode_i64(self.payload)
    }

    fn id() -> (id: i32) {
        0x01
    }

    fn write(&self, buf: &mut Vec<u8>) {
        put_i64(buf, self.payload);
    }
}

} // verus!
