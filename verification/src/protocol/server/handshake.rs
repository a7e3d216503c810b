use vstd::prelude::*;
use crate::components::{read_string, read_u16, read_var_int, Read, ReadByteBuffer};
use crate::error::DeserializerError;
use crate::protocol::var_int::VarInt;
use crate::protocol::ConnectionState;

verus! {

/// The first packet of a connection: which protocol the client speaks, which
/// address it dialled, and what it wants.
#[derive(Debug, Clone)]
pub struct SHandShake {
    pub protocol_version: VarInt,
    pub server_address: String,
    pub server_port: u16,
    pub next_state: VarInt,
}

/// A handshake, with its text as a sequence of characters.
pub struct HandShakeView {
    pub protocol_version: VarInt,
    pub server_address: Seq<char>,
    pub server_port: u16,
    pub next_state: VarInt,
}

impl View for SHandShake {
    type V = HandShakeView;

    open spec fn view(&self) -> HandShakeView {
        HandShakeView {
            protocol_version: self.protocol_version,
            server_address: self.server_address@,
            server_port: self.server_port,
            next_state: self.next_state,
        }
    }
}

/// The state that a number in a handshake asks for: 1 for status, 2 for
/// login, 3 for a transfer, and none for any other.
pub open spec fn next_state_of(n: VarInt) -> Option<ConnectionState> {
    if n.0 == 1 {
        Some(ConnectionState::Status)
    } else if n.0 == 2 {
        Some(ConnectionState::Login)
    } else if n.0 == 3 {
        Some(ConnectionState::Transfer)
    } else {
        None
    }
}

impl SHandShake {
    pub const PACKET_ID: i32 = 0x00;

    /// A handshake is a VarInt, a string of at most 255 bytes, a 16-bit port
    /// and a VarInt.
    pub open spec fn parse(s: Seq<u8>) -> Read<HandShakeView> {
        match read_var_int(s) {
            (Err(e), rest) => (Err(e), rest),
            (Ok(protocol_version), s1) => match read_string(s1, 255) {
                (Err(e), rest) => (Err(e), rest),
                (Ok(server_address), s2) => match read_u16(s2) {
                    (Err(e), rest) => (Err(e), rest),
                    (Ok(server_port), s3) => match read_var_int(s3) {
                        (Err(e), rest) => (Err(e), rest),
                        (Ok(next_state), s4) => (
                            Ok(
                                HandShakeView {
                                    protocol_version,
                                    server_address,
                                    server_port,
                                    next_state,
                                },
                            ),
                            s4,
                        ),
                    },
                },
            },
        }
    }

    pub fn read(bytebuf: &mut ReadByteBuffer) -> (r: Result<Self, DeserializerError>)
        ensures
            match Self::parse(old(bytebuf)@) {
                (Ok(v), rest) => r matches Ok(p) && p@ == v && final(bytebuf)@ == rest,
                (Err(e), rest) => r matches Err(err) && err == e && final(bytebuf)@ == rest,
            },
    {
        let protocol_version = bytebuf.get_var_int()?;
        let server_address = bytebuf.get_string_len(255)?;
        let server_port = bytebuf.get_u16()?;
        let next_state = bytebuf.get_var_int()?;
        Ok(Self { protocol_version, server_address, server_port, next_state })
    }

    /// The state the client asks for, if the handshake names one.
    pub fn requested_state(&self) -> (state: Option<ConnectionState>)
        ensures
            state == next_state_of(self.next_state),
    {
        if self.next_state.0 == 1 {
            Some(ConnectionState::Status)
        } else if self.next_state.0 == 2 {
            Some(ConnectionState::Login)
        } else if self.next_state.0 == 3 {
            Some(ConnectionState::Transfer)
        } else {
            None
        }
    }
}

} // verus!
