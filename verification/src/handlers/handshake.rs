use vstd::prelude::*;
use vstd::string::StringExecFns;
use crate::components::client::{CurrentState, PacketEncoder, StateView};
use crate::error::{PacketError, PacketIoError};
use crate::handlers::{send_packet, Client, Handled};
use crate::protocol::bytebuf::encode_string;
use crate::protocol::client::login::CLoginDisconnect;
use crate::protocol::frame::RawPacket;
use crate::protocol::json::{text_component, text_component_json};
use crate::protocol::server::handshake::{next_state_of, SHandShake};
use crate::protocol::var_int::VarInt;
use crate::protocol::{ClientPacket, ConnectionState, CURRENT_MC_PROTOCOL, CURRENT_MC_VERSION};

verus! {

/// What a client with another protocol version is told.
pub open spec fn outdated_message() -> Seq<char> {
    "Outdated client! Please use "@ + CURRENT_MC_VERSION@
}

/// The reason for which a client with another protocol version is
/// disconnected: the message as a JSON text component.
pub open spec fn outdated_reason() -> Seq<char> {
    text_component(outdated_message())
}

/// The reason for which a client with another protocol version is
/// disconnected.
pub fn reason() -> (json: String)
    ensures
        json@ == outdated_reason(),
{
    let message = String::from_str("Outdated client! Please use ").concat(CURRENT_MC_VERSION);
    text_component_json(message.as_str())
}

/// The state that a connection is in once it entered `next`.
pub open spec fn entered(next: ConnectionState) -> StateView {
    <CurrentState as vstd::std_specs::convert::FromSpec<ConnectionState>>::from_spec(next)@
}

/// The handshake. Only packet 0 is one. A client that wants to log in with
/// another protocol version than the server's is told why and disconnected.
/// Any other client enters the state it asks for; a state that is none of
/// status, login and transfer ends the connection.
pub open spec fn handshake_step(c: Client, id: VarInt, fields: Seq<u8>) -> Handled {
    if id.0 != SHandShake::PACKET_ID {
        c.fail(PacketIoError::Packet(PacketError::DecodeID))
    } else {
        match SHandShake::parse(fields).0 {
            Err(e) => c.fail(PacketIoError::Deserializer(e)),
            Ok(handshake) => match next_state_of(handshake.next_state) {
                None => c.fail(PacketIoError::BadPacket("unknown next state")),
                Some(next) => if next == ConnectionState::Login && handshake.protocol_version.0
                    != CURRENT_MC_PROTOCOL {
                    let told = c.send(
                        CLoginDisconnect::packet_id(),
                        encode_string(outdated_reason()),
                    );
                    if told.result is Ok {
                        told.client.fail(PacketIoError::Disconnect)
                    } else {
                        told
                    }
                } else {
                    c.with_state(entered(next)).done()
                },
            },
        }
    }
}

/// Handles the first packet of a connection.
pub fn handshake_handler(packet: RawPacket, enc: &mut PacketEncoder, state: &mut CurrentState) -> (r:
    Result<(), PacketIoError>)
    ensures
        forall|c: Client|
            c.enc == old(enc)@ && c.state == old(state)@ ==> #[trigger] handshake_step(
                c,
                packet.id,
                packet.bytebuf@,
            ) == (Handled {
                result: r,
                client: c.with_enc(final(enc)@).with_state(final(state)@),
            }),
{
    let mut packet = packet;
    if packet.id.0 != SHandShake::PACKET_ID {
        return Err(PacketIoError::Packet(PacketError::DecodeID));
    }
    let handshake = match SHandShake::read(&mut packet.bytebuf) {
        Ok(h) => h,
        Err(e) => {
            return Err(PacketIoError::Deserializer(e));
        },
    };
    let next = match handshake.requested_state() {
        Some(n) => n,
        None => {
            return Err(PacketIoError::BadPacket("unknown next state"));
        },
    };
    if next == ConnectionState::Login && handshake.protocol_version.0 as i64
        != CURRENT_MC_PROTOCOL as i64 {
        let json = reason();
        send_packet(enc, &CLoginDisconnect::new(json.as_str()))?;
        return Err(PacketIoError::Disconnect);
    }
    *state = CurrentState::from(next);
    Ok(())
}

} // verus!
