use vstd::prelude::*;
use vstd::string::StringExecFns;
use crate::components::client::PacketEncoder;
use crate::components::resources::{ServerConfig, ServerStorage};
use crate::error::{PacketError, PacketIoError};
use crate::handlers::{send_packet, Client, Handled};
use crate::protocol::bytebuf::{encode_i64, encode_string};
use crate::protocol::client::status::{CPingResponse, CStatusResponse};
use crate::protocol::frame::RawPacket;
use crate::protocol::json::{decimal, decimal_text, json_string, to_json_string};
use crate::protocol::server::status::{SStatusPingRequest, SStatusRequest};
use crate::protocol::var_int::VarInt;
use crate::protocol::{ClientPacket, CURRENT_MC_PROTOCOL, CURRENT_MC_VERSION};

verus! {

/// What the server tells of itself, as far as a status request shows it.
pub struct StatusView {
    pub max_players: usize,
    pub online_players: usize,
    pub description: Seq<char>,
    pub favicon: Seq<char>,
}

/// What a configuration and the counters show to a status request.
pub open spec fn status_of(config: ServerConfig, storage: ServerStorage) -> StatusView {
    StatusView {
        max_players: config.max_players,
        online_players: storage.online_players,
        description: config.description@,
        favicon: config.favicon@,
    }
}

/// The answer to a status request: a JSON document with the version and its
/// protocol number, the player counts with an empty sample, the description,
/// the favicon, and that chat need not be signed.
#[verifier::opaque]
pub open spec fn status_document(status: StatusView) -> Seq<char> {
    "{\"version\":{\"name\":"@ + json_string(CURRENT_MC_VERSION@) + ",\"protocol\":"@ + decimal(
        CURRENT_MC_PROTOCOL as nat,
    ) + "},\"players\":{\"max\":"@ + decimal(status.max_players as nat) + ",\"online\":"@
        + decimal(status.online_players as nat) + ",\"sample\":[]},\"description\":{\"text\":"@
        + json_string(status.description) + "},\"favicon\":"@ + json_string(status.favicon)
        + ",\"enforcesSecureChat\":false}"@
}

/// Writes the answer to a status request.
pub fn status_json(config: &ServerConfig, storage: &ServerStorage) -> (json: String)
    ensures
        json@ == status_document(status_of(*config, *storage)),
{
    let mut json = String::from_str("{\"version\":{\"name\":");
    json.append(to_json_string(CURRENT_MC_VERSION).as_str());
    json.append(",\"protocol\":");
    json.append(decimal_text(CURRENT_MC_PROTOCOL as usize).as_str());
    json.append("},\"players\":{\"max\":");
    json.append(decimal_text(config.max_players).as_str());
    json.append(",\"online\":");
    json.append(decimal_text(storage.online_players).as_str());
    json.append(",\"sample\":[]},\"description\":{\"text\":");
    json.append(to_json_string(config.description.as_str()).as_str());
    json.append("},\"favicon\":");
    json.append(to_json_string(config.favicon.as_str()).as_str());
    json.append(",\"enforcesSecureChat\":false}");
    reveal(status_document);
    assert(json@ =~= status_document(status_of(*config, *storage)));
    json
}

/// A step in the status state. A status request is answered with the status
/// document, a ping with the number it carries. Any other packet ends the
/// connection.
pub open spec fn status_step(c: Client, id: VarInt, fields: Seq<u8>, status: StatusView) -> Handled {
    if id.0 == SStatusRequest::PACKET_ID {
        c.send(CStatusResponse::packet_id(), encode_string(status_document(status)))
    } else if id.0 == SStatusPingRequest::PACKET_ID {
        match SStatusPingRequest::parse(fields).0 {
            Err(e) => c.fail(PacketIoError::Deserializer(e)),
            Ok(ping) => c.send(CPingResponse::packet_id(), encode_i64(ping.payload)),
        }
    } else {
        c.fail(PacketIoError::Packet(PacketError::DecodeID))
    }
}

/// Answers a status request.
fn answer_status(enc: &mut PacketEncoder, config: &ServerConfig, storage: &ServerStorage) -> (r:
    Result<(), PacketIoError>)
    ensures
        forall|c: Client|
            c.enc == old(enc)@ ==> #[trigger] c.send(
                CStatusResponse::packet_id(),
                encode_string(status_document(status_of(*config, *storage))),
            ) == (Handled { result: r, client: c.with_enc(final(enc)@) }),
{
    let value = status_json(config, storage);
    let response = CStatusResponse::new(value.as_str());
    send_packet(enc, &response)
}

/// Answers a ping.
fn answer_ping(enc: &mut PacketEncoder, ping: SStatusPingRequest) -> (r: Result<(), PacketIoError>)
    ensures
        forall|c: Client|
            c.enc == old(enc)@ ==> #[trigger] c.send(
                CPingResponse::packet_id(),
                encode_i64(ping.payload),
            ) == (Handled { result: r, client: c.with_enc(final(enc)@) }),
{
    let response = CPingResponse::new(ping.payload);
    send_packet(enc, &response)
}

/// Handles a packet of a client that asks for the server's status.
pub fn status_handler(
    packet: RawPacket,
    enc: &mut PacketEncoder,
    config: &ServerConfig,
    storage: &ServerStorage,
) -> (r: Result<(), PacketIoError>)
    ensures
        forall|c: Client|
            c.enc == old(enc)@ ==> #[trigger] status_step(
                c,
                packet.id,
                packet.bytebuf@,
                status_of(*config, *storage),
            ) == (Handled { result: r, client: c.with_enc(final(enc)@) }),
{
    let mut packet = packet;
    if packet.id.0 == SStatusRequest::PACKET_ID {
        answer_status(enc, config, storage)
    } else if packet.id.0 == SStatusPingRequest::PACKET_ID {
        match SStatusPingRequest::read(&mut packet.bytebuf) {
            Ok(ping) => answer_ping(enc, ping),
            Err(e) => Err(PacketIoError::Deserializer(e)),
        }
    } else {
        Err(PacketIoError::Packet(PacketError::DecodeID))
    }
}

} // verus!
