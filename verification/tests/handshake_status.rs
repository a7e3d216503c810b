use hyperpumpkin::components::client::{
    ConfigState, CurrentState, LoginState, PacketDecoder, PacketEncoder,
};
use hyperpumpkin::components::resources::{ConnectionMode, ServerConfig, ServerStorage};
use hyperpumpkin::components::ReadByteBuffer;
use hyperpumpkin::error::{DeserializerError, PacketError, PacketIoError};
use hyperpumpkin::handlers::handshake::{handshake_handler, reason};
use hyperpumpkin::handlers::status::{status_handler, status_json};
use hyperpumpkin::protocol::bytebuf::{put_i64, put_string, put_u16, put_var_int};
use hyperpumpkin::protocol::frame::RawPacket;
use hyperpumpkin::protocol::json::decimal_text;
use hyperpumpkin::protocol::server::handshake::SHandShake;
use hyperpumpkin::protocol::var_int::VarInt;
use hyperpumpkin::protocol::{ConnectionState, CURRENT_MC_PROTOCOL, CURRENT_MC_VERSION};

fn packet(id: i32, fields: Vec<u8>) -> RawPacket {
    RawPacket { id: VarInt(id), bytebuf: ReadByteBuffer::from_vec(fields) }
}

fn handshake(protocol: i32, next: i32) -> RawPacket {
    let mut fields = Vec::new();
    put_var_int(&mut fields, VarInt(protocol));
    put_string(&mut fields, "localhost");
    put_u16(&mut fields, 25565);
    put_var_int(&mut fields, VarInt(next));
    packet(0, fields)
}

fn sent(enc: &mut PacketEncoder) -> Vec<RawPacket> {
    let mut dec = PacketDecoder::new();
    dec.queue_slice(&enc.take());
    let mut out = Vec::new();
    while let Some(p) = dec.decode().unwrap() {
        out.push(p);
    }
    out
}

fn config() -> ServerConfig {
    ServerConfig {
        max_players: 10,
        description: "Hello, \"World\"!".to_string(),
        favicon: "data:image/png;base64,AAAA".to_string(),
        connection_mode: ConnectionMode::Offline,
    }
}

#[test]
fn protocol_constants() {
    assert_eq!(CURRENT_MC_PROTOCOL, 767);
    assert_eq!(CURRENT_MC_VERSION, "1.21.1");
}

#[test]
fn handshake_packet_is_read() {
    let mut p = handshake(767, 2);
    let h = SHandShake::read(&mut p.bytebuf).unwrap();
    assert_eq!(h.protocol_version, VarInt(767));
    assert_eq!(h.server_address, "localhost");
    assert_eq!(h.server_port, 25565);
    assert_eq!(h.next_state, VarInt(2));
    assert_eq!(h.requested_state(), Some(ConnectionState::Login));
    assert_eq!(p.bytebuf.remaining(), 0);
}

#[test]
fn handshake_enters_status() {
    let mut enc = PacketEncoder::new();
    let mut state = CurrentState::HandShake;
    assert_eq!(handshake_handler(handshake(767, 1), &mut enc, &mut state), Ok(()));
    assert!(matches!(state, CurrentState::Status));
    assert!(enc.take().is_empty());
}

#[test]
fn handshake_enters_status_with_any_protocol() {
    let mut enc = PacketEncoder::new();
    let mut state = CurrentState::HandShake;
    assert_eq!(handshake_handler(handshake(4, 1), &mut enc, &mut state), Ok(()));
    assert!(matches!(state, CurrentState::Status));
}

#[test]
fn handshake_enters_login() {
    let mut enc = PacketEncoder::new();
    let mut state = CurrentState::HandShake;
    assert_eq!(handshake_handler(handshake(767, 2), &mut enc, &mut state), Ok(()));
    assert!(matches!(state, CurrentState::Login(LoginState::LoginStart)));
}

#[test]
fn handshake_enters_transfer() {
    let mut enc = PacketEncoder::new();
    let mut state = CurrentState::HandShake;
    assert_eq!(handshake_handler(handshake(767, 3), &mut enc, &mut state), Ok(()));
    assert!(matches!(state, CurrentState::Transfer));
}

#[test]
fn version_mismatch_disconnects_with_a_reason() {
    let mut enc = PacketEncoder::new();
    let mut state = CurrentState::HandShake;
    assert_eq!(
        handshake_handler(handshake(766, 2), &mut enc, &mut state),
        Err(PacketIoError::Disconnect)
    );
    assert!(matches!(state, CurrentState::HandShake));
    let mut packets = sent(&mut enc);
    assert_eq!(packets.len(), 1);
    assert_eq!(packets[0].id, VarInt(0));
    let json = packets[0].bytebuf.get_string().unwrap();
    assert_eq!(json, reason());
    let value: serde_json::Value = serde_json::from_str(&json).unwrap();
    assert_eq!(
        value.get("text").and_then(|t| t.as_str()),
        Some("Outdated client! Please use 1.21.1")
    );
}

#[test]
fn unknown_next_state_ends_the_connection() {
    for next in [0, 4, -1, 100] {
        let mut enc = PacketEncoder::new();
        let mut state = CurrentState::HandShake;
        assert_eq!(
            handshake_handler(handshake(767, next), &mut enc, &mut state),
            Err(PacketIoError::BadPacket("unknown next state"))
        );
        assert!(matches!(state, CurrentState::HandShake));
    }
}

#[test]
fn handshake_refuses_other_packets_and_short_ones() {
    let mut enc = PacketEncoder::new();
    let mut state = CurrentState::HandShake;
    let mut other = handshake(767, 1);
    other.id = VarInt(1);
    assert_eq!(
        handshake_handler(other, &mut enc, &mut state),
        Err(PacketIoError::Packet(PacketError::DecodeID))
    );
    assert_eq!(
        handshake_handler(packet(0, vec![0xff]), &mut enc, &mut state),
        Err(PacketIoError::Deserializer(DeserializerError::InsufficientBytes))
    );
    let mut long_address = Vec::new();
    put_var_int(&mut long_address, VarInt(767));
    put_string(&mut long_address, &"a".repeat(256));
    put_u16(&mut long_address, 1);
    put_var_int(&mut long_address, VarInt(1));
    assert_eq!(
        handshake_handler(packet(0, long_address), &mut enc, &mut state),
        Err(PacketIoError::Deserializer(DeserializerError::StringTooLong))
    );
}

#[test]
fn state_conversion() {
    assert!(matches!(CurrentState::from(ConnectionState::HandShake), CurrentState::HandShake));
    assert!(matches!(CurrentState::from(ConnectionState::Status), CurrentState::Status));
    assert!(matches!(
        CurrentState::from(ConnectionState::Login),
        CurrentState::Login(LoginState::LoginStart)
    ));
    assert!(matches!(CurrentState::from(ConnectionState::Transfer), CurrentState::Transfer));
    assert!(matches!(
        CurrentState::from(ConnectionState::Config),
        CurrentState::Config(ConfigState::AckFinish)
    ));
    assert!(matches!(CurrentState::from(ConnectionState::Play), CurrentState::Play));
}

#[test]
fn state_names() {
    assert_eq!(CurrentState::HandShake.name(), "HandShake");
    assert_eq!(CurrentState::Status.name(), "Status");
    assert_eq!(CurrentState::Login(LoginState::LoginAck).name(), "Login");
    assert_eq!(CurrentState::Transfer.name(), "Transfer");
    assert_eq!(CurrentState::Config(ConfigState::KnownPacks).name(), "Config");
    assert_eq!(CurrentState::Play.name(), "Play");
}

#[test]
fn decimal_text_writes_numbers() {
    assert_eq!(decimal_text(0), "0");
    assert_eq!(decimal_text(7), "7");
    assert_eq!(decimal_text(10), "10");
    assert_eq!(decimal_text(767), "767");
    assert_eq!(decimal_text(1234567890), "1234567890");
}

#[test]
fn status_document_is_json() {
    let storage = ServerStorage { connections: 3, online_players: 2 };
    let json = status_json(&config(), &storage);
    assert!(json.contains("\"protocol\":767"));
    assert!(json.contains("Hello, \\\"World\\\"!"));
    let value: serde_json::Value = serde_json::from_str(&json).unwrap();
    assert_eq!(value["version"]["name"], "1.21.1");
    assert_eq!(value["version"]["protocol"], 767);
    assert_eq!(value["players"]["max"], 10);
    assert_eq!(value["players"]["online"], 2);
    assert_eq!(value["players"]["sample"], serde_json::Value::Array(vec![]));
    assert_eq!(value["description"]["text"], "Hello, \"World\"!");
    assert_eq!(value["favicon"], "data:image/png;base64,AAAA");
    assert_eq!(value["enforcesSecureChat"], false);
}

#[test]
fn status_ping() {
    let mut enc = PacketEncoder::new();
    let mut state = CurrentState::HandShake;
    let storage = ServerStorage { connections: 1, online_players: 0 };
    handshake_handler(handshake(767, 1), &mut enc, &mut state).unwrap();
    assert_eq!(status_handler(packet(0, vec![]), &mut enc, &config(), &storage), Ok(()));
    let mut ping = Vec::new();
    put_i64(&mut ping, 0x0123456789abcdef);
    assert_eq!(status_handler(packet(1, ping), &mut enc, &config(), &storage), Ok(()));
    let mut packets = sent(&mut enc);
    assert_eq!(packets.len(), 2);
    assert_eq!(packets[0].id, VarInt(0));
    let json = packets[0].bytebuf.get_string().unwrap();
    assert!(json.contains("\"protocol\":767"));
    assert_eq!(json, status_json(&config(), &storage));
    assert_eq!(packets[1].id, VarInt(1));
    assert_eq!(packets[1].bytebuf.get_i64(), Ok(0x0123456789abcdef));
    assert_eq!(packets[1].bytebuf.remaining(), 0);
}

#[test]
fn status_refuses_other_packets() {
    let mut enc = PacketEncoder::new();
    let storage = ServerStorage { connections: 0, online_players: 0 };
    assert_eq!(
        status_handler(packet(2, vec![]), &mut enc, &config(), &storage),
        Err(PacketIoError::Packet(PacketError::DecodeID))
    );
    assert_eq!(
        status_handler(packet(1, vec![1, 2, 3]), &mut enc, &config(), &storage),
        Err(PacketIoError::Deserializer(DeserializerError::InsufficientBytes))
    );
    assert!(enc.take().is_empty());
}
