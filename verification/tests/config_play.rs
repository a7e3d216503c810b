use hyperpumpkin::components::client::{
    ClientEntity, ClientPacketQueue, ConfigState, CurrentState, LoginState, PacketDecoder,
    PacketEncoder,
};
use hyperpumpkin::components::player::GameModeKind;
use hyperpumpkin::components::resources::{
    ConnectionMode, KeyPair, Registry, RegistryEntry, ServerConfig, ServerStorage,
};
use hyperpumpkin::components::ReadByteBuffer;
use hyperpumpkin::error::{DeserializerError, PacketError, PacketIoError};
use hyperpumpkin::handlers::config::{config_handler, send_registry_data};
use hyperpumpkin::handlers::packet_handler;
use hyperpumpkin::handlers::play::{
    on_play, play_handler, play_packet_kind, player_chunks, PlayPacketKind,
};
use hyperpumpkin::protocol::bytebuf::{
    put_bool, put_i64, put_slice, put_string, put_u16, put_u8, put_uuid, put_var_int,
};
use hyperpumpkin::protocol::client::play::{to_unsigned_8, GameEvent};
use hyperpumpkin::protocol::frame::RawPacket;
use hyperpumpkin::protocol::server::config::SClientInformationConfig;
use hyperpumpkin::protocol::var_int::VarInt;

fn packet(id: i32, fields: Vec<u8>) -> RawPacket {
    RawPacket { id: VarInt(id), bytebuf: ReadByteBuffer::from_vec(fields) }
}

fn sent(enc: &mut PacketEncoder) -> Vec<RawPacket> {
    let mut dec = PacketDecoder::new();
    dec.queue_slice(&enc.take());
    let mut out = Vec::new();
    while let Some(p) = dec.decode().unwrap() {
        out.push(p);
    }
    out
}

fn registry() -> Registry {
    Registry {
        entries: vec![
            RegistryEntry {
                registry_id: "minecraft:dimension_type".to_string(),
                registry_entries: vec![1, 2, 3],
            },
            RegistryEntry {
                registry_id: "minecraft:worldgen/biome".to_string(),
                registry_entries: vec![4, 5],
            },
        ],
    }
}

fn brand(channel: &str, data: &[u8]) -> RawPacket {
    let mut fields = Vec::new();
    put_string(&mut fields, channel);
    put_slice(&mut fields, data);
    packet(2, fields)
}

fn client_information() -> Vec<u8> {
    let mut fields = Vec::new();
    put_string(&mut fields, "en_GB");
    put_u8(&mut fields, to_unsigned_8(-3));
    put_var_int(&mut fields, VarInt(1));
    put_bool(&mut fields, true);
    put_u8(&mut fields, 0x7f);
    put_var_int(&mut fields, VarInt(1));
    put_bool(&mut fields, false);
    put_bool(&mut fields, true);
    fields
}

#[test]
fn game_modes_and_events_have_their_numbers() {
    assert_eq!(GameModeKind::Undefined.id(), -1);
    assert_eq!(GameModeKind::Survival.id(), 0);
    assert_eq!(GameModeKind::Creative.id(), 1);
    assert_eq!(GameModeKind::Adventure.id(), 2);
    assert_eq!(GameModeKind::Spectator.id(), 3);
    assert_eq!(GameEvent::NoRespawnBlockAvailable.id(), 0);
    assert_eq!(GameEvent::StartWaitingChunks.id(), 13);
    assert_eq!(to_unsigned_8(-1), 0xff);
    assert_eq!(to_unsigned_8(4), 4);
}

#[test]
fn brand_is_attached() {
    let mut e = ClientEntity::new();
    let mut enc = PacketEncoder::new();
    let mut state = CurrentState::Config(ConfigState::KnownPacks);
    let r = config_handler(
        &mut e,
        brand("minecraft:brand", "vanilla".as_bytes()),
        &mut enc,
        &mut state,
        &registry(),
    );
    assert_eq!(r, Ok(()));
    assert_eq!(e.brand.as_ref().map(|b| b.0.as_str()), Some("vanilla"));
    assert!(matches!(state, CurrentState::Config(ConfigState::KnownPacks)));
    assert!(enc.take().is_empty());
}

#[test]
fn other_channels_are_ignored() {
    let mut e = ClientEntity::new();
    let mut enc = PacketEncoder::new();
    let mut state = CurrentState::Config(ConfigState::KnownPacks);
    let r = config_handler(
        &mut e,
        brand("minecraft:register", &[0xff]),
        &mut enc,
        &mut state,
        &registry(),
    );
    assert_eq!(r, Ok(()));
    assert!(e.brand.is_none());
}

#[test]
fn brand_must_be_utf8() {
    let mut e = ClientEntity::new();
    let mut enc = PacketEncoder::new();
    let mut state = CurrentState::Config(ConfigState::KnownPacks);
    let r = config_handler(
        &mut e,
        brand("minecraft:brand", &[0xff, 0xfe]),
        &mut enc,
        &mut state,
        &registry(),
    );
    assert_eq!(r, Err(PacketIoError::BadPacket("invalid utf-8")));
    assert!(e.brand.is_none());
}

#[test]
fn client_information_is_checked() {
    let mut buf = ReadByteBuffer::from_vec(client_information());
    let info = SClientInformationConfig::read(&mut buf).unwrap();
    assert_eq!(info.locale, "en_GB");
    assert_eq!(info.view_distance, -3);
    assert_eq!(info.chat_mode, VarInt(1));
    assert!(info.chat_colors);
    assert_eq!(info.skin_parts, 0x7f);
    assert_eq!(info.main_hand, VarInt(1));
    assert!(!info.text_filtering);
    assert!(info.server_listing);

    let mut e = ClientEntity::new();
    let mut enc = PacketEncoder::new();
    let mut state = CurrentState::Config(ConfigState::KnownPacks);
    assert_eq!(
        config_handler(&mut e, packet(0, client_information()), &mut enc, &mut state, &registry()),
        Ok(())
    );
    let mut short = client_information();
    short.pop();
    assert_eq!(
        config_handler(&mut e, packet(0, short), &mut enc, &mut state, &registry()),
        Err(PacketIoError::Deserializer(DeserializerError::InsufficientBytes))
    );
}

#[test]
fn registries_are_sent_in_order() {
    let mut enc = PacketEncoder::new();
    assert_eq!(send_registry_data(&mut enc, &registry()), Ok(()));
    let mut packets = sent(&mut enc);
    assert_eq!(packets.len(), 2);
    assert_eq!(packets[0].id, VarInt(7));
    assert_eq!(packets[0].bytebuf.get_string(), Ok("minecraft:dimension_type".to_string()));
    assert_eq!(packets[0].bytebuf.as_slice(), &[1, 2, 3]);
    assert_eq!(packets[1].bytebuf.get_string(), Ok("minecraft:worldgen/biome".to_string()));
    assert_eq!(packets[1].bytebuf.as_slice(), &[4, 5]);
}

#[test]
fn registry_that_cannot_be_sent_fails() {
    let mut enc = PacketEncoder::new();
    let big = Registry {
        entries: vec![
            RegistryEntry { registry_id: "a".to_string(), registry_entries: vec![1] },
            RegistryEntry { registry_id: "b".to_string(), registry_entries: vec![0; 3_000_000] },
            RegistryEntry { registry_id: "c".to_string(), registry_entries: vec![2] },
        ],
    };
    assert_eq!(
        send_registry_data(&mut enc, &big),
        Err(PacketIoError::Packet(PacketError::TooLong))
    );
    assert_eq!(sent(&mut enc).len(), 1);
}

#[test]
fn config_to_play() {
    let mut e = ClientEntity::new();
    let mut enc = PacketEncoder::new();
    let mut state = CurrentState::Config(ConfigState::KnownPacks);
    assert_eq!(
        config_handler(&mut e, packet(7, vec![0]), &mut enc, &mut state, &registry()),
        Ok(())
    );
    assert!(matches!(state, CurrentState::Config(ConfigState::AckFinish)));
    let ids: Vec<i32> = sent(&mut enc).iter().map(|p| p.id.0).collect();
    assert_eq!(ids, vec![7, 7, 3]);
    assert!(e.play.is_none());

    assert_eq!(
        config_handler(&mut e, packet(3, vec![]), &mut enc, &mut state, &registry()),
        Ok(())
    );
    assert!(matches!(state, CurrentState::Play));
    assert!(e.play.is_some());
    let ids: Vec<i32> = sent(&mut enc).iter().map(|p| p.id.0).collect();
    assert_eq!(ids, vec![0x2b, 0x38, 0x40, 0x3e, 0x22, 0x54]);
}

#[test]
fn packets_out_of_order_change_nothing() {
    let mut e = ClientEntity::new();
    let mut enc = PacketEncoder::new();
    let mut early = CurrentState::Config(ConfigState::KnownPacks);
    assert_eq!(
        config_handler(&mut e, packet(3, vec![]), &mut enc, &mut early, &registry()),
        Ok(())
    );
    assert!(matches!(early, CurrentState::Config(ConfigState::KnownPacks)));
    let mut late = CurrentState::Config(ConfigState::AckFinish);
    assert_eq!(
        config_handler(&mut e, packet(7, vec![0]), &mut enc, &mut late, &registry()),
        Ok(())
    );
    assert_eq!(
        config_handler(
            &mut e,
            brand("minecraft:brand", "x".as_bytes()),
            &mut enc,
            &mut late,
            &registry()
        ),
        Ok(())
    );
    assert_eq!(
        config_handler(&mut e, packet(0, vec![]), &mut enc, &mut late, &registry()),
        Ok(())
    );
    assert_eq!(
        config_handler(&mut e, packet(0x55, vec![1]), &mut enc, &mut late, &registry()),
        Ok(())
    );
    assert!(matches!(late, CurrentState::Config(ConfigState::AckFinish)));
    assert!(e.brand.is_none());
    assert!(e.play.is_none());
    assert!(enc.take().is_empty());
    let mut play = CurrentState::Play;
    assert_eq!(
        config_handler(&mut e, packet(3, vec![]), &mut enc, &mut play, &registry()),
        Err(PacketIoError::BadPacket("not in config"))
    );
}

#[test]
fn play_burst_fields() {
    let mut enc = PacketEncoder::new();
    assert_eq!(on_play(&mut enc), Ok(()));
    let mut packets = sent(&mut enc);
    assert_eq!(packets.len(), 6);

    let login = &mut packets[0].bytebuf;
    assert_eq!(login.get_i32(), Ok(0));
    assert_eq!(login.get_bool(), Ok(false));
    assert_eq!(login.get_list(|b| b.get_string()), Ok(vec!["minecraft:overworld".to_string()]));
    assert_eq!(login.get_var_int(), Ok(VarInt(10)));
    assert_eq!(login.get_var_int(), Ok(VarInt(16)));
    assert_eq!(login.get_var_int(), Ok(VarInt(16)));
    assert_eq!(login.get_bool(), Ok(false));
    assert_eq!(login.get_bool(), Ok(false));
    assert_eq!(login.get_bool(), Ok(false));
    assert_eq!(login.get_var_int(), Ok(VarInt(0)));
    assert_eq!(login.get_string(), Ok("minecraft:overworld".to_string()));
    assert_eq!(login.get_i64(), Ok(0));
    assert_eq!(login.get_u8(), Ok(1));
    assert_eq!(login.get_i8(), Ok(1));
    assert_eq!(login.get_bool(), Ok(false));
    assert_eq!(login.get_bool(), Ok(false));
    assert_eq!(login.get_option(|b| b.get_string()), Ok(None));
    assert_eq!(login.get_var_int(), Ok(VarInt(0)));
    assert_eq!(login.get_bool(), Ok(false));
    assert_eq!(login.remaining(), 0);

    let abilities = &mut packets[1].bytebuf;
    assert_eq!(abilities.get_i8(), Ok(0x04));
    assert_eq!(abilities.get_f32().map(f32::from_bits), Ok(0.05));
    assert_eq!(abilities.get_f32().map(f32::from_bits), Ok(0.1));
    assert_eq!(abilities.remaining(), 0);

    let position = &mut packets[2].bytebuf;
    assert_eq!(position.get_f64().map(f64::from_bits), Ok(0.0));
    assert_eq!(position.get_f64().map(f64::from_bits), Ok(64.0));
    assert_eq!(position.get_f64().map(f64::from_bits), Ok(0.0));
    assert_eq!(position.get_f32().map(f32::from_bits), Ok(0.0));
    assert_eq!(position.get_f32().map(f32::from_bits), Ok(0.0));
    assert_eq!(position.get_i8(), Ok(0));
    assert_eq!(position.get_var_int(), Ok(VarInt(0)));
    assert_eq!(position.remaining(), 0);

    let info = &mut packets[3].bytebuf;
    assert_eq!(info.get_i8(), Ok(0x09));
    assert_eq!(info.get_var_int(), Ok(VarInt(0)));
    assert_eq!(info.remaining(), 0);

    let event = &mut packets[4].bytebuf;
    assert_eq!(event.get_u8(), Ok(13));
    assert_eq!(event.get_f32().map(f32::from_bits), Ok(0.0));
    assert_eq!(event.remaining(), 0);

    let centre = &mut packets[5].bytebuf;
    assert_eq!(centre.get_var_int(), Ok(VarInt(0)));
    assert_eq!(centre.get_var_int(), Ok(VarInt(0)));
    assert_eq!(centre.remaining(), 0);
}

#[test]
fn player_chunks_sets_the_centre() {
    let mut enc = PacketEncoder::new();
    assert_eq!(player_chunks(&mut enc), Ok(()));
    assert_eq!(enc.take(), vec![3, 0x54, 0, 0]);
}

#[test]
fn play_packets_are_accepted() {
    assert_eq!(play_packet_kind(&packet(0x1a, vec![])), PlayPacketKind::Position);
    assert_eq!(play_packet_kind(&packet(0x1b, vec![])), PlayPacketKind::PositionRotation);
    assert_eq!(play_packet_kind(&packet(0x18, vec![])), PlayPacketKind::Unknown);
    assert_eq!(play_handler(packet(0x1a, vec![1, 2])), Ok(()));
    assert_eq!(play_handler(packet(0x7777, vec![])), Ok(()));
}

fn server() -> (ServerConfig, ServerStorage, KeyPair) {
    let private = rsa::RsaPrivateKey::new(&mut rand::thread_rng(), 512).unwrap();
    (
        ServerConfig {
            max_players: 10,
            description: "A server".to_string(),
            favicon: String::new(),
            connection_mode: ConnectionMode::Velocity { secret: "k".to_string() },
        },
        ServerStorage { connections: 0, online_players: 0 },
        KeyPair { private, public_bytes: vec![1, 2, 3] },
    )
}

fn handshake(next: i32) -> RawPacket {
    let mut fields = Vec::new();
    put_var_int(&mut fields, VarInt(767));
    put_string(&mut fields, "localhost");
    put_u16(&mut fields, 25565);
    put_var_int(&mut fields, VarInt(next));
    packet(0, fields)
}

#[test]
fn packets_of_one_tick_follow_the_state() {
    let (config, storage, keys) = server();
    let mut ping = Vec::new();
    put_i64(&mut ping, 77);
    let queue = ClientPacketQueue(vec![handshake(1), packet(0, vec![]), packet(1, ping)]);
    let mut e = ClientEntity::new();
    let mut enc = PacketEncoder::new();
    let mut dec = PacketDecoder::new();
    let mut state = CurrentState::HandShake;
    let r = packet_handler(
        &mut e,
        &queue,
        &mut enc,
        &mut dec,
        &mut state,
        &config,
        &storage,
        &keys,
        &registry(),
    );
    assert_eq!(r, Ok(()));
    assert!(matches!(state, CurrentState::Status));
    let mut packets = sent(&mut enc);
    assert_eq!(packets.len(), 2);
    assert_eq!(packets[1].bytebuf.get_i64(), Ok(77));
    // the queue is read, not emptied
    assert_eq!(queue.0.len(), 3);
    assert_eq!(queue.0[0].bytebuf.remaining(), 15);
}

#[test]
fn first_failure_ends_the_tick() {
    let (config, storage, keys) = server();
    let mut name = Vec::new();
    put_string(&mut name, "Bob");
    put_uuid(&mut name, &hyperpumpkin::components::player::Uuid([0; 16]));
    let queue = ClientPacketQueue(vec![handshake(2), packet(9, vec![]), packet(0, name)]);
    let mut e = ClientEntity::new();
    let mut enc = PacketEncoder::new();
    let mut dec = PacketDecoder::new();
    let mut state = CurrentState::HandShake;
    let r = packet_handler(
        &mut e,
        &queue,
        &mut enc,
        &mut dec,
        &mut state,
        &config,
        &storage,
        &keys,
        &registry(),
    );
    assert_eq!(r, Err(PacketIoError::Packet(PacketError::DecodeID)));
    assert!(matches!(state, CurrentState::Login(LoginState::LoginStart)));
    assert!(enc.take().is_empty());
}

#[test]
fn transfer_is_refused_and_play_accepts() {
    let (config, storage, keys) = server();
    let queue = ClientPacketQueue(vec![packet(0, vec![])]);
    let mut e = ClientEntity::new();
    let mut enc = PacketEncoder::new();
    let mut dec = PacketDecoder::new();
    let mut transfer = CurrentState::Transfer;
    assert_eq!(
        packet_handler(
            &mut e,
            &queue,
            &mut enc,
            &mut dec,
            &mut transfer,
            &config,
            &storage,
            &keys,
            &registry()
        ),
        Err(PacketIoError::BadPacket("not yet implemented"))
    );
    let mut play = CurrentState::Play;
    assert_eq!(
        packet_handler(
            &mut e,
            &queue,
            &mut enc,
            &mut dec,
            &mut play,
            &config,
            &storage,
            &keys,
            &registry()
        ),
        Ok(())
    );
    assert!(matches!(play, CurrentState::Play));
    let empty = ClientPacketQueue(vec![]);
    assert_eq!(
        packet_handler(
            &mut e,
            &empty,
            &mut enc,
            &mut dec,
            &mut transfer,
            &config,
            &storage,
            &keys,
            &registry()
        ),
        Ok(())
    );
}

#[test]
fn a_whole_connection_in_one_queue() {
    let (config, storage, keys) = server();
    let mut name = Vec::new();
    put_string(&mut name, "Bob");
    put_uuid(&mut name, &hyperpumpkin::components::player::Uuid([0; 16]));
    let queue = ClientPacketQueue(vec![handshake(2), packet(0, name)]);
    let mut e = ClientEntity::new();
    let mut enc = PacketEncoder::new();
    let mut dec = PacketDecoder::new();
    let mut state = CurrentState::HandShake;
    let r = packet_handler(
        &mut e,
        &queue,
        &mut enc,
        &mut dec,
        &mut state,
        &config,
        &storage,
        &keys,
        &registry(),
    );
    assert_eq!(r, Ok(()));
    assert!(matches!(
        state,
        CurrentState::Login(LoginState::VelocityResponse { message_id: 0, .. })
    ));
    assert_eq!(sent(&mut enc)[0].id, VarInt(4));
}
