use vstd::prelude::*;
use crate::components::client::PacketEncoder;
use crate::components::player::GameModeKind;
use crate::error::PacketIoError;
use crate::handlers::{send_packet, Client, Handled};
use crate::protocol::bytebuf::{encode_bool, encode_i32, encode_i64, encode_string};
use crate::protocol::client::play::{
    center_chunk_fields, encode_names, game_event_fields, player_abilities_fields,
    player_info_update_fields, sync_player_position_fields, to_unsigned_8, CCenterChunk,
    CGameEvent, CLogin, CPlayerAbilities, CPlayerInfoUpdate, CSyncPlayerPosition, GameEvent,
};
use crate::protocol::frame::RawPacket;
use crate::protocol::server::play::{SPlayerPosition, SPlayerPositionRotation};
use crate::protocol::var_int::{encode_var_int, encode_var_uint, VarInt};
use crate::protocol::ClientPacket;

verus! {

/// The speed 0.05 as a 32-bit IEEE 754 number.
pub const FLYING_SPEED: u32 = 0x3D4C_CCCD;

/// The modifier 0.1 as a 32-bit IEEE 754 number.
pub const FIELD_OF_VIEW: u32 = 0x3DCC_CCCD;

/// The height 64 as a 64-bit IEEE 754 number.
pub const SPAWN_HEIGHT: u64 = 0x4050_0000_0000_0000;

/// The ability to fly.
pub const ALLOW_FLYING: i8 = 0x04;

/// The actions of a player list update that add players and list them.
pub const ADD_AND_LIST: i8 = 0x01 | 0x08;

/// The fields of the packet that puts a player into the game: entity 0 in
/// the overworld, the only dimension, in creative mode, with room for 10
/// players and 16 chunks of view and of simulation, and nothing else set.
pub open spec fn play_login_fields() -> Seq<u8> {
    encode_i32(0) + encode_bool(false) + encode_var_uint(1) + encode_string(
        "minecraft:overworld"@,
    ) + encode_var_int(10) + encode_var_int(16) + encode_var_int(16) + (encode_bool(false)
        + encode_bool(false) + encode_bool(false) + encode_var_int(0) + encode_string(
        "minecraft:overworld"@,
    ) + (encode_i64(0) + seq![1u8] + seq![1u8] + encode_bool(false) + encode_bool(false))) + (
    encode_bool(false) + encode_var_int(0) + encode_bool(false))
}

/// The client after it entered the game: it is put into the world, told that
/// it may fly, placed at height 64, sent an empty player list, told to wait
/// for chunks, and given chunk 0, 0 as its centre, in this order.
pub open spec fn play_entered(c: Client) -> Handled {
    c.send(CLogin::packet_id(), play_login_fields()).send(
        CPlayerAbilities::packet_id(),
        player_abilities_fields(ALLOW_FLYING, FLYING_SPEED, FIELD_OF_VIEW),
    ).send(
        CSyncPlayerPosition::packet_id(),
        sync_player_position_fields(0, SPAWN_HEIGHT, 0, 0, 0, 0, 0),
    ).send(
        CPlayerInfoUpdate::packet_id(),
        player_info_update_fields(ADD_AND_LIST, 0, Seq::empty()),
    ).send(
        CGameEvent::packet_id(),
        game_event_fields(GameEvent::StartWaitingChunks.spec_id(), 0),
    ).send(CCenterChunk::packet_id(), center_chunk_fields(0, 0))
}

/// Puts the player into the world.
fn send_login(enc: &mut PacketEncoder) -> (r: Result<(), PacketIoError>)
    ensures
        forall|c: Client|
            c.enc == old(enc)@ ==> #[trigger] c.send(CLogin::packet_id(), play_login_fields())
                == (Handled { result: r, client: c.with_enc(final(enc)@) }),
{
    let dimensions = ["minecraft:overworld"];
    let packet = CLogin {
        entity_id: 0,
        is_hardcore: false,
        dimension_names: dimensions.as_slice(),
        max_players: VarInt(10),
        view_distance: VarInt(16),
        simulated_distance: VarInt(16),
        reduced_debug_info: false,
        enabled_respawn_screen: false,
        limited_crafting: false,
        dimension_type: VarInt(0),
        dimension_name: "minecraft:overworld",
        hashed_seed: 0,
        game_mode: to_unsigned_8(GameModeKind::Creative.id()),
        previous_gamemode: GameModeKind::Creative.id(),
        debug: false,
        is_flat: false,
        death_location: None,
        portal_cooldown: VarInt(0),
        enforce_secure_chat: false,
    };
    proof {
        let names = packet.dimension_names@;
        assert(names =~= seq!["minecraft:overworld"]);
        assert(names.drop_last() =~= Seq::<&str>::empty());
        assert(encode_names(names) =~= encode_string("minecraft:overworld"@)) by {
            reveal_with_fuel(encode_names, 2);
        }
        assert(packet.fields() =~= play_login_fields());
    }
    send_packet(enc, &packet)
}

/// Sends what a client needs to enter the game.
pub fn on_play(enc: &mut PacketEncoder) -> (r: Result<(), PacketIoError>)
    ensures
        forall|c: Client|
            c.enc == old(enc)@ ==> #[trigger] play_entered(c) == (Handled {
                result: r,
                client: c.with_enc(final(enc)@),
            }),
{
    send_login(enc)?;
    send_packet(enc, &CPlayerAbilities::new(ALLOW_FLYING, FLYING_SPEED, FIELD_OF_VIEW))?;
    send_packet(enc, &CSyncPlayerPosition::new(0, SPAWN_HEIGHT, 0, 0, 0, 0, VarInt(0)))?;
    let nobody: [u8; 0] = [];
    send_packet(enc, &CPlayerInfoUpdate::new(ADD_AND_LIST, nobody.as_slice()))?;
    send_packet(enc, &CGameEvent::new(GameEvent::StartWaitingChunks, 0))?;
    player_chunks(enc)
}

/// Tells the client around which chunk it loads the world.
pub fn player_chunks(enc: &mut PacketEncoder) -> (r: Result<(), PacketIoError>)
    ensures
        forall|c: Client|
            c.enc == old(enc)@ ==> #[trigger] c.send(
                CCenterChunk::packet_id(),
                center_chunk_fields(0, 0),
            ) == (Handled { result: r, client: c.with_enc(final(enc)@) }),
{
    send_packet(enc, &CCenterChunk { chunk_x: VarInt(0), chunk_z: VarInt(0) })
}

/// What a packet of a client in the game is about.
#[derive(Debug, Clone, Copy, PartialEq, Eq, Structural)]
pub enum PlayPacketKind {
    /// The player moved.
    Position,
    /// The player moved and turned.
    PositionRotation,
    /// A packet that the server does not look at.
    Unknown,
}

/// What a packet with this id is about.
pub open spec fn play_packet_kind_of(id: VarInt) -> PlayPacketKind {
    if id.0 == SPlayerPosition::PACKET_ID {
        PlayPacketKind::Position
    } else if id.0 == SPlayerPositionRotation::PACKET_ID {
        PlayPacketKind::PositionRotation
    } else {
        PlayPacketKind::Unknown
    }
}

/// Tells what a packet of a client in the game is about.
pub fn play_packet_kind(packet: &RawPacket) -> (kind: PlayPacketKind)
    ensures
        kind == play_packet_kind_of(packet.id),
{
    if packet.id.0 == SPlayerPosition::PACKET_ID {
        PlayPacketKind::Position
    } else if packet.id.0 == SPlayerPositionRotation::PACKET_ID {
        PlayPacketKind::PositionRotation
    } else {
        PlayPacketKind::Unknown
    }
}

/// Handles a packet of a client in the game. Every packet is accepted: the
/// server only takes note of it.
pub fn play_handler(packet: RawPacket) -> (r: Result<(), PacketIoError>)
    ensures
        r == Ok::<(), PacketIoError>(()),
{
    let _ = play_packet_kind(&packet);
    Ok(())
}

} // verus!
