use vstd::prelude::*;
use crate::protocol::bytebuf::{
    encode_bool, encode_i32, encode_i64, encode_string, encode_u32, encode_u64, put_bool, put_i32,
    put_i64, put_length, put_string, put_u32, put_u64, put_u8, put_var_int,
};
use crate::protocol::var_int::{encode_var_int, encode_var_uint, VarInt};
use crate::protocol::ClientPacket;
use crate::components::signed_8;

verus! {

/// The byte with the bit pattern of `v`.
pub open spec fn unsigned_8(v: i8) -> u8 {
    if v >= 0 {
        v as u8
    } else {
        (v + 0x100) as u8
    }
}

/// The byte with the bit pattern of `v`.
pub fn to_unsigned_8(v: i8) -> (b: u8)
    ensures
        b == unsigned_8(v),
        signed_8(b) == v,
{
    if v >= 0 {
        v as u8
    } else {
        (v as i16 + 0x100) as u8
    }
}

/// The bytes of some names, each as a string, one after the other.
pub open spec fn encode_names(names: Seq<&str>) -> Seq<u8>
    decreases names.len(),
{
    if names.len() == 0 {
        Seq::empty()
    } else {
        encode_names(names.drop_last()) + encode_string(names.last()@)
    }
}

/// Where a player died: the dimension and the packed block position.
#[derive(Debug, Clone, Copy)]
pub struct DeathLocation<'a> {
    pub dimension_name: &'a str,
    pub position: i64,
}

/// Puts the client into the game.
pub struct CLogin<'a> {
    pub entity_id: i32,
    pub is_hardcore: bool,
    pub dimension_names: &'a [&'a str],
    pub max_players: VarInt,
    pub view_distance: VarInt,
    pub simulated_distance: VarInt,
    pub reduced_debug_info: bool,
    pub enabled_respawn_screen: bool,
    pub limited_crafting: bool,
    pub dimension_type: VarInt,
    pub dimension_name: &'a str,
    pub hashed_seed: i64,
    pub game_mode: u8,
    pub previous_gamemode: i8,
    pub debug: bool,
    pub is_flat: bool,
    pub death_location: Option<DeathLocation<'a>>,
    pub portal_cooldown: VarInt,
    pub enforce_secure_chat: bool,
}

impl<'a> CLogin<'a> {
    /// The first fields: who the player is and which dimensions there are.
    pub open spec fn world_fields(&self) -> Seq<u8> {
        encode_i32(self.entity_id) + encode_bool(self.is_hardcore) + encode_var_uint(
            self.dimension_names@.len(),
        ) + encode_names(self.dimension_names@) + encode_var_int(self.max_players.0)
            + encode_var_int(self.view_distance.0) + encode_var_int(self.simulated_distance.0)
    }

    /// The middle fields: the rules of the game and where the player spawns.
    pub open spec fn rule_fields(&self) -> Seq<u8> {
        encode_bool(self.reduced_debug_info) + encode_bool(self.enabled_respawn_screen)
            + encode_bool(self.limited_crafting) + encode_var_int(self.dimension_type.0)
            + encode_string(self.dimension_name@) + self.mode_fields()
    }

    /// The fields on the world's seed and the player's game mode.
    pub open spec fn mode_fields(&self) -> Seq<u8> {
        encode_i64(self.hashed_seed) + seq![self.game_mode] + seq![
            unsigned_8(self.previous_gamemode),
        ] + encode_bool(self.debug) + encode_bool(self.is_flat)
    }

    /// The last fields: where the player died, if it did, and what is left.
    pub open spec fn last_fields(&self) -> Seq<u8> {
        (match self.death_location {
            Some(d) => encode_bool(true) + encode_string(d.dimension_name@) + encode_i64(
                d.position,
            ),
            None => encode_bool(false),
        }) + encode_var_int(self.portal_cooldown.0) + encode_bool(self.enforce_secure_chat)
    }

    fn write_world(&self, buf: &mut Vec<u8>)
        ensures
            final(buf)@ == old(buf)@ + self.world_fields(),
    {
        put_i32(buf, self.entity_id);
        put_bool(buf, self.is_hardcore);
        let count = self.dimension_names.len();
        put_length(buf, count);
        let ghost head = buf@;
        let mut i: usize = 0;
        assert(self.dimension_names@.take(0) =~= Seq::<&str>::empty());
        while i < count
            invariant
                i <= count,
                count == self.dimension_names@.len(),
                buf@ == head + encode_names(self.dimension_names@.take(i as int)),
            decreases count - i,
        {
            let name = self.dimension_names[i];
            put_string(buf, name);
            proof {
                let taken = self.dimension_names@.take(i + 1);
                assert(taken.drop_last() =~= self.dimension_names@.take(i as int));
                assert(taken.last() == name);
                assert(buf@ =~= head + encode_names(taken));
            }
            i = i + 1;
        }
        assert(self.dimension_names@.take(count as int) =~= self.dimension_names@);
        put_var_int(buf, self.max_players);
        put_var_int(buf, self.view_distance);
        put_var_int(buf, self.simulated_distance);
        assert(buf@ =~= old(buf)@ + self.world_fields());
    }

    fn write_rules(&self, buf: &mut Vec<u8>)
        ensures
            final(buf)@ == old(buf)@ + self.rule_fields(),
    {
        put_bool(buf, self.reduced_debug_info);
        put_bool(buf, self.enabled_respawn_screen);
        put_bool(buf, self.limited_crafting);
        put_var_int(buf, self.dimension_type);
        put_string(buf, self.dimension_name);
        self.write_mode(buf);
        assert(buf@ =~= old(buf)@ + self.rule_fields());
    }

    fn write_mode(&self, buf: &mut Vec<u8>)
        ensures
            final(buf)@ == old(buf)@ + self.mode_fields(),
    {
        put_i64(buf, self.hashed_seed);
        put_u8(buf, self.game_mode);
        put_u8(buf, to_unsigned_8(self.previous_gamemode));
        put_bool(buf, self.debug);
        put_bool(buf, self.is_flat);
        assert(buf@ =~= old(buf)@ + self.mode_fields());
    }

    fn write_last(&self, buf: &mut Vec<u8>)
        ensures
            final(buf)@ == old(buf)@ + self.last_fields(),
    {
        match self.death_location {
            Some(d) => {
                put_bool(buf, true);
                put_string(buf, d.dimension_name);
                put_i64(buf, d.position);
            },
            None => {
                put_bool(buf, false);
            },
        }
        put_var_int(buf, self.portal_cooldown);
        put_bool(buf, self.enforce_secure_chat);
        assert(buf@ =~= old(buf)@ + self.last_fields());
    }
}

impl<'a> ClientPacket for CLogin<'a> {
    open spec fn packet_id() -> i32 {
        0x2B
    }

    open spec fn fields(&self) -> Seq<u8> {
        self.world_fields() + self.rule_fields() + self.last_fields()
    }

    fn id() -> (id: i32) {
        0x2B
    }

    fn write(&self, buf: &mut Vec<u8>) {
        self.write_world(buf);
        self.write_rules(buf);
        self.write_last(buf);
        assert(buf@ =~= old(buf)@ + self.fields());
    }
}

/// The fields of the player's abilities: a byte of flags and two numbers of
/// 32 bits.
pub open spec fn player_abilities_fields(flags: i8, flying_speed: u32, field_of_view: u32) -> Seq<
    u8,
> {
    seq![unsigned_8(flags)] + encode_u32(flying_speed) + encode_u32(field_of_view)
}

/// The fields of a position: three numbers of 64 bits, two of 32 bits, a
/// byte of flags and the id of the teleport.
pub open spec fn sync_player_position_fields(
    x: u64,
    y: u64,
    z: u64,
    yaw: u32,
    pitch: u32,
    flags: i8,
    teleport_id: i32,
) -> Seq<u8> {
    encode_u64(x) + encode_u64(y) + encode_u64(z) + encode_u32(yaw) + encode_u32(pitch) + seq![
        unsigned_8(flags),
    ] + encode_var_int(teleport_id)
}

/// The fields of a player list update: a byte of actions, the number of
/// entries, and the entries.
pub open spec fn player_info_update_fields(actions: i8, player_count: i32, players: Seq<u8>) -> Seq<
    u8,
> {
    seq![unsigned_8(actions)] + encode_var_int(player_count) + players
}

/// The fields of a game event: the event and a number of 32 bits.
pub open spec fn game_event_fields(event: u8, value: u32) -> Seq<u8> {
    seq![event] + encode_u32(value)
}

/// The fields of a chunk centre: two VarInts.
pub open spec fn center_chunk_fields(chunk_x: i32, chunk_z: i32) -> Seq<u8> {
    encode_var_int(chunk_x) + encode_var_int(chunk_z)
}

/// Tells the client what the player may do and how fast it flies. The two
/// speeds are 32-bit IEEE 754 numbers, held by their bit patterns.
pub struct CPlayerAbilities {
    pub flags: i8,
    pub flying_speed: u32,
    pub field_of_view: u32,
}

impl CPlayerAbilities {
    pub fn new(flags: i8, flying_speed: u32, field_of_view: u32) -> (p: Self)
        ensures
            p.flags == flags,
            p.flying_speed == flying_speed,
            p.field_of_view == field_of_view,
    {
        Self { flags, flying_speed, field_of_view }
    }
}

impl ClientPacket for CPlayerAbilities {
    open spec fn packet_id() -> i32 {
        0x38
    }

    open spec fn fields(&self) -> Seq<u8> {
        player_abilities_fields(self.flags, self.flying_speed, self.field_of_view)
    }

    fn id() -> (id: i32) {
        0x38
    }

    fn write(&self, buf: &mut Vec<u8>) {
        put_u8(buf, to_unsigned_8(self.flags));
        put_u32(buf, self.flying_speed);
        put_u32(buf, self.field_of_view);
        assert(buf@ =~= old(buf)@ + self.fields());
    }
}

/// Puts the player at a position. The coordinates are 64-bit and the angles
/// 32-bit IEEE 754 numbers, held by their bit patterns.
pub struct CSyncPlayerPosition {
    pub x: u64,
    pub y: u64,
    pub z: u64,
    pub yaw: u32,
    pub pitch: u32,
    pub flags: i8,
    pub teleport_id: VarInt,
}

impl CSyncPlayerPosition {
    pub fn new(x: u64, y: u64, z: u64, yaw: u32, pitch: u32, flags: i8, teleport_id: VarInt) -> (p:
        Self)
        ensures
            p.x == x,
            p.y == y,
            p.z == z,
            p.yaw == yaw,
            p.pitch == pitch,
            p.flags == flags,
            p.teleport_id == teleport_id,
    {
        Self { x, y, z, yaw, pitch, flags, teleport_id }
    }
}

impl ClientPacket for CSyncPlayerPosition {
    open spec fn packet_id() -> i32 {
        0x40
    }

    open spec fn fields(&self) -> Seq<u8> {
        sync_player_position_fields(
            self.x,
            self.y,
            self.z,
            self.yaw,
            self.pitch,
            self.flags,
            self.teleport_id.0,
        )
    }

    fn id() -> (id: i32) {
        0x40
    }

    fn write(&self, buf: &mut Vec<u8>) {
        put_u64(buf, self.x);
        put_u64(buf, self.y);
        put_u64(buf, self.z);
        put_u32(buf, self.yaw);
        put_u32(buf, self.pitch);
        put_u8(buf, to_unsigned_8(self.flags));
        put_var_int(buf, self.teleport_id);
        assert(buf@ =~= old(buf)@ + self.fields());
    }
}

/// Updates the client's list of players. `players` holds the entries as the
/// actions encode them; the count of entries goes before them.
pub struct CPlayerInfoUpdate<'a> {
    pub actions: i8,
    pub player_count: VarInt,
    pub players: &'a [u8],
}

impl<'a> CPlayerInfoUpdate<'a> {
    /// An update that names no player.
    pub fn new(actions: i8, players: &'a [u8]) -> (p: Self)
        ensures
            p.actions == actions,
            p.player_count == VarInt(0),
            p.players == players,
    {
        Self { actions, player_count: VarInt(0), players }
    }
}

impl<'a> ClientPacket for CPlayerInfoUpdate<'a> {
    open spec fn packet_id() -> i32 {
        0x3E
    }

    open spec fn fields(&self) -> Seq<u8> {
        player_info_update_fields(self.actions, self.player_count.0, self.players@)
    }

    fn id() -> (id: i32) {
        0x3E
    }

    fn write(&self, buf: &mut Vec<u8>) {
        put_u8(buf, to_unsigned_8(self.actions));
        put_var_int(buf, self.player_count);
        crate::protocol::bytebuf::put_slice(buf, self.players);
        assert(buf@ =~= old(buf)@ + self.fields());
    }
}

/// The events of the game that the client is told of.
#[derive(Debug, Clone, Copy, PartialEq, Eq, Structural)]
pub enum GameEvent {
    NoRespawnBlockAvailable,
    BeginRaining,
    EndRaining,
    ChangeGameMode,
    WinGame,
    DemoEvent,
    ArrowHitPlayer,
    RainLevelChange,
    ThunderLevelChange,
    PlayPufferfishStringSound,
    PlayElderGuardianMobAppearance,
    EnabledRespawnScreen,
    LimitedCrafting,
    StartWaitingChunks,
}

impl GameEvent {
    /// The number that stands for the event on the wire.
    pub open spec fn spec_id(self) -> u8 {
        match self {
            GameEvent::NoRespawnBlockAvailable => 0,
            GameEvent::BeginRaining => 1,
            GameEvent::EndRaining => 2,
            GameEvent::ChangeGameMode => 3,
            GameEvent::WinGame => 4,
            GameEvent::DemoEvent => 5,
            GameEvent::ArrowHitPlayer => 6,
            GameEvent::RainLevelChange => 7,
            GameEvent::ThunderLevelChange => 8,
            GameEvent::PlayPufferfishStringSound => 9,
            GameEvent::PlayElderGuardianMobAppearance => 10,
            GameEvent::EnabledRespawnScreen => 11,
            GameEvent::LimitedCrafting => 12,
            GameEvent::StartWaitingChunks => 13,
        }
    }

    #[verifier::when_used_as_spec(spec_id)]
    pub fn id(self) -> (n: u8)
        ensures
            n == self.spec_id(),
    {
        match self {
            GameEvent::NoRespawnBlockAvailable => 0,
            GameEvent::BeginRaining => 1,
            GameEvent::EndRaining => 2,
            GameEvent::ChangeGameMode => 3,
            GameEvent::WinGame => 4,
            GameEvent::DemoEvent => 5,
            GameEvent::ArrowHitPlayer => 6,
            GameEvent::RainLevelChange => 7,
            GameEvent::ThunderLevelChange => 8,
            GameEvent::PlayPufferfishStringSound => 9,
            GameEvent::PlayElderGuardianMobAppearance => 10,
            GameEvent::EnabledRespawnScreen => 11,
            GameEvent::LimitedCrafting => 12,
            GameEvent::StartWaitingChunks => 13,
        }
    }
}

/// Tells the client of an event of the game. The value is a 32-bit IEEE 754
/// number, held by its bit pattern.
pub struct CGameEvent {
    pub event: u8,
    pub value: u32,
}

impl CGameEvent {
    pub fn new(event: GameEvent, value: u32) -> (p: Self)
        ensures
            p.event == event.spec_id(),
            p.value == value,
    {
        Self { event: event.id(), value }
    }
}

impl ClientPacket for CGameEvent {
    open spec fn packet_id() -> i32 {
        0x22
    }

    open spec fn fields(&self) -> Seq<u8> {
        game_event_fields(self.event, self.value)
    }

    fn id() -> (id: i32) {
        0x22
    }

    fn write(&self, buf: &mut Vec<u8>) {
        put_u8(buf, self.event);
        put_u32(buf, self.value);
        assert(buf@ =~= old(buf)@ + self.fields());
    }
}

/// Tells the client around which chunk it loads the world.
pub struct CCenterChunk {
    pub chunk_x: VarInt,
    pub chunk_z: VarInt,
}

impl ClientPacket for CCenterChunk {
    open spec fn packet_id() -> i32 {
        0x54
    }

    open spec fn fields(&self) -> Seq<u8> {
        center_chunk_fields(self.chunk_x.0, self.chunk_z.0)
    }

    fn id() -> (id: i32) {
        0x54
    }

    fn write(&self, buf: &mut Vec<u8>) {
        put_var_int(buf, self.chunk_x);
        put_var_int(buf, self.chunk_z);
        assert(buf@ =~= old(buf)@ + self.fields());
    }
}

/// Asks the client whether it is still there. The client answers with the
/// same id.
pub struct CKeepAlive {
    pub keep_alive_id: i64,
}

impl ClientPacket for CKeepAlive {
    open spec fn packet_id() -> i32 {
        0x26
    }

    open spec fn fields(&self) -> Seq<u8> {
        encode_i64(self.keep_alive_id)
    }

    fn id() -> (id: i32) {
        0x26
    }

    fn write(&self, buf: &mut Vec<u8>) {
        put_i64(buf, self.keep_alive_id);
    }
}

} // verus!
