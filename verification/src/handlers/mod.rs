use vstd::prelude::*;
use crate::components::client::{
    ClientEntity, ClientPacketQueue, ConfigState, CurrentState, DecoderState, EncoderState,
    EntityView, LoginStateView, PacketDecoder, PacketEncoder, StateView,
};
use crate::components::resources::{
    ConnectionModeView, KeyPair, Registry, RegistryEntryView, ServerConfig, ServerStorage,
};
use crate::error::PacketIoError;
use crate::handlers::config::{config_handler, config_step};
use crate::handlers::handshake::{handshake_handler, handshake_step};
use crate::handlers::login::{
    awaits_encryption, awaits_forwarding, handled_of, login_compression, login_handler,
    login_step, setting_of, token_oracle, LoginOracle,
};
use crate::handlers::play::play_handler;
use crate::handlers::status::{status_handler, status_of, status_step, StatusView};
use crate::protocol::frame::RawPacket;
use crate::protocol::var_int::VarInt;
use crate::protocol::ClientPacket;

pub mod config;
pub mod handshake;
pub mod login;
pub mod play;
pub mod status;

verus! {

/// All that a handler can change of a client.
#[verifier::ext_equal]
pub struct Client {
    pub enc: EncoderState,
    pub dec: DecoderState,
    pub state: StateView,
    pub entity: EntityView,
}

/// How handling a packet ended, and what it left of the client.
#[verifier::ext_equal]
pub struct Handled {
    pub result: Result<(), PacketIoError>,
    pub client: Client,
}

impl Client {
    /// Handling ended well, with the client as it is.
    pub open spec fn done(self) -> Handled {
        Handled { result: Ok(()), client: self }
    }

    /// Handling failed, with the client as it is.
    pub open spec fn fail(self, e: PacketIoError) -> Handled {
        Handled { result: Err(e), client: self }
    }

    /// The client in another state.
    pub open spec fn with_state(self, state: StateView) -> Client {
        Client { enc: self.enc, dec: self.dec, state, entity: self.entity }
    }

    /// The client with another encoder.
    pub open spec fn with_enc(self, enc: EncoderState) -> Client {
        Client { enc, dec: self.dec, state: self.state, entity: self.entity }
    }

    /// The client with another decoder.
    pub open spec fn with_dec(self, dec: DecoderState) -> Client {
        Client { enc: self.enc, dec, state: self.state, entity: self.entity }
    }

    /// The client with other components.
    pub open spec fn with_entity(self, entity: EntityView) -> Client {
        Client { enc: self.enc, dec: self.dec, state: self.state, entity }
    }

    /// A packet is appended to what goes to the client. A packet that has no
    /// frame fails the handling and changes nothing.
    pub open spec fn send(self, id: i32, fields: Seq<u8>) -> Handled {
        match self.enc.append(id, fields) {
            Ok(enc) => self.with_enc(enc).done(),
            Err(e) => self.fail(PacketIoError::Packet(e)),
        }
    }
}

impl Handled {
    /// Another packet is appended, unless handling has failed.
    pub open spec fn send(self, id: i32, fields: Seq<u8>) -> Handled {
        if self.result is Ok {
            self.client.send(id, fields)
        } else {
            self
        }
    }

    /// The client enters another state, unless handling has failed.
    pub open spec fn enter(self, state: StateView) -> Handled {
        if self.result is Ok {
            self.client.with_state(state).done()
        } else {
            self
        }
    }
}

/// The client that an encoder, a decoder, a state and components make.
pub open spec fn client_of(
    enc: PacketEncoder,
    dec: PacketDecoder,
    state: CurrentState,
    entity: ClientEntity,
) -> Client {
    Client { enc: enc@, dec: dec@, state: state@, entity: entity@ }
}

/// Appends a packet for a handler: the encoder's error becomes the handler's.
pub fn send_packet<P: ClientPacket>(enc: &mut PacketEncoder, packet: &P) -> (r: Result<
    (),
    PacketIoError,
>)
    ensures
        match old(enc)@.append(P::packet_id(), packet.fields()) {
            Ok(next) => r == Ok::<(), PacketIoError>(()) && final(enc)@ == next,
            Err(e) => r == Err::<(), PacketIoError>(PacketIoError::Packet(e)) && final(enc)@ == old(
                enc,
            )@,
        },
{
    match enc.append_packet(packet) {
        Ok(()) => Ok(()),
        Err(e) => Err(PacketIoError::Packet(e)),
    }
}

/// What the handlers read of the server.
pub struct ServerView {
    pub status: StatusView,
    pub public_key: Seq<u8>,
    pub mode: ConnectionModeView,
    pub registry: Seq<RegistryEntryView>,
}

/// What the handlers read of a configuration, the counters, a key pair and
/// the registries.
pub open spec fn server_of(
    config: ServerConfig,
    storage: ServerStorage,
    key_pair: KeyPair,
    registry: Registry,
) -> ServerView {
    ServerView {
        status: status_of(config, storage),
        public_key: key_pair.public_bytes@,
        mode: config.connection_mode@,
        registry: registry@,
    }
}

/// What a packet does to a client: the handler of the client's state decides.
/// A client in the game has every packet accepted. A client that asked for a
/// transfer has every packet refused.
#[verifier::opaque]
pub open spec fn packet_step(
    c: Client,
    id: VarInt,
    fields: Seq<u8>,
    server: ServerView,
    oracle: LoginOracle,
) -> Handled {
    match c.state {
        StateView::HandShake => handshake_step(c, id, fields),
        StateView::Status => status_step(c, id, fields, server.status),
        StateView::Login(_) => login_step(
            c,
            id,
            fields,
            server.public_key,
            server.mode,
            oracle,
        ),
        StateView::Config(_) => config_step(c, id, fields, server.registry),
        StateView::Play => c.done(),
        StateView::Transfer => c.fail(PacketIoError::BadPacket("not yet implemented")),
    }
}

/// What packets do to a client, one after the other in their order. The
/// first packet that fails ends the handling.
pub open spec fn packets_handled(
    c: Client,
    packets: Seq<(VarInt, Seq<u8>)>,
    server: ServerView,
    oracles: Seq<LoginOracle>,
) -> Handled
    decreases packets.len(),
{
    if packets.len() == 0 {
        c.done()
    } else {
        let first = packet_step(c, packets[0].0, packets[0].1, server, oracles[0]);
        if first.result is Ok {
            packets_handled(first.client, packets.skip(1), server, oracles.skip(1))
        } else {
            first
        }
    }
}

/// The packets of a queue, each by its id and the bytes of its fields.
pub open spec fn queue_view(queue: ClientPacketQueue) -> Seq<(VarInt, Seq<u8>)> {
    Seq::new(queue.0@.len(), |i: int| (queue.0@[i].id, queue.0@[i].bytebuf@))
}

/// Hands one packet to the handler of the client's state.
fn handle_packet(
    e: &mut ClientEntity,
    packet: RawPacket,
    enc: &mut PacketEncoder,
    dec: &mut PacketDecoder,
    state: &mut CurrentState,
    config: &ServerConfig,
    storage: &ServerStorage,
    key_pair: &KeyPair,
    registry: &Registry,
) -> (out: (Result<(), PacketIoError>, Ghost<LoginOracle>))
    ensures
        handled_of(out.0, *final(enc), *final(dec), *final(state), *final(e)) == packet_step(
            client_of(*old(enc), *old(dec), *old(state), *old(e)),
            packet.id,
            packet.bytebuf@,
            server_of(*config, *storage, *key_pair, *registry),
            out.1@,
        ),
{
    let ghost c = client_of(*enc, *dec, *state, *e);
    let ghost none = token_oracle(Seq::empty());
    let ghost server = server_of(*config, *storage, *key_pair, *registry);
    let ghost id = packet.id;
    let ghost fields = packet.bytebuf@;
    reveal(packet_step);
    match state {
        CurrentState::HandShake => {
            let r = handshake_handler(packet, enc, state);
            assert(handshake_step(c, id, fields) == handled_of(r, *enc, *dec, *state, *e));
            (r, Ghost(none))
        },
        CurrentState::Status => {
            let r = status_handler(packet, enc, config, storage);
            assert(status_step(c, id, fields, server.status) == handled_of(
                r,
                *enc,
                *dec,
                *state,
                *e,
            ));
            (r, Ghost(none))
        },
        CurrentState::Login(_) => {
            let r = login_handler(packet, enc, dec, state, key_pair, &config.connection_mode, e);
            let ghost oracle = choose|oracle: LoginOracle|
                handled_of(r, *enc, *dec, *state, *e) == #[trigger] login_step(
                    c,
                    id,
                    fields,
                    server.public_key,
                    server.mode,
                    oracle,
                );
            (r, Ghost(oracle))
        },
        CurrentState::Config(_) => {
            let r = config_handler(e, packet, enc, state, registry);
            assert(config_step(c, id, fields, server.registry) == handled_of(
                r,
                *enc,
                *dec,
                *state,
                *e,
            ));
            (r, Ghost(none))
        },
        CurrentState::Play => {
            let r = play_handler(packet);
            (r, Ghost(none))
        },
        CurrentState::Transfer => (
            Err(PacketIoError::BadPacket("not yet implemented")),
            Ghost(none),
        ),
    }
}

/// Handles the packets that a client sent in one tick, in their order, each
/// by the handler of the state the client is in when the packet's turn
/// comes. The first packet that fails ends the handling. `oracles` stands for
/// what chance and the private key give to each step of a login.
pub fn packet_handler(
    e: &mut ClientEntity,
    queue: &ClientPacketQueue,
    enc: &mut PacketEncoder,
    dec: &mut PacketDecoder,
    state: &mut CurrentState,
    config: &ServerConfig,
    storage: &ServerStorage,
    key_pair: &KeyPair,
    registry: &Registry,
) -> (r: Result<(), PacketIoError>)
    ensures
        exists|oracles: Seq<LoginOracle>|
            oracles.len() == queue.0@.len() && handled_of(
                r,
                *final(enc),
                *final(dec),
                *final(state),
                *final(e),
            ) == #[trigger] packets_handled(
                client_of(*old(enc), *old(dec), *old(state), *old(e)),
                queue_view(*queue),
                server_of(*config, *storage, *key_pair, *registry),
                oracles,
            ),
{
    let ghost start = client_of(*enc, *dec, *state, *e);
    let ghost server = server_of(*config, *storage, *key_pair, *registry);
    let ghost packets = queue_view(*queue);
    let ghost mut oracles: Seq<LoginOracle> = Seq::empty();
    let ghost filler = token_oracle(Seq::empty());
    let mut i: usize = 0;
    assert(packets.skip(0) =~= packets);
    while i < queue.0.len()
        invariant
            i <= queue.0@.len(),
            packets == queue_view(*queue),
            server == server_of(*config, *storage, *key_pair, *registry),
            start == client_of(*old(enc), *old(dec), *old(state), *old(e)),
            oracles.len() == i,
            forall|rest: Seq<LoginOracle>| #[trigger]
                packets_handled(start, packets, server, oracles + rest) == packets_handled(
                    client_of(*enc, *dec, *state, *e),
                    packets.skip(i as int),
                    server,
                    rest,
                ),
        decreases queue.0@.len() - i,
    {
        let ghost now = client_of(*enc, *dec, *state, *e);
        let ghost left = packets.skip(i as int);
        let packet = queue.0[i].clone();
        assert(left[0] == (packet.id, packet.bytebuf@));
        assert(left.skip(1) =~= packets.skip(i + 1));
        let (r, oracle) = handle_packet(e, packet, enc, dec, state, config, storage, key_pair, registry);
        let ghost before = oracles;
        proof {
            oracles = oracles.push(oracle@);
            assert forall|rest: Seq<LoginOracle>| #[trigger]
                packets_handled(start, packets, server, oracles + rest) == (if r is Ok {
                    packets_handled(
                        client_of(*enc, *dec, *state, *e),
                        packets.skip(i + 1),
                        server,
                        rest,
                    )
                } else {
                    handled_of(r, *enc, *dec, *state, *e)
                }) by {
                let tail = seq![oracle@] + rest;
                assert(oracles + rest =~= before + tail);
                assert(tail[0] == oracle@);
                assert(tail.skip(1) =~= rest);
                assert(packets_handled(start, packets, server, before + tail) == packets_handled(
                    now,
                    left,
                    server,
                    tail,
                ));
            }
        }
        if r.is_err() {
            proof {
                let rest = Seq::new((queue.0@.len() - i - 1) as nat, |k: int| filler);
                let all = oracles + rest;
                assert(all.len() == queue.0@.len());
                assert(handled_of(r, *enc, *dec, *state, *e) == packets_handled(
                    start,
                    packets,
                    server,
                    all,
                ));
            }
            return r;
        }
        i = i + 1;
    }
    proof {
        assert(oracles + Seq::<LoginOracle>::empty() =~= oracles);
        assert(packets.skip(i as int) =~= Seq::<(VarInt, Seq<u8>)>::empty());
        assert(packets_handled(start, packets, server, oracles + Seq::<LoginOracle>::empty())
            == client_of(*enc, *dec, *state, *e).done());
    }
    Ok(())
}

/// Where a state stands on the way of a connection. Every step of a
/// connection leaves the state where it is or moves it further on.
pub open spec fn rank(state: StateView) -> nat {
    match state {
        StateView::HandShake => 0,
        StateView::Status => 1,
        StateView::Transfer => 1,
        StateView::Login(LoginStateView::LoginStart) => 1,
        StateView::Login(LoginStateView::EncryptionResponse { .. }) => 2,
        StateView::Login(LoginStateView::VelocityResponse { .. }) => 2,
        StateView::Login(LoginStateView::LoginAck) => 3,
        StateView::Config(ConfigState::KnownPacks) => 4,
        StateView::Config(ConfigState::AckFinish) => 5,
        StateView::Play => 6,
    }
}

/// The moves that a connection can make from one state to the next: from
/// the handshake to status, to the start of a login or to a transfer; within
/// a login from its start to the wait for the answer to an encryption or a
/// forwarding request, from there to the wait for the acknowledgement; from
/// there to configuration; within configuration from the known packs to the
/// end; and from there into the game.
pub open spec fn moves_to(from: StateView, to: StateView) -> bool {
    match from {
        StateView::HandShake => to == StateView::Status || to == StateView::Transfer || to
            == StateView::Login(LoginStateView::LoginStart),
        StateView::Login(LoginStateView::LoginStart) => to matches StateView::Login(
            LoginStateView::EncryptionResponse { .. },
        ) || to matches StateView::Login(LoginStateView::VelocityResponse { .. }),
        StateView::Login(LoginStateView::EncryptionResponse { .. }) => to == StateView::Login(
            LoginStateView::LoginAck,
        ),
        StateView::Login(LoginStateView::VelocityResponse { .. }) => to == StateView::Login(
            LoginStateView::LoginAck,
        ),
        StateView::Login(LoginStateView::LoginAck) => to == StateView::Config(
            ConfigState::KnownPacks,
        ),
        StateView::Config(ConfigState::KnownPacks) => to == StateView::Config(
            ConfigState::AckFinish,
        ),
        StateView::Config(ConfigState::AckFinish) => to == StateView::Play,
        StateView::Status => false,
        StateView::Transfer => false,
        StateView::Play => false,
    }
}

/// The states of a connection form a graph without a way back. Whatever
/// packet a client sends, and however handling it ends, the client is left
/// in the state it was in or in one that this state moves to, and every move
/// leads to a higher rank. Status, transfer and the game are left by no
/// packet.
pub proof fn law_states_move_forward(
    c: Client,
    id: VarInt,
    fields: Seq<u8>,
    server: ServerView,
    oracle: LoginOracle,
)
    ensures
        ({
            let after = packet_step(c, id, fields, server, oracle).client.state;
            &&& after == c.state || moves_to(c.state, after)
            &&& rank(after) >= rank(c.state)
            &&& moves_to(c.state, after) ==> rank(after) > rank(c.state)
            &&& c.state == StateView::Play ==> after == StateView::Play
            &&& c.state == StateView::Status ==> after == StateView::Status
            &&& c.state == StateView::Transfer ==> after == StateView::Transfer
        }),
{
    let after = packet_step(c, id, fields, server, oracle).client.state;
    reveal(packet_step);
    match c.state {
        StateView::HandShake => {},
        StateView::Status => {},
        StateView::Login(_) => {
            crate::handlers::login::lemma_login_moves(
                c,
                id,
                fields,
                server.public_key,
                server.mode,
                oracle,
            );
        },
        StateView::Config(_) => {
            crate::handlers::config::lemma_config_moves(c, id, fields, server.registry);
        },
        StateView::Play => {},
        StateView::Transfer => {},
    }
}

/// Encryption is turned on at most once and never off, and compression is
/// set at most once and never lowered. Whatever packet a client sends, the
/// keys of its codec stay as they are unless the packet answers an encryption
/// request, and then both become the shared secret; the compression stays as
/// it is unless the packet answers an encryption or a forwarding request, and
/// then it becomes that of a login. Both steps move the login on when they do
/// not fail, and the states of a connection have no way back, so neither
/// happens twice to a connection.
pub proof fn law_codec_is_set_once(
    c: Client,
    id: VarInt,
    fields: Seq<u8>,
    server: ServerView,
    oracle: LoginOracle,
)
    ensures
        ({
            let after = packet_step(c, id, fields, server, oracle);
            let before = setting_of(c);
            let now = setting_of(after.client);
            &&& now.enc_key != before.enc_key || now.dec_key != before.dec_key ==> {
                &&& awaits_encryption(c.state)
                &&& now.enc_key is Some
                &&& now.enc_key == now.dec_key
            }
            &&& now.enc_compression != before.enc_compression || now.dec_compression
                != before.dec_compression ==> {
                &&& awaits_encryption(c.state) || awaits_forwarding(c.state)
                &&& now.enc_compression == login_compression(before).enc_compression
                &&& now.dec_compression == login_compression(before).dec_compression
            }
            &&& now != before && after.result is Ok ==> rank(after.client.state) > rank(c.state)
        }),
{
    reveal(packet_step);
    match c.state {
        StateView::Login(_) => {
            crate::handlers::login::lemma_login_setting(
                c,
                id,
                fields,
                server.public_key,
                server.mode,
                oracle,
            );
            crate::handlers::login::lemma_login_moves(
                c,
                id,
                fields,
                server.public_key,
                server.mode,
                oracle,
            );
            crate::handlers::login::lemma_login_done(
                c,
                id,
                fields,
                server.public_key,
                server.mode,
                oracle,
            );
        },
        StateView::Config(_) => {
            crate::handlers::config::lemma_config_setting(c, id, fields, server.registry);
        },
        _ => {},
    }
}

} // verus!
