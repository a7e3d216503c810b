use vstd::prelude::*;
use crate::components::address::{IpAddress, IpAddressView};
use crate::components::player::{ClientBrand, Play, Uuid};
use crate::error::PacketError;
use crate::protocol::cipher::{
    cfb8_decrypt, cfb8_encrypt, cfb8_register_after, law_cfb8_round_trip, Cfb8, CipherState,
};
use crate::protocol::frame::{
    encode_frame, frame_bytes, law_frame_round_trip, open_frame, open_payload, scan_frame,
    split_frame, threshold_of, CompressionInfo, FrameScan, RawPacket,
};
use crate::protocol::var_int::VarInt;
use crate::protocol::{ClientPacket, ConnectionState};

verus! {

/// What a cipher holds after `bytes` of ciphertext went through it.
pub open spec fn cipher_after(cipher: CipherState, bytes: Seq<u8>) -> CipherState {
    CipherState { key: cipher.key, register: cfb8_register_after(cipher.register, bytes) }
}

/// A fresh cipher under `key`: the key is the initialization vector too.
pub open spec fn cipher_of(key: Seq<u8>) -> CipherState {
    CipherState { key, register: key }
}

/// The state of a `PacketEncoder`.
#[verifier::ext_equal]
pub struct EncoderState {
    /// The bytes that wait to be sent.
    pub pending: Seq<u8>,
    pub compression: Option<CompressionInfo>,
    pub cipher: Option<CipherState>,
}

impl EncoderState {
    /// An encoder with nothing pending, no compression and no encryption.
    pub open spec fn fresh() -> EncoderState {
        EncoderState { pending: Seq::empty(), compression: None, cipher: None }
    }

    /// The bytes by which `frame` goes on the wire.
    pub open spec fn sealed(self, frame: Seq<u8>) -> Seq<u8> {
        match self.cipher {
            None => frame,
            Some(c) => cfb8_encrypt(c.key, c.register, frame),
        }
    }

    /// The encoder after `frame` was sealed and queued.
    pub open spec fn push_frame(self, frame: Seq<u8>) -> EncoderState {
        EncoderState {
            pending: self.pending + self.sealed(frame),
            compression: self.compression,
            cipher: match self.cipher {
                None => None,
                Some(c) => Some(cipher_after(c, self.sealed(frame))),
            },
        }
    }

    /// The encoder after a packet was appended, or why it has no frame.
    pub open spec fn append(self, id: i32, fields: Seq<u8>) -> Result<EncoderState, PacketError> {
        match frame_bytes(self.compression, id, fields) {
            Ok(frame) => Ok(self.push_frame(frame)),
            Err(e) => Err(e),
        }
    }

    /// The encoder with another cipher, or none.
    pub open spec fn with_cipher(self, cipher: Option<CipherState>) -> EncoderState {
        EncoderState { pending: self.pending, compression: self.compression, cipher }
    }

    /// The encoder with another compression, or none.
    pub open spec fn with_compression(self, compression: Option<CompressionInfo>) -> EncoderState {
        EncoderState { pending: self.pending, compression, cipher: self.cipher }
    }
}

/// Turns packets into the bytes that go to one client: each packet is framed,
/// compressed where it is long enough, encrypted once a key is set, and queued
/// until `take` collects it.
#[derive(Default)]
pub struct PacketEncoder {
    buf: Vec<u8>,
    compression: Option<CompressionInfo>,
    cipher: Option<Cfb8>,
}

impl View for PacketEncoder {
    type V = EncoderState;

    closed spec fn view(&self) -> EncoderState {
        EncoderState {
            pending: self.buf@,
            compression: self.compression,
            cipher: match self.cipher {
                Some(c) => Some(c@),
                None => None,
            },
        }
    }
}

impl PacketEncoder {
    pub fn new() -> (enc: Self)
        ensures
            enc@ == EncoderState::fresh(),
    {
        PacketEncoder { buf: Vec::new(), compression: None, cipher: None }
    }

    /// Frames `packet` and queues it. A packet that has no frame changes
    /// nothing.
    pub fn append_packet<P: ClientPacket>(&mut self, packet: &P) -> (r: Result<(), PacketError>)
        ensures
            match old(self)@.append(P::packet_id(), packet.fields()) {
                Ok(next) => r == Ok::<(), PacketError>(()) && final(self)@ == next,
                Err(e) => r == Err::<(), PacketError>(e) && final(self)@ == old(self)@,
            },
    {
        let mut fields: Vec<u8> = Vec::new();
        packet.write(&mut fields);
        assert(fields@ =~= packet.fields());
        let frame = encode_frame(&self.compression, P::id(), fields.as_slice())?;
        match self.cipher {
            None => {
                self.buf.extend_from_slice(frame.as_slice());
            },
            Some(mut cipher) => {
                cipher.encrypt(frame.as_slice(), &mut self.buf);
                self.cipher = Some(cipher);
            },
        }
        assert(self@.pending =~= old(self)@.pending + old(self)@.sealed(frame@));
        assert(self@ =~= old(self)@.push_frame(frame@));
        Ok(())
    }

    /// Starts to encrypt what is appended from now on, with `key` as key and
    /// as initialization vector; without a key, stops to encrypt.
    pub fn set_encryption(&mut self, key: Option<&[u8; 16]>)
        ensures
            final(self)@ == old(self)@.with_cipher(
                match key {
                    Some(k) => Some(cipher_of(k@)),
                    None => None,
                },
            ),
    {
        match key {
            Some(k) => {
                self.cipher = Some(Cfb8::new(k));
            },
            None => {
                self.cipher = None;
            },
        }
    }

    /// Sets from which size on packets are compressed, and how hard; without
    /// a value, stops to compress.
    pub fn set_compression(&mut self, compression: Option<CompressionInfo>)
        ensures
            final(self)@ == old(self)@.with_compression(compression),
    {
        self.compression = compression;
    }

    /// Hands out all bytes that wait to be sent, and keeps none.
    pub fn take(&mut self) -> (bytes: Vec<u8>)
        ensures
            bytes@ == old(self)@.pending,
            final(self)@ == (EncoderState {
                pending: Seq::empty(),
                compression: old(self)@.compression,
                cipher: old(self)@.cipher,
            }),
    {
        let mut bytes: Vec<u8> = Vec::new();
        core::mem::swap(&mut self.buf, &mut bytes);
        bytes
    }
}

/// The state of a `PacketDecoder`.
#[verifier::ext_equal]
pub struct DecoderState {
    /// The received bytes, decrypted, that no packet was made of yet.
    pub input: Seq<u8>,
    /// The compression threshold of the connection, once it compresses.
    pub compression: Option<u32>,
    pub cipher: Option<CipherState>,
}

impl DecoderState {
    /// A decoder with no input, no compression and no encryption.
    pub open spec fn fresh() -> DecoderState {
        DecoderState { input: Seq::empty(), compression: None, cipher: None }
    }

    /// What received `bytes` are in the clear.
    pub open spec fn opened(self, bytes: Seq<u8>) -> Seq<u8> {
        match self.cipher {
            None => bytes,
            Some(c) => cfb8_decrypt(c.key, c.register, bytes),
        }
    }

    /// The decoder after `bytes` came in.
    pub open spec fn queue(self, bytes: Seq<u8>) -> DecoderState {
        DecoderState {
            input: self.input + self.opened(bytes),
            compression: self.compression,
            cipher: match self.cipher {
                None => None,
                Some(c) => Some(cipher_after(c, bytes)),
            },
        }
    }

    /// The decoder with other input.
    pub open spec fn with_input(self, input: Seq<u8>) -> DecoderState {
        DecoderState { input, compression: self.compression, cipher: self.cipher }
    }

    /// The decoder with another cipher, or none.
    pub open spec fn with_cipher(self, cipher: Option<CipherState>) -> DecoderState {
        DecoderState { input: self.input, compression: self.compression, cipher }
    }

    /// The decoder with another threshold, or none.
    pub open spec fn with_compression(self, compression: Option<u32>) -> DecoderState {
        DecoderState { input: self.input, compression, cipher: self.cipher }
    }
}

/// Turns the bytes that come from one client into packets: bytes are
/// decrypted as they come in, and `decode` takes one whole frame at a time off
/// the front.
#[derive(Default)]
pub struct PacketDecoder {
    buf: Vec<u8>,
    compression: Option<u32>,
    cipher: Option<Cfb8>,
}

impl View for PacketDecoder {
    type V = DecoderState;

    closed spec fn view(&self) -> DecoderState {
        DecoderState {
            input: self.buf@,
            compression: self.compression,
            cipher: match self.cipher {
                Some(c) => Some(c@),
                None => None,
            },
        }
    }
}

impl PacketDecoder {
    pub fn new() -> (dec: Self)
        ensures
            dec@ == DecoderState::fresh(),
    {
        PacketDecoder { buf: Vec::new(), compression: None, cipher: None }
    }

    /// Takes in received bytes, decrypting them where a key is set.
    pub fn queue_slice(&mut self, bytes: &[u8])
        ensures
            final(self)@ == old(self)@.queue(bytes@),
    {
        match self.cipher {
            None => {
                self.buf.extend_from_slice(bytes);
            },
            Some(mut cipher) => {
                cipher.decrypt(bytes, &mut self.buf);
                self.cipher = Some(cipher);
            },
        }
        assert(self@.input =~= old(self)@.input + old(self)@.opened(bytes@));
        assert(self@ =~= old(self)@.queue(bytes@));
    }

    /// Takes the next packet off the input. Without a whole frame at the front
    /// there is none yet, and the input stays. A length prefix that cannot be
    /// one is an error and the input stays too. A whole frame is taken off,
    /// whether or not a packet can be made of it.
    pub fn decode(&mut self) -> (r: Result<Option<RawPacket>, PacketError>)
        ensures
            match scan_frame(old(self)@.input) {
                FrameScan::NeedMore => r matches Ok(None) && final(self)@ == old(self)@,
                FrameScan::Bad(e) => r matches Err(err) && err == e && final(self)@ == old(self)@,
                FrameScan::Frame { payload, rest } => final(self)@ == old(self)@.with_input(rest)
                    && match open_payload(payload, old(self)@.compression) {
                    Ok((id, fields)) => r matches Ok(Some(p)) && p.id == id && p.bytebuf@
                        == fields,
                    Err(e) => r matches Err(err) && err == e,
                },
            },
    {
        match split_frame(&mut self.buf) {
            Err(e) => Err(e),
            Ok(None) => Ok(None),
            Ok(Some(payload)) => match open_frame(payload, self.compression) {
                Ok(packet) => Ok(Some(packet)),
                Err(e) => Err(e),
            },
        }
    }

    /// Starts to decrypt what comes in from now on, with `key` as key and as
    /// initialization vector; without a key, stops to decrypt.
    pub fn set_encryption(&mut self, key: Option<&[u8; 16]>)
        ensures
            final(self)@ == old(self)@.with_cipher(
                match key {
                    Some(k) => Some(cipher_of(k@)),
                    None => None,
                },
            ),
    {
        match key {
            Some(k) => {
                self.cipher = Some(Cfb8::new(k));
            },
            None => {
                self.cipher = None;
            },
        }
    }

    /// Tells the decoder that frames carry a data length from now on, and
    /// from which size on the peer compresses; without a value, that frames
    /// carry none.
    pub fn set_compression(&mut self, threshold: Option<u32>)
        ensures
            final(self)@ == old(self)@.with_compression(threshold),
    {
        self.compression = threshold;
    }
}

/// What went out through an encoder comes in through a decoder whose cipher
/// is in step with it as the frame that was sent, and leaves the two ciphers
/// in step: encryption is undone across any number of packets.
pub proof fn law_cipher_in_step(enc: EncoderState, dec: DecoderState, frame: Seq<u8>)
    requires
        enc.cipher == dec.cipher,
    ensures
        dec.queue(enc.sealed(frame)).input == dec.input + frame,
        dec.queue(enc.sealed(frame)).cipher == enc.push_frame(frame).cipher,
{
    if let Some(c) = enc.cipher {
        law_cfb8_round_trip(c.key, c.register, frame);
    }
}

/// A packet that goes out through an encoder comes in whole through a
/// decoder that is in step with it: one with the same cipher state, with the
/// encoder's threshold, and with nothing left over in its input. The decoder
/// finds one frame and nothing behind it, the frame holds the packet's id and
/// fields, and the two ciphers are in step again.
pub proof fn law_packet_round_trip(enc: EncoderState, dec: DecoderState, id: i32, fields: Seq<u8>)
    requires
        enc.cipher == dec.cipher,
        dec.compression == threshold_of(enc.compression),
        dec.input.len() == 0,
        enc.append(id, fields) is Ok,
    ensures
        ({
            let sent = enc.append(id, fields)->Ok_0;
            let wire = sent.pending.skip(enc.pending.len() as int);
            let got = dec.queue(wire);
            &&& got.cipher == sent.cipher
            &&& scan_frame(got.input) matches FrameScan::Frame { payload, rest }
            &&& rest.len() == 0
            &&& open_payload(payload, got.compression) == Ok::<(VarInt, Seq<u8>), PacketError>(
                (VarInt(id), fields),
            )
        }),
{
    let frame = frame_bytes(enc.compression, id, fields)->Ok_0;
    let sent = enc.append(id, fields)->Ok_0;
    let wire = sent.pending.skip(enc.pending.len() as int);
    assert(wire =~= enc.sealed(frame));
    law_cipher_in_step(enc, dec, frame);
    law_frame_round_trip(enc.compression, id, fields, Seq::empty());
    assert(dec.input + frame =~= frame + Seq::<u8>::empty());
}

/// The packets of one tick, in the order in which they arrived.
#[derive(Default, Clone)]
pub struct ClientPacketQueue(pub Vec<RawPacket>);

/// The place of a client in the server's table of clients.
#[derive(Debug, Clone, Copy, PartialEq, Eq, Structural)]
pub struct SlabId(pub usize);

/// The address a client connects from: that of its socket, or the one a
/// proxy forwarded.
#[derive(Debug, Clone, Copy)]
pub struct RemoteAddress(pub IpAddress);

/// Where a client stands in the login exchange.
#[derive(Debug, Clone)]
pub enum LoginState {
    /// Nothing was received yet.
    LoginStart,
    /// An encryption request was sent; its answer is due.
    EncryptionResponse { verify_token: [u8; 4], uuid: Uuid, username: String },
    /// The login succeeded; the client's acknowledgement is due.
    LoginAck,
    /// A request for forwarded player data was sent; its answer is due.
    VelocityResponse { message_id: i32, username: String },
}

/// A login state, with its text as sequences of characters.
pub enum LoginStateView {
    LoginStart,
    EncryptionResponse { verify_token: Seq<u8>, uuid: Seq<u8>, username: Seq<char> },
    LoginAck,
    VelocityResponse { message_id: i32, username: Seq<char> },
}

impl View for LoginState {
    type V = LoginStateView;

    open spec fn view(&self) -> LoginStateView {
        match self {
            LoginState::LoginStart => LoginStateView::LoginStart,
            LoginState::EncryptionResponse { verify_token, uuid, username } => {
                LoginStateView::EncryptionResponse {
                    verify_token: verify_token@,
                    uuid: uuid@,
                    username: username@,
                }
            },
            LoginState::LoginAck => LoginStateView::LoginAck,
            LoginState::VelocityResponse { message_id, username } => {
                LoginStateView::VelocityResponse { message_id: *message_id, username: username@ }
            },
        }
    }
}

/// Where a client stands in configuration.
#[derive(Debug, Clone, Copy, PartialEq, Eq, Structural)]
pub enum ConfigState {
    /// The client's list of known packs is due.
    KnownPacks,
    /// The client's acknowledgement of the end of configuration is due.
    AckFinish,
}

/// The state of a connection.
#[derive(Debug, Clone)]
pub enum CurrentState {
    HandShake,
    Status,
    Login(LoginState),
    Transfer,
    Config(ConfigState),
    Play,
}

/// The state of a connection, with its text as sequences of characters.
pub enum StateView {
    HandShake,
    Status,
    Login(LoginStateView),
    Transfer,
    Config(ConfigState),
    Play,
}

impl View for CurrentState {
    type V = StateView;

    open spec fn view(&self) -> StateView {
        match self {
            CurrentState::HandShake => StateView::HandShake,
            CurrentState::Status => StateView::Status,
            CurrentState::Login(login) => StateView::Login(login@),
            CurrentState::Transfer => StateView::Transfer,
            CurrentState::Config(config) => StateView::Config(*config),
            CurrentState::Play => StateView::Play,
        }
    }
}

impl CurrentState {
    /// The name of the state, without what it holds.
    pub open spec fn spec_name(&self) -> &'static str {
        match self {
            CurrentState::HandShake => "HandShake",
            CurrentState::Status => "Status",
            CurrentState::Login(_) => "Login",
            CurrentState::Transfer => "Transfer",
            CurrentState::Config(_) => "Config",
            CurrentState::Play => "Play",
        }
    }

    /// The name of the state, as it is shown.
    pub fn name(&self) -> (text: &'static str)
        ensures
            text == self.spec_name(),
    {
        match self {
            CurrentState::HandShake => "HandShake",
            CurrentState::Status => "Status",
            CurrentState::Login(_) => "Login",
            CurrentState::Transfer => "Transfer",
            CurrentState::Config(_) => "Config",
            CurrentState::Play => "Play",
        }
    }
}

impl From<ConnectionState> for CurrentState {
    fn from(value: ConnectionState) -> (state: Self) {
        match value {
            ConnectionState::HandShake => CurrentState::HandShake,
            ConnectionState::Status => CurrentState::Status,
            ConnectionState::Login => CurrentState::Login(LoginState::LoginStart),
            ConnectionState::Transfer => CurrentState::Transfer,
            ConnectionState::Config => CurrentState::Config(ConfigState::AckFinish),
            ConnectionState::Play => CurrentState::Play,
        }
    }
}

impl vstd::std_specs::convert::FromSpecImpl<ConnectionState> for CurrentState {
    open spec fn obeys_from_spec() -> bool {
        true
    }

    /// A connection enters login at its start, and configuration at its last
    /// step.
    open spec fn from_spec(value: ConnectionState) -> Self {
        match value {
            ConnectionState::HandShake => CurrentState::HandShake,
            ConnectionState::Status => CurrentState::Status,
            ConnectionState::Login => CurrentState::Login(LoginState::LoginStart),
            ConnectionState::Transfer => CurrentState::Transfer,
            ConnectionState::Config => CurrentState::Config(ConfigState::AckFinish),
            ConnectionState::Play => CurrentState::Play,
        }
    }
}

/// What a handler knows of a client besides its connection: the components
/// that the login and the configuration attach to it.
#[derive(Debug, Clone, Default)]
pub struct ClientEntity {
    pub uuid: Option<Uuid>,
    pub remote_address: Option<RemoteAddress>,
    pub brand: Option<ClientBrand>,
    pub play: Option<Play>,
}

/// The components of a client, with their text as sequences of characters.
pub struct EntityView {
    pub uuid: Option<Seq<u8>>,
    pub remote_address: Option<IpAddressView>,
    pub brand: Option<Seq<char>>,
    pub play: bool,
}

impl View for ClientEntity {
    type V = EntityView;

    open spec fn view(&self) -> EntityView {
        EntityView {
            uuid: match self.uuid {
                Some(u) => Some(u@),
                None => None,
            },
            remote_address: match self.remote_address {
                Some(a) => Some(a.0@),
                None => None,
            },
            brand: match self.brand {
                Some(b) => Some(b.0@),
                None => None,
            },
            play: self.play is Some,
        }
    }
}

impl ClientEntity {
    /// A client with none of these components.
    pub fn new() -> (e: Self)
        ensures
            e@ == (EntityView { uuid: None, remote_address: None, brand: None, play: false }),
    {
        ClientEntity { uuid: None, remote_address: None, brand: None, play: None }
    }
}

} // verus!
