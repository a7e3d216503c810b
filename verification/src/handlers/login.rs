use vstd::prelude::*;
use vstd::utf8::encode_utf8;
use crate::components::address::{ip_address_of, parse_ip_address, IpAddressView};
use crate::components::client::{
    cipher_of, ClientEntity, ConfigState, CurrentState, EntityView, LoginState, LoginStateView,
    PacketDecoder, PacketEncoder, RemoteAddress, StateView,
};
use crate::components::player::Uuid;
use crate::components::resources::{ConnectionMode, ConnectionModeView, KeyPair};
use crate::components::{
    read_bool, read_bytes, read_string, read_var_int, Read, ReadByteBuffer,
    DEFAULT_MAX_STRING_SIZE,
};
use crate::crypto::{
    hmac_sha256, hmac_sha256_verify, md5_digest, md5_of, random_verify_token, rsa_decrypt,
};
use crate::error::{DeserializerError, LoginError, PacketError, PacketIoError};
use crate::handlers::{client_of, send_packet, Client, Handled};
use crate::protocol::client::config::{known_packs_fields, CKnownPacks, KnownPack};
use crate::protocol::client::login::{
    encryption_request_fields, login_plugin_request_fields, login_success_fields,
    CEncryptionRequest, CLoginPluginRequest, CLoginSuccess, CSetCompression, Property,
};
use crate::protocol::frame::{CompressionInfo, RawPacket};
use crate::protocol::server::login::{
    LoginPluginResponseView, SEncryptionResponse, SLoginAcknowledged, SLoginPluginResponse,
    SLoginStart,
};
use crate::protocol::var_int::{encode_var_int, VarInt};
use crate::protocol::ClientPacket;

verus! {

/// The oldest version of the forwarding format that the server accepts.
pub const VELOCITY_MIN_SUPPORTED_VERSION: u8 = 1;

/// The version of the forwarding format from which on a proxy forwards the
/// player's signing key too.
pub const VELOCITY_MODERN_FORWARDING_WITH_KEY_V2: i32 = 3;

/// The compression threshold that a login sets.
pub const COMPRESSION_THRESHOLD: i32 = 256;

/// The zlib level at which the server compresses.
pub const COMPRESSION_LEVEL: u32 = 6;

/// `<&[u8; N]>::try_from(&[u8])`: the slice as an array, where it has `N`
/// items.
#[verifier::external_body]
fn slice_as_array<const N: usize>(slice: &[u8]) -> (array: Option<&[u8; N]>)
    ensures
        array is Some <==> slice@.len() == N,
        array matches Some(a) ==> a@ == slice@,
{
    <&[u8; N]>::try_from(slice).ok()
}

/// The slice as an array of `N` bytes, where it has that many.
pub fn to_bytes<const N: usize>(slice: &[u8]) -> (array: Option<&[u8; N]>)
    ensures
        array is Some <==> slice@.len() == N,
        array matches Some(a) ==> a@ == slice@,
{
    slice_as_array::<N>(slice)
}

/// Whether two runs of bytes are the same. Runs of one length take the same
/// time whatever they hold.
pub fn same_bytes(a: &[u8], b: &[u8]) -> (same: bool)
    ensures
        same == (a@ == b@),
{
    if a.len() != b.len() {
        return false;
    }
    let mut differ: u8 = 0;
    let mut i: usize = 0;
    assert(a@.take(0) =~= b@.take(0));
    while i < a.len()
        invariant
            i <= a@.len(),
            a@.len() == b@.len(),
            differ == 0 <==> a@.take(i as int) == b@.take(i as int),
        decreases a@.len() - i,
    {
        let x = a[i];
        let y = b[i];
        let before = differ;
        differ = differ | (x ^ y);
        assert(differ == 0 <==> (before == 0 && x == y)) by (bit_vector)
            requires
                differ == before | (x ^ y),
        ;
        proof {
            let ta = a@.take(i + 1);
            let tb = b@.take(i + 1);
            assert(ta.drop_last() =~= a@.take(i as int));
            assert(tb.drop_last() =~= b@.take(i as int));
            assert(ta.last() == x && tb.last() == y);
            if ta == tb {
                assert(ta.drop_last() == tb.drop_last());
            }
            if a@.take(i as int) == b@.take(i as int) && x == y {
                assert(ta =~= tb);
            }
        }
        i = i + 1;
    }
    assert(a@.take(i as int) =~= a@ && b@.take(i as int) =~= b@);
    differ == 0
}

/// The UUID of a player whom nobody vouches for: the MD5 digest of the name.
pub open spec fn offline_uuid_of(username: Seq<char>) -> Seq<u8> {
    md5_of(encode_utf8(username))
}

/// The UUID that a player has in offline mode.
pub fn offline_uuid(username: &str) -> (uuid: Uuid)
    ensures
        uuid@ == offline_uuid_of(username@),
{
    Uuid(md5_digest(username.as_bytes()))
}

/// The data pack that the server announces.
pub open spec fn core_pack() -> KnownPack<'static> {
    KnownPack { namespace: "minecraft:core", id: "core", version: "1.21" }
}

/// The client after a login set the compression up: the client is told the
/// threshold, and from then on encoder and decoder compress. A threshold
/// below zero is told and turns nothing on.
pub open spec fn compression_set(c: Client, threshold: i32) -> Handled {
    let told = c.send(CSetCompression::packet_id(), encode_var_int(threshold));
    if told.result is Ok && threshold >= 0 {
        told.client.with_enc(
            told.client.enc.with_compression(
                Some(CompressionInfo { threshold: threshold as u32, level: COMPRESSION_LEVEL }),
            ),
        ).with_dec(told.client.dec.with_compression(Some(threshold as u32))).done()
    } else {
        told
    }
}

/// Tells the client the compression threshold and turns compression on.
pub fn setup_compression(threshold: i32, enc: &mut PacketEncoder, dec: &mut PacketDecoder) -> (r:
    Result<(), PacketIoError>)
    ensures
        forall|c: Client|
            c.enc == old(enc)@ && c.dec == old(dec)@ ==> #[trigger] compression_set(c, threshold)
                == (Handled {
                result: r,
                client: c.with_enc(final(enc)@).with_dec(final(dec)@),
            }),
{
    send_packet(enc, &CSetCompression::new(VarInt(threshold)))?;
    if threshold >= 0 {
        enc.set_compression(
            Some(CompressionInfo { threshold: threshold as u32, level: COMPRESSION_LEVEL }),
        );
        dec.set_compression(Some(threshold as u32));
    }
    Ok(())
}

/// The client after the server asked it to encrypt: the request is sent, and
/// the login waits for the answer with the token, the player's offline UUID
/// and the name.
pub open spec fn encryption_requested(
    c: Client,
    username: Seq<char>,
    public_key: Seq<u8>,
    verify_token: Seq<u8>,
) -> Handled {
    c.send(
        CEncryptionRequest::packet_id(),
        encryption_request_fields(""@, public_key, verify_token, false),
    ).enter(
        StateView::Login(
            LoginStateView::EncryptionResponse {
                verify_token,
                uuid: offline_uuid_of(username),
                username,
            },
        ),
    )
}

/// Asks the client to encrypt, with a token that the caller drew.
pub fn request_encryption(
    enc: &mut PacketEncoder,
    username: String,
    public_bytes: &[u8],
    verify_token: [u8; 4],
    login: &mut LoginState,
) -> (r: Result<(), PacketIoError>)
    ensures
        forall|c: Client|
            c.enc == old(enc)@ && c.state == StateView::Login(old(login)@)
                ==> #[trigger] encryption_requested(c, username@, public_bytes@, verify_token@)
                == (Handled {
                result: r,
                client: c.with_enc(final(enc)@).with_state(StateView::Login(final(login)@)),
            }),
{
    send_packet(
        enc,
        &CEncryptionRequest::new("", public_bytes, verify_token.as_slice(), false),
    )?;
    let uuid = offline_uuid(username.as_str());
    *login = LoginState::EncryptionResponse { verify_token, uuid, username };
    Ok(())
}

/// Asks the client to encrypt, with a token drawn by chance. The token is
/// the one that the login holds afterwards.
pub fn login_offline(
    enc: &mut PacketEncoder,
    username: String,
    public_bytes: &[u8],
    login: &mut LoginState,
) -> (r: Result<(), PacketIoError>)
    ensures
        exists|verify_token: Seq<u8>|
            verify_token.len() == 4 && forall|c: Client|
                c.enc == old(enc)@ && c.state == StateView::Login(old(login)@)
                    ==> #[trigger] encryption_requested(c, username@, public_bytes@, verify_token)
                    == (Handled {
                    result: r,
                    client: c.with_enc(final(enc)@).with_state(StateView::Login(final(login)@)),
                }),
{
    let verify_token = random_verify_token();
    request_encryption(enc, username, public_bytes, verify_token, login)
}

/// The client after the server asked the proxy for the player's identity:
/// the request is sent on the forwarding channel, and the login waits for the
/// answer.
pub open spec fn forwarding_requested(c: Client, username: Seq<char>) -> Handled {
    c.send(
        CLoginPluginRequest::packet_id(),
        login_plugin_request_fields(
            0,
            "velocity:player_info"@,
            seq![VELOCITY_MIN_SUPPORTED_VERSION],
        ),
    ).enter(StateView::Login(LoginStateView::VelocityResponse { message_id: 0, username }))
}

/// Asks the proxy for the player's identity.
pub fn login_velocity(enc: &mut PacketEncoder, username: String, login: &mut LoginState) -> (r:
    Result<(), PacketIoError>)
    ensures
        forall|c: Client|
            c.enc == old(enc)@ && c.state == StateView::Login(old(login)@)
                ==> #[trigger] forwarding_requested(c, username@) == (Handled {
                result: r,
                client: c.with_enc(final(enc)@).with_state(StateView::Login(final(login)@)),
            }),
{
    let message_id: i32 = 0;
    let data = [VELOCITY_MIN_SUPPORTED_VERSION];
    assert(data@ =~= seq![VELOCITY_MIN_SUPPORTED_VERSION]);
    send_packet(
        enc,
        &CLoginPluginRequest::new(VarInt(message_id), "velocity:player_info", data.as_slice()),
    )?;
    *login = LoginState::VelocityResponse { message_id, username };
    Ok(())
}

/// The client after a login went through: compression is set up at the
/// login threshold, the client is told that it is logged in, and the login
/// waits for the acknowledgement.
pub open spec fn login_succeeded(c: Client, uuid: Seq<u8>, username: Seq<char>) -> Handled {
    compression_set(c, COMPRESSION_THRESHOLD).send(
        CLoginSuccess::packet_id(),
        login_success_fields(uuid, username, Seq::empty(), true),
    ).enter(StateView::Login(LoginStateView::LoginAck))
}

/// Sets compression up and tells the client that it is logged in.
fn finish_login(
    enc: &mut PacketEncoder,
    dec: &mut PacketDecoder,
    uuid: &Uuid,
    username: &str,
) -> (r: Result<(), PacketIoError>)
    ensures
        forall|c: Client|
            c.enc == old(enc)@ && c.dec == old(dec)@ ==> #[trigger] login_succeeded(
                c,
                uuid@,
                username@,
            ) == (Handled {
                result: r,
                client: if r is Ok {
                    c.with_enc(final(enc)@).with_dec(final(dec)@).with_state(
                        StateView::Login(LoginStateView::LoginAck),
                    )
                } else {
                    c.with_enc(final(enc)@).with_dec(final(dec)@)
                },
            }),
{
    setup_compression(COMPRESSION_THRESHOLD, enc, dec)?;
    let none: [Property; 0] = [];
    send_packet(enc, &CLoginSuccess::new(uuid, username, none.as_slice(), true))?;
    Ok(())
}

/// What a proxy forwards of a player.
pub struct Forwarded {
    pub version: i32,
    pub address: IpAddressView,
    pub uuid: Seq<u8>,
}

/// One property of a forwarded profile: a name, a value, and a signature
/// where the boolean before it says so.
pub open spec fn read_property(s: Seq<u8>) -> Read<()> {
    match read_string(s, DEFAULT_MAX_STRING_SIZE) {
        (Err(e), rest) => (Err(e), rest),
        (Ok(_), s1) => match read_string(s1, DEFAULT_MAX_STRING_SIZE) {
            (Err(e), rest) => (Err(e), rest),
            (Ok(_), s2) => match read_bool(s2) {
                (Err(e), rest) => (Err(e), rest),
                (Ok(false), s3) => (Ok(()), s3),
                (Ok(true), s3) => match read_string(s3, DEFAULT_MAX_STRING_SIZE) {
                    (Err(e), rest) => (Err(e), rest),
                    (Ok(_), s4) => (Ok(()), s4),
                },
            },
        },
    }
}

/// `n` properties, one after the other.
pub open spec fn read_properties(s: Seq<u8>, n: nat) -> Read<()>
    decreases n,
{
    if n == 0 {
        (Ok(()), s)
    } else {
        match read_property(s) {
            (Err(e), rest) => (Err(e), rest),
            (Ok(_), rest) => read_properties(rest, (n - 1) as nat),
        }
    }
}

/// The properties of a forwarded profile, behind their number.
pub open spec fn read_property_list(s: Seq<u8>) -> Read<()> {
    match read_var_int(s) {
        (Err(e), rest) => (Err(e), rest),
        (Ok(count), rest) => if count.0 < 0 {
            (Err(DeserializerError::NegativeLength), rest)
        } else {
            read_properties(rest, count.0 as nat)
        },
    }
}

/// What forwarded data hold: the version of the format, the player's address
/// as text, the player's UUID, the name, which must be `username`, and the
/// properties of the profile, which must be well-formed.
pub open spec fn parse_forwarded(data: Seq<u8>, username: Seq<char>) -> Result<
    Forwarded,
    PacketIoError,
> {
    match read_var_int(data) {
        (Err(e), _) => Err(PacketIoError::Deserializer(e)),
        (Ok(version), s1) => match read_string(s1, DEFAULT_MAX_STRING_SIZE) {
            (Err(e), _) => Err(PacketIoError::Deserializer(e)),
            (Ok(text), s2) => match ip_address_of(encode_utf8(text)) {
                None => Err(PacketIoError::Login(LoginError::InvalidRemoteAddress)),
                Some(address) => match read_bytes(s2, 16) {
                    (Err(e), _) => Err(PacketIoError::Deserializer(e)),
                    (Ok(uuid), s3) => match read_string(s3, DEFAULT_MAX_STRING_SIZE) {
                        (Err(e), _) => Err(PacketIoError::Deserializer(e)),
                        (Ok(name), s4) => if name != username {
                            Err(PacketIoError::Login(LoginError::MismatchedUsernames))
                        } else {
                            match read_property_list(s4).0 {
                                Err(e) => Err(PacketIoError::Deserializer(e)),
                                Ok(_) => Ok(Forwarded { version: version.0, address, uuid }),
                            }
                        },
                    },
                },
            },
        },
    }
}

/// Whether a plugin response is the proxy's answer to the request with
/// `message_id`, signed with the shared secret, for the player `username`;
/// and what it forwards.
pub open spec fn check_forwarding(
    p: LoginPluginResponseView,
    message_id: i32,
    username: Seq<char>,
    mode: ConnectionModeView,
) -> Result<Forwarded, PacketIoError> {
    if p.message_id.0 != message_id {
        Err(
            PacketIoError::Login(
                LoginError::MismatchedResponseId { got: p.message_id.0, expected: message_id },
            ),
        )
    } else {
        match p.data {
            None => Err(PacketIoError::Login(LoginError::MissingResponseData)),
            Some(data) => if data.len() < 32 {
                Err(PacketIoError::Login(LoginError::InvalidResponseLength))
            } else {
                match mode {
                    ConnectionModeView::Offline => Err(
                        PacketIoError::Login(LoginError::InvalidState),
                    ),
                    ConnectionModeView::Velocity { secret } => if data.take(32) != hmac_sha256(
                        secret,
                        data.skip(32),
                    ) {
                        Err(PacketIoError::Login(LoginError::InvalidSignature))
                    } else {
                        parse_forwarded(data.skip(32), username)
                    },
                }
            },
        }
    }
}

/// What `read_forwarded` hands out, by its views.
pub open spec fn forwarded_view(r: Result<(i32, RemoteAddress, Uuid), PacketIoError>) -> Result<
    Forwarded,
    PacketIoError,
> {
    match r {
        Ok((version, address, uuid)) => Ok(
            Forwarded { version, address: address.0@, uuid: uuid@ },
        ),
        Err(e) => Err(e),
    }
}

fn skip_property(buf: &mut ReadByteBuffer) -> (r: Result<(), DeserializerError>)
    ensures
        (r, final(buf)@) == read_property(old(buf)@),
{
    let _ = buf.get_string()?;
    let _ = buf.get_string()?;
    if buf.get_bool()? {
        let _ = buf.get_string()?;
    }
    Ok(())
}

fn skip_property_list(buf: &mut ReadByteBuffer) -> (r: Result<(), DeserializerError>)
    ensures
        (r, final(buf)@) == read_property_list(old(buf)@),
{
    let count = buf.get_var_int()?.0;
    if count < 0 {
        return Err(DeserializerError::NegativeLength);
    }
    let ghost start = buf@;
    let mut done: i32 = 0;
    while done < count
        invariant
            0 <= done <= count,
            read_var_int(old(buf)@) == (Ok::<VarInt, DeserializerError>(VarInt(count)), start),
            read_properties(start, count as nat) == read_properties(buf@, (count - done) as nat),
        decreases count - done,
    {
        match skip_property(buf) {
            Ok(()) => {},
            Err(e) => {
                return Err(e);
            },
        }
        done = done + 1;
    }
    Ok(())
}

/// Takes forwarded data apart and checks the name in them against
/// `username`.
pub fn read_forwarded(data: &[u8], username: &str) -> (r: Result<
    (i32, RemoteAddress, Uuid),
    PacketIoError,
>)
    ensures
        forwarded_view(r) == parse_forwarded(data@, username@),
{
    let mut buf = ReadByteBuffer::from_vec(vstd::slice::slice_to_vec(data));
    let version = match buf.get_var_int() {
        Ok(v) => v.0,
        Err(e) => {
            return Err(PacketIoError::Deserializer(e));
        },
    };
    let text = match buf.get_string() {
        Ok(t) => t,
        Err(e) => {
            return Err(PacketIoError::Deserializer(e));
        },
    };
    let address = match parse_ip_address(text.as_str()) {
        Some(a) => a,
        None => {
            return Err(PacketIoError::Login(LoginError::InvalidRemoteAddress));
        },
    };
    let uuid = match buf.get_uuid() {
        Ok(u) => u,
        Err(e) => {
            return Err(PacketIoError::Deserializer(e));
        },
    };
    let name = match buf.get_string() {
        Ok(n) => n,
        Err(e) => {
            return Err(PacketIoError::Deserializer(e));
        },
    };
    if !same_text(name.as_str(), username) {
        return Err(PacketIoError::Login(LoginError::MismatchedUsernames));
    }
    match skip_property_list(&mut buf) {
        Ok(()) => {},
        Err(e) => {
            return Err(PacketIoError::Deserializer(e));
        },
    }
    Ok((version, RemoteAddress(address), uuid))
}

/// Whether two texts are the same.
pub fn same_text(a: &str, b: &str) -> (same: bool)
    ensures
        same == (a@ == b@),
{
    proof {
        vstd::utf8::encode_utf8_decode_utf8(a@);
        vstd::utf8::encode_utf8_decode_utf8(b@);
    }
    same_bytes(a.as_bytes(), b.as_bytes())
}

/// Checks a plugin response against what the login waits for.
pub fn verify_forwarding(
    response: &SLoginPluginResponse,
    message_id: i32,
    username: &str,
    mode: &ConnectionMode,
) -> (r: Result<(i32, RemoteAddress, Uuid), PacketIoError>)
    ensures
        forwarded_view(r) == check_forwarding(response@, message_id, username@, mode@),
{
    if response.message_id.0 != message_id {
        return Err(
            PacketIoError::Login(
                LoginError::MismatchedResponseId {
                    got: response.message_id.0,
                    expected: message_id,
                },
            ),
        );
    }
    let data = match &response.data {
        Some(d) => d,
        None => {
            return Err(PacketIoError::Login(LoginError::MissingResponseData));
        },
    };
    if data.len() < 32 {
        return Err(PacketIoError::Login(LoginError::InvalidResponseLength));
    }
    let signature = vstd::slice::slice_subrange(data.as_slice(), 0, 32);
    let signed = vstd::slice::slice_subrange(data.as_slice(), 32, data.len());
    assert(signature@ =~= data@.take(32));
    assert(signed@ =~= data@.skip(32));
    let secret = match mode {
        ConnectionMode::Velocity { secret } => secret,
        ConnectionMode::Offline => {
            return Err(PacketIoError::Login(LoginError::InvalidState));
        },
    };
    if !hmac_sha256_verify(secret.as_str().as_bytes(), signed, signature) {
        return Err(PacketIoError::Login(LoginError::InvalidSignature));
    }
    read_forwarded(signed, username)
}

/// The client after the proxy's answer was accepted: the client has the
/// forwarded UUID and address, and the login went through.
pub open spec fn forwarding_accepted(c: Client, f: Forwarded, username: Seq<char>) -> Handled {
    login_succeeded(
        c.with_entity(
            EntityView {
                uuid: Some(f.uuid),
                remote_address: Some(f.address),
                brand: c.entity.brand,
                play: c.entity.play,
            },
        ),
        f.uuid,
        username,
    )
}

/// The client after its answer to an encryption request was looked at.
/// `shared_secret` and `client_token` are what the private key made of the
/// two fields of the answer, where it could open them. The token must be the
/// one that was sent and the secret must have 16 bytes. Then both directions
/// are encrypted with the secret, and the login went through.
pub open spec fn encryption_finished(
    c: Client,
    verify_token: Seq<u8>,
    uuid: Seq<u8>,
    username: Seq<char>,
    shared_secret: Option<Seq<u8>>,
    client_token: Option<Seq<u8>>,
) -> Handled {
    match (shared_secret, client_token) {
        (Some(secret), Some(token)) => if token != verify_token {
            c.fail(PacketIoError::BadPacket("invalid verify token"))
        } else if secret.len() != 16 {
            c.fail(PacketIoError::BadPacket("invalid shared secret"))
        } else {
            login_succeeded(
                c.with_enc(c.enc.with_cipher(Some(cipher_of(secret)))).with_dec(
                    c.dec.with_cipher(Some(cipher_of(secret))),
                ),
                uuid,
                username,
            )
        },
        _ => c.fail(PacketIoError::Rsa),
    }
}

/// A decrypted field, where the key could open it.
pub open spec fn opened(r: Result<Vec<u8>, rsa::Error>) -> Option<Seq<u8>> {
    match r {
        Ok(v) => Some(v@),
        Err(_) => None,
    }
}

/// Finishes the encryption exchange with what the private key made of the
/// client's answer.
pub fn finish_encryption(
    enc: &mut PacketEncoder,
    dec: &mut PacketDecoder,
    verify_token: &[u8; 4],
    uuid: &Uuid,
    username: &str,
    shared_secret: Result<Vec<u8>, rsa::Error>,
    client_token: Result<Vec<u8>, rsa::Error>,
) -> (r: Result<(), PacketIoError>)
    ensures
        forall|c: Client|
            c.enc == old(enc)@ && c.dec == old(dec)@ ==> #[trigger] encryption_finished(
                c,
                verify_token@,
                uuid@,
                username@,
                opened(shared_secret),
                opened(client_token),
            ) == (Handled {
                result: r,
                client: if r is Ok {
                    c.with_enc(final(enc)@).with_dec(final(dec)@).with_state(
                        StateView::Login(LoginStateView::LoginAck),
                    )
                } else {
                    c.with_enc(final(enc)@).with_dec(final(dec)@)
                },
            }),
{
    let secret = match shared_secret {
        Ok(s) => s,
        Err(_) => {
            return Err(PacketIoError::Rsa);
        },
    };
    let token = match client_token {
        Ok(t) => t,
        Err(_) => {
            return Err(PacketIoError::Rsa);
        },
    };
    if !same_bytes(token.as_slice(), verify_token.as_slice()) {
        return Err(PacketIoError::BadPacket("invalid verify token"));
    }
    let key = match to_bytes::<16>(secret.as_slice()) {
        Some(k) => k,
        None => {
            return Err(PacketIoError::BadPacket("invalid shared secret"));
        },
    };
    enc.set_encryption(Some(key));
    dec.set_encryption(Some(key));
    finish_login(enc, dec, uuid, username)
}

/// What the world outside gives to a login: the token that chance drew for
/// an encryption request, and what the private key made of the two fields of
/// the client's answer.
pub struct LoginOracle {
    pub verify_token: Seq<u8>,
    pub shared_secret: Option<Seq<u8>>,
    pub client_token: Option<Seq<u8>>,
}

/// One step of a login. Each state of the login accepts one packet: the
/// start of the login, the answer to the encryption request or to the
/// forwarding request, and the acknowledgement. Any other packet ends the
/// connection, and so does a packet for a client that is not logging in.
pub open spec fn login_step(
    c: Client,
    id: VarInt,
    fields: Seq<u8>,
    public_key: Seq<u8>,
    mode: ConnectionModeView,
    oracle: LoginOracle,
) -> Handled {
    match c.state {
        StateView::Login(LoginStateView::LoginStart) => if id.0 != SLoginStart::PACKET_ID {
            c.fail(PacketIoError::Packet(PacketError::DecodeID))
        } else {
            match SLoginStart::parse(fields).0 {
                Err(e) => c.fail(PacketIoError::Deserializer(e)),
                Ok(start) => match mode {
                    ConnectionModeView::Velocity { .. } => forwarding_requested(c, start.name),
                    ConnectionModeView::Offline => encryption_requested(
                        c,
                        start.name,
                        public_key,
                        oracle.verify_token,
                    ),
                },
            }
        },
        StateView::Login(LoginStateView::VelocityResponse { message_id, username }) => if id.0
            != SLoginPluginResponse::PACKET_ID {
            c.fail(PacketIoError::Packet(PacketError::DecodeID))
        } else {
            match SLoginPluginResponse::parse(fields).0 {
                Err(e) => c.fail(PacketIoError::Deserializer(e)),
                Ok(response) => match check_forwarding(response, message_id, username, mode) {
                    Err(e) => c.fail(e),
                    Ok(forwarded) => forwarding_accepted(c, forwarded, username),
                },
            }
        },
        StateView::Login(LoginStateView::EncryptionResponse { verify_token, uuid, username }) => if id.0
            != SEncryptionResponse::PACKET_ID {
            c.fail(PacketIoError::Packet(PacketError::DecodeID))
        } else {
            match SEncryptionResponse::parse(fields).0 {
                Err(e) => c.fail(PacketIoError::Deserializer(e)),
                Ok(_) => encryption_finished(
                    c,
                    verify_token,
                    uuid,
                    username,
                    oracle.shared_secret,
                    oracle.client_token,
                ),
            }
        },
        StateView::Login(LoginStateView::LoginAck) => if id.0 != SLoginAcknowledged::PACKET_ID {
            c.fail(PacketIoError::Packet(PacketError::DecodeID))
        } else {
            c.send(CKnownPacks::packet_id(), known_packs_fields(seq![core_pack()])).enter(
                StateView::Config(ConfigState::KnownPacks),
            )
        },
        _ => c.fail(PacketIoError::BadPacket("not in login")),
    }
}

/// How handling ended and what it left, from the values that a handler
/// worked on.
pub open spec fn handled_of(
    result: Result<(), PacketIoError>,
    enc: PacketEncoder,
    dec: PacketDecoder,
    state: CurrentState,
    entity: ClientEntity,
) -> Handled {
    Handled { result, client: client_of(enc, dec, state, entity) }
}

/// An oracle that holds a token and nothing else.
pub open spec fn token_oracle(verify_token: Seq<u8>) -> LoginOracle {
    LoginOracle { verify_token, shared_secret: None, client_token: None }
}

/// Handles the packet that starts a login.
fn start_login(
    packet: RawPacket,
    enc: &mut PacketEncoder,
    login: &mut LoginState,
    public_bytes: &[u8],
    mode: &ConnectionMode,
) -> (r: Result<(), PacketIoError>)
    requires
        old(login)@ == LoginStateView::LoginStart,
    ensures
        exists|token: Seq<u8>|
            token.len() == 4 && forall|c: Client|
                c.enc == old(enc)@ && c.state == StateView::Login(LoginStateView::LoginStart)
                    ==> #[trigger] login_step(
                    c,
                    packet.id,
                    packet.bytebuf@,
                    public_bytes@,
                    mode@,
                    token_oracle(token),
                ) == (Handled {
                    result: r,
                    client: c.with_enc(final(enc)@).with_state(StateView::Login(final(login)@)),
                }),
{
    let mut packet = packet;
    let ghost zeros = seq![0u8, 0u8, 0u8, 0u8];
    if packet.id.0 != SLoginStart::PACKET_ID {
        assert(zeros.len() == 4);
        return Err(PacketIoError::Packet(PacketError::DecodeID));
    }
    let start = match SLoginStart::read(&mut packet.bytebuf) {
        Ok(p) => p,
        Err(err) => {
            assert(zeros.len() == 4);
            return Err(PacketIoError::Deserializer(err));
        },
    };
    match mode {
        ConnectionMode::Velocity { .. } => {
            assert(zeros.len() == 4);
            login_velocity(enc, start.name, login)
        },
        ConnectionMode::Offline => login_offline(enc, start.name, public_bytes, login),
    }
}

/// Handles the proxy's answer to a forwarding request.
fn answer_forwarding(
    packet: RawPacket,
    enc: &mut PacketEncoder,
    dec: &mut PacketDecoder,
    login: &mut LoginState,
    mode: &ConnectionMode,
    e: &mut ClientEntity,
) -> (r: Result<(), PacketIoError>)
    requires
        old(login)@ is VelocityResponse,
    ensures
        forall|public_key: Seq<u8>, oracle: LoginOracle| #[trigger]
            login_step(
                Client {
                    enc: old(enc)@,
                    dec: old(dec)@,
                    state: StateView::Login(old(login)@),
                    entity: old(e)@,
                },
                packet.id,
                packet.bytebuf@,
                public_key,
                mode@,
                oracle,
            ) == (Handled {
                result: r,
                client: Client {
                    enc: final(enc)@,
                    dec: final(dec)@,
                    state: StateView::Login(final(login)@),
                    entity: final(e)@,
                },
            }),
{
    let mut packet = packet;
    let ghost c = Client {
        enc: enc@,
        dec: dec@,
        state: StateView::Login(login@),
        entity: e@,
    };
    match login {
        LoginState::VelocityResponse { message_id, username } => {
            if packet.id.0 != SLoginPluginResponse::PACKET_ID {
                return Err(PacketIoError::Packet(PacketError::DecodeID));
            }
            let response = match SLoginPluginResponse::read(&mut packet.bytebuf) {
                Ok(p) => p,
                Err(err) => {
                    return Err(PacketIoError::Deserializer(err));
                },
            };
            let (_version, address, uuid) = verify_forwarding(
                &response,
                *message_id,
                username.as_str(),
                mode,
            )?;
            e.uuid = Some(uuid);
            e.remote_address = Some(address);
            let ghost with_identity = c.with_entity(e@);
            assert(with_identity.enc == enc@ && with_identity.dec == dec@);
            let r = finish_login(enc, dec, &uuid, username.as_str());
            assert(login_succeeded(with_identity, uuid@, username@).result == r);
            if r.is_ok() {
                *login = LoginState::LoginAck;
            }
            r
        },
        _ => Err(PacketIoError::BadPacket("not in login")),
    }
}

/// Handles the client's answer to an encryption request.
fn answer_encryption(
    packet: RawPacket,
    enc: &mut PacketEncoder,
    dec: &mut PacketDecoder,
    login: &mut LoginState,
    key_pair: &KeyPair,
) -> (out: (Result<(), PacketIoError>, Ghost<LoginOracle>))
    requires
        old(login)@ is EncryptionResponse,
    ensures
        forall|c: Client, public_key: Seq<u8>, mode: ConnectionModeView|
            c.enc == old(enc)@ && c.dec == old(dec)@ && c.state == StateView::Login(old(login)@)
                ==> #[trigger] login_step(c, packet.id, packet.bytebuf@, public_key, mode, out.1@)
                == (Handled {
                result: out.0,
                client: c.with_enc(final(enc)@).with_dec(final(dec)@).with_state(
                    StateView::Login(final(login)@),
                ),
            }),
{
    let mut packet = packet;
    let ghost none = token_oracle(Seq::empty());
    match login {
        LoginState::EncryptionResponse { verify_token, uuid, username } => {
            if packet.id.0 != SEncryptionResponse::PACKET_ID {
                return (Err(PacketIoError::Packet(PacketError::DecodeID)), Ghost(none));
            }
            let response = match SEncryptionResponse::read(&mut packet.bytebuf) {
                Ok(p) => p,
                Err(err) => {
                    return (Err(PacketIoError::Deserializer(err)), Ghost(none));
                },
            };
            let shared_secret = rsa_decrypt(&key_pair.private, response.shared_secret.as_slice());
            let client_token = rsa_decrypt(&key_pair.private, response.verify_token.as_slice());
            let ghost oracle = LoginOracle {
                verify_token: Seq::empty(),
                shared_secret: opened(shared_secret),
                client_token: opened(client_token),
            };
            let r = finish_encryption(
                enc,
                dec,
                verify_token,
                uuid,
                username.as_str(),
                shared_secret,
                client_token,
            );
            if r.is_ok() {
                *login = LoginState::LoginAck;
            }
            (r, Ghost(oracle))
        },
        _ => (Err(PacketIoError::BadPacket("not in login")), Ghost(none)),
    }
}

/// Handles the client's acknowledgement of a login.
fn acknowledge_login(packet: &RawPacket, enc: &mut PacketEncoder, state: &mut CurrentState) -> (r:
    Result<(), PacketIoError>)
    requires
        old(state)@ == StateView::Login(LoginStateView::LoginAck),
    ensures
        forall|c: Client, public_key: Seq<u8>, mode: ConnectionModeView, oracle: LoginOracle|
            c.enc == old(enc)@ && c.state == old(state)@ ==> #[trigger] login_step(
                c,
                packet.id,
                packet.bytebuf@,
                public_key,
                mode,
                oracle,
            ) == (Handled {
                result: r,
                client: c.with_enc(final(enc)@).with_state(final(state)@),
            }),
{
    if packet.id.0 != SLoginAcknowledged::PACKET_ID {
        return Err(PacketIoError::Packet(PacketError::DecodeID));
    }
    let pack = [KnownPack { namespace: "minecraft:core", id: "core", version: "1.21" }];
    assert(pack@ =~= seq![core_pack()]);
    send_packet(enc, &CKnownPacks::new(pack.as_slice()))?;
    *state = CurrentState::Config(ConfigState::KnownPacks);
    Ok(())
}

/// Handles a packet of a client that is logging in. What the step makes of
/// the packet is `login_step`, for the token that chance drew and for what
/// the private key made of the client's answer.
#[verifier::rlimit(60)]
pub fn login_handler(
    packet: RawPacket,
    enc: &mut PacketEncoder,
    dec: &mut PacketDecoder,
    state: &mut CurrentState,
    key_pair: &KeyPair,
    mode: &ConnectionMode,
    e: &mut ClientEntity,
) -> (r: Result<(), PacketIoError>)
    ensures
        exists|oracle: LoginOracle|
            handled_of(r, *final(enc), *final(dec), *final(state), *final(e)) == #[trigger] login_step(
                client_of(*old(enc), *old(dec), *old(state), *old(e)),
                packet.id,
                packet.bytebuf@,
                key_pair.public_bytes@,
                mode@,
                oracle,
            ),
{
    let ghost c = client_of(*enc, *dec, *state, *e);
    let ghost id = packet.id;
    let ghost fields = packet.bytebuf@;
    let ghost public_key = key_pair.public_bytes@;
    let ghost none = token_oracle(Seq::empty());
    if let CurrentState::Login(LoginState::LoginAck) = state {
        let r = acknowledge_login(&packet, enc, state);
        assert(handled_of(r, *enc, *dec, *state, *e) == login_step(
            c,
            id,
            fields,
            public_key,
            mode@,
            none,
        ));
        return r;
    }
    match state {
        CurrentState::Login(login) => match login {
            LoginState::LoginStart => {
                let r = start_login(packet, enc, login, key_pair.public_bytes.as_slice(), mode);
                let ghost token = choose|token: Seq<u8>|
                    token.len() == 4 && forall|c: Client|
                        c.enc == old(enc)@ && c.state == StateView::Login(
                            LoginStateView::LoginStart,
                        ) ==> #[trigger] login_step(
                            c,
                            id,
                            fields,
                            public_key,
                            mode@,
                            token_oracle(token),
                        ) == (Handled {
                            result: r,
                            client: c.with_enc(enc@).with_state(StateView::Login(login@)),
                        });
                assert(handled_of(r, *enc, *dec, *state, *e) == login_step(
                    c,
                    id,
                    fields,
                    public_key,
                    mode@,
                    token_oracle(token),
                ));
                r
            },
            LoginState::VelocityResponse { .. } => {
                let r = answer_forwarding(packet, enc, dec, login, mode, e);
                assert(handled_of(r, *enc, *dec, *state, *e) == login_step(
                    c,
                    id,
                    fields,
                    public_key,
                    mode@,
                    none,
                ));
                r
            },
            LoginState::EncryptionResponse { .. } => {
                let (r, oracle) = answer_encryption(packet, enc, dec, login, key_pair);
                assert(handled_of(r, *enc, *dec, *state, *e) == login_step(
                    c,
                    id,
                    fields,
                    public_key,
                    mode@,
                    oracle@,
                ));
                r
            },
            LoginState::LoginAck => Err(PacketIoError::BadPacket("not in login")),
        },
        _ => {
            assert(handled_of(
                Err(PacketIoError::BadPacket("not in login")),
                *enc,
                *dec,
                *state,
                *e,
            ) == login_step(c, id, fields, public_key, mode@, none));
            Err(PacketIoError::BadPacket("not in login"))
        },
    }
}

/// Whether a client waits for the answer to an encryption request.
pub open spec fn awaits_encryption(state: StateView) -> bool {
    state is Login && state->Login_0 is EncryptionResponse
}

/// Whether a client waits for the answer to a forwarding request.
pub open spec fn awaits_forwarding(state: StateView) -> bool {
    state is Login && state->Login_0 is VelocityResponse
}

/// The key of a cipher, where there is a cipher.
pub open spec fn key_of(cipher: Option<crate::protocol::cipher::CipherState>) -> Option<Seq<u8>> {
    match cipher {
        Some(c) => Some(c.key),
        None => None,
    }
}

/// What a client's codec is set to: the keys by which it encrypts and
/// decrypts, and how it compresses.
pub struct CodecSetting {
    pub enc_key: Option<Seq<u8>>,
    pub dec_key: Option<Seq<u8>>,
    pub enc_compression: Option<CompressionInfo>,
    pub dec_compression: Option<u32>,
}

/// The setting of a client's codec.
pub open spec fn setting_of(c: Client) -> CodecSetting {
    CodecSetting {
        enc_key: key_of(c.enc.cipher),
        dec_key: key_of(c.dec.cipher),
        enc_compression: c.enc.compression,
        dec_compression: c.dec.compression,
    }
}

/// Sending a packet leaves the setting of the codec, the state and the
/// components as they are.
pub proof fn lemma_send_keeps_setting(h: Handled, id: i32, fields: Seq<u8>)
    ensures
        setting_of(h.send(id, fields).client) == setting_of(h.client),
        h.send(id, fields).client.state == h.client.state,
        h.send(id, fields).client.entity == h.client.entity,
        setting_of(h.client.send(id, fields).client) == setting_of(h.client),
        h.client.send(id, fields).client.state == h.client.state,
{
}

/// The setting that a login gives to the compression of a codec.
pub open spec fn login_compression(before: CodecSetting) -> CodecSetting {
    CodecSetting {
        enc_key: before.enc_key,
        dec_key: before.dec_key,
        enc_compression: Some(
            CompressionInfo { threshold: COMPRESSION_THRESHOLD as u32, level: COMPRESSION_LEVEL },
        ),
        dec_compression: Some(COMPRESSION_THRESHOLD as u32),
    }
}

/// A login that goes through leaves the keys as they are and sets the
/// compression, or fails before it sets anything.
pub proof fn lemma_login_succeeded_setting(c: Client, uuid: Seq<u8>, username: Seq<char>)
    ensures
        ({
            let after = login_succeeded(c, uuid, username);
            &&& setting_of(after.client) == setting_of(c) || setting_of(after.client)
                == login_compression(setting_of(c))
            &&& after.result is Ok ==> setting_of(after.client) == login_compression(
                setting_of(c),
            )
            &&& after.client.state == c.state || after.client.state == StateView::Login(
                LoginStateView::LoginAck,
            )
        }),
{
    let set = compression_set(c, COMPRESSION_THRESHOLD);
    lemma_send_keeps_setting(
        c.done(),
        CSetCompression::packet_id(),
        encode_var_int(COMPRESSION_THRESHOLD),
    );
    lemma_send_keeps_setting(
        set,
        CLoginSuccess::packet_id(),
        login_success_fields(uuid, username, Seq::empty(), true),
    );
}

/// Encryption is turned on once and never off, and compression is set once
/// and never lowered: a step of a login leaves the setting of the codec as it
/// is, but for the step that answers an encryption request, which may set
/// both keys to the shared secret, and for that step and the one that answers
/// a forwarding request, which may set the compression to the login
/// threshold. No step takes a key or the compression away.
pub proof fn lemma_login_setting(
    c: Client,
    id: VarInt,
    fields: Seq<u8>,
    public_key: Seq<u8>,
    mode: ConnectionModeView,
    oracle: LoginOracle,
)
    requires
        c.state is Login,
    ensures
        ({
            let after = login_step(c, id, fields, public_key, mode, oracle).client;
            let before = setting_of(c);
            let now = setting_of(after);
            &&& now.enc_key != before.enc_key || now.dec_key != before.dec_key ==> {
                &&& awaits_encryption(c.state)
                &&& now.enc_key == now.dec_key
                &&& now.enc_key == oracle.shared_secret
                &&& now.enc_key is Some
            }
            &&& now.enc_compression != before.enc_compression || now.dec_compression
                != before.dec_compression ==> {
                &&& awaits_encryption(c.state) || awaits_forwarding(c.state)
                &&& now.enc_compression == login_compression(before).enc_compression
                &&& now.dec_compression == login_compression(before).dec_compression
            }
        }),
{
    match c.state->Login_0 {
        LoginStateView::LoginStart => {},
        LoginStateView::VelocityResponse { message_id, username } => {
            if id.0 == SLoginPluginResponse::PACKET_ID {
                if let Ok(response) = SLoginPluginResponse::parse(fields).0 {
                    if let Ok(f) = check_forwarding(response, message_id, username, mode) {
                        let with_identity = c.with_entity(
                            EntityView {
                                uuid: Some(f.uuid),
                                remote_address: Some(f.address),
                                brand: c.entity.brand,
                                play: c.entity.play,
                            },
                        );
                        lemma_login_succeeded_setting(with_identity, f.uuid, username);
                    }
                }
            }
        },
        LoginStateView::EncryptionResponse { verify_token, uuid, username } => {
            if let (Some(secret), Some(token)) = (oracle.shared_secret, oracle.client_token) {
                let keyed = c.with_enc(c.enc.with_cipher(Some(cipher_of(secret)))).with_dec(
                    c.dec.with_cipher(Some(cipher_of(secret))),
                );
                lemma_login_succeeded_setting(keyed, uuid, username);
            }
        },
        LoginStateView::LoginAck => {},
    }
}

/// A step of a login leaves the login where it is or moves it on by one
/// state.
pub proof fn lemma_login_moves(
    c: Client,
    id: VarInt,
    fields: Seq<u8>,
    public_key: Seq<u8>,
    mode: ConnectionModeView,
    oracle: LoginOracle,
)
    requires
        c.state is Login,
    ensures
        ({
            let after = login_step(c, id, fields, public_key, mode, oracle).client.state;
            match c.state->Login_0 {
                LoginStateView::LoginStart => after == c.state || after matches StateView::Login(
                    LoginStateView::EncryptionResponse { .. },
                ) || after matches StateView::Login(LoginStateView::VelocityResponse { .. }),
                LoginStateView::EncryptionResponse { .. } => after == c.state || after
                    == StateView::Login(LoginStateView::LoginAck),
                LoginStateView::VelocityResponse { .. } => after == c.state || after
                    == StateView::Login(LoginStateView::LoginAck),
                LoginStateView::LoginAck => after == c.state || after == StateView::Config(
                    ConfigState::KnownPacks,
                ),
            }
        }),
{
}

/// A step that answers an encryption or a forwarding request and does not
/// fail leaves the login waiting for the acknowledgement.
pub proof fn lemma_login_done(
    c: Client,
    id: VarInt,
    fields: Seq<u8>,
    public_key: Seq<u8>,
    mode: ConnectionModeView,
    oracle: LoginOracle,
)
    requires
        c.state is Login,
    ensures
        ({
            let after = login_step(c, id, fields, public_key, mode, oracle);
            (awaits_encryption(c.state) || awaits_forwarding(c.state))
                && after.result is Ok ==> after.client.state == StateView::Login(
                LoginStateView::LoginAck,
            )
        }),
{
}

} // verus!
