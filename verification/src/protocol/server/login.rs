use vstd::prelude::*;
use vstd::slice::slice_to_vec;
use crate::components::player::Uuid;
use crate::components::{
    bytes_as_slice, read_bool, read_bytes, read_string, read_var_int, Read, ReadByteBuffer,
};
use crate::error::DeserializerError;
use crate::protocol::var_int::VarInt;

verus! {

/// Reads a VarInt that counts bytes, then that many bytes.
pub open spec fn read_prefixed(s: Seq<u8>) -> Read<Seq<u8>> {
    match read_var_int(s) {
        (Err(e), rest) => (Err(e), rest),
        (Ok(count), rest) => if count.0 < 0 {
            (Err(DeserializerError::NegativeLength), rest)
        } else {
            read_bytes(rest, count.0 as nat)
        },
    }
}

/// A result with its bytes taken by their view.
pub open spec fn vec_view(r: Result<Vec<u8>, DeserializerError>) -> Result<
    Seq<u8>,
    DeserializerError,
> {
    match r {
        Ok(v) => Ok(v@),
        Err(e) => Err(e),
    }
}

/// Reads bytes behind the VarInt that counts them.
pub fn get_prefixed(bytebuf: &mut ReadByteBuffer) -> (r: Result<Vec<u8>, DeserializerError>)
    ensures
        (vec_view(r), final(bytebuf)@) == read_prefixed(old(bytebuf)@),
{
    let count = bytebuf.get_var_int()?.0;
    if count < 0 {
        return Err(DeserializerError::NegativeLength);
    }
    let data = bytebuf.copy_to_bytes(count as usize)?;
    Ok(slice_to_vec(bytes_as_slice(&data)))
}

/// Reads all bytes that are left.
pub fn get_rest(bytebuf: &mut ReadByteBuffer) -> (data: Vec<u8>)
    ensures
        data@ == old(bytebuf)@,
        final(bytebuf)@ == Seq::<u8>::empty(),
{
    let n = bytebuf.remaining();
    match bytebuf.copy_to_bytes(n) {
        Ok(data) => {
            assert(old(bytebuf)@.take(n as int) =~= old(bytebuf)@);
            assert(old(bytebuf)@.skip(n as int) =~= Seq::<u8>::empty());
            slice_to_vec(bytes_as_slice(&data))
        },
        Err(_) => Vec::new(),
    }
}

/// Starts a login: the name the player goes by, and the UUID the client
/// claims.
#[derive(Debug, Clone)]
pub struct SLoginStart {
    pub name: String,
    pub uuid: Uuid,
}

/// A login start, with its name as a sequence of characters.
pub struct LoginStartView {
    pub name: Seq<char>,
    pub uuid: Seq<u8>,
}

impl View for SLoginStart {
    type V = LoginStartView;

    open spec fn view(&self) -> LoginStartView {
        LoginStartView { name: self.name@, uuid: self.uuid@ }
    }
}

impl SLoginStart {
    pub const PACKET_ID: i32 = 0x00;

    /// A login start is a string of at most 16 bytes and the 16 bytes of a
    /// UUID.
    pub open spec fn parse(s: Seq<u8>) -> Read<LoginStartView> {
        match read_string(s, 16) {
            (Err(e), rest) => (Err(e), rest),
            (Ok(name), s1) => match read_bytes(s1, 16) {
                (Err(e), rest) => (Err(e), rest),
                (Ok(uuid), s2) => (Ok(LoginStartView { name, uuid }), s2),
            },
        }
    }

    pub fn read(bytebuf: &mut ReadByteBuffer) -> (r: Result<Self, DeserializerError>)
        ensures
            match Self::parse(old(bytebuf)@) {
                (Ok(v), rest) => r matches Ok(p) && p@ == v && final(bytebuf)@ == rest,
                (Err(e), rest) => r matches Err(err) && err == e && final(bytebuf)@ == rest,
            },
    {
        let name = bytebuf.get_string_len(16)?;
        let uuid = bytebuf.get_uuid()?;
        Ok(Self { name, uuid })
    }
}

/// Answers an encryption request: the secret the client chose and the
/// server's token, both encrypted to the server's public key.
#[derive(Debug, Clone)]
pub struct SEncryptionResponse {
    pub shared_secret: Vec<u8>,
    pub verify_token: Vec<u8>,
}

/// An encryption response, with its fields as sequences of bytes.
pub struct EncryptionResponseView {
    pub shared_secret: Seq<u8>,
    pub verify_token: Seq<u8>,
}

impl View for SEncryptionResponse {
    type V = EncryptionResponseView;

    open spec fn view(&self) -> EncryptionResponseView {
        EncryptionResponseView {
            shared_secret: self.shared_secret@,
            verify_token: self.verify_token@,
        }
    }
}

impl SEncryptionResponse {
    pub const PACKET_ID: i32 = 0x01;

    /// An encryption response is two runs of bytes, each behind its count.
    pub open spec fn parse(s: Seq<u8>) -> Read<EncryptionResponseView> {
        match read_prefixed(s) {
            (Err(e), rest) => (Err(e), rest),
            (Ok(shared_secret), s1) => match read_prefixed(s1) {
                (Err(e), rest) => (Err(e), rest),
                (Ok(verify_token), s2) => (
                    Ok(EncryptionResponseView { shared_secret, verify_token }),
                    s2,
                ),
            },
        }
    }

    pub fn read(bytebuf: &mut ReadByteBuffer) -> (r: Result<Self, DeserializerError>)
        ensures
            match Self::parse(old(bytebuf)@) {
                (Ok(v), rest) => r matches Ok(p) && p@ == v && final(bytebuf)@ == rest,
                (Err(e), rest) => r matches Err(err) && err == e && final(bytebuf)@ == rest,
            },
    {
        let shared_secret = get_prefixed(bytebuf)?;
        let verify_token = get_prefixed(bytebuf)?;
        Ok(Self { shared_secret, verify_token })
    }
}

/// Answers a plugin request: the id of the request, and data where the
/// client, or a proxy in front of it, understood the request.
#[derive(Debug, Clone)]
pub struct SLoginPluginResponse {
    pub message_id: VarInt,
    pub data: Option<Vec<u8>>,
}

/// A plugin response, with its data as a sequence of bytes.
pub struct LoginPluginResponseView {
    pub message_id: VarInt,
    pub data: Option<Seq<u8>>,
}

impl View for SLoginPluginResponse {
    type V = LoginPluginResponseView;

    open spec fn view(&self) -> LoginPluginResponseView {
        LoginPluginResponseView {
            message_id: self.message_id,
            data: match self.data {
                Some(d) => Some(d@),
                None => None,
            },
        }
    }
}

impl SLoginPluginResponse {
    pub const PACKET_ID: i32 = 0x02;

    /// A plugin response is a VarInt and a boolean; where the boolean is
    /// true, all that follows is data.
    pub open spec fn parse(s: Seq<u8>) -> Read<LoginPluginResponseView> {
        match read_var_int(s) {
            (Err(e), rest) => (Err(e), rest),
            (Ok(message_id), s1) => match read_bool(s1) {
                (Err(e), rest) => (Err(e), rest),
                (Ok(true), s2) => (
                    Ok(LoginPluginResponseView { message_id, data: Some(s2) }),
                    Seq::empty(),
                ),
                (Ok(false), s2) => (Ok(LoginPluginResponseView { message_id, data: None }), s2),
            },
        }
    }

    pub fn read(bytebuf: &mut ReadByteBuffer) -> (r: Result<Self, DeserializerError>)
        ensures
            match Self::parse(old(bytebuf)@) {
                (Ok(v), rest) => r matches Ok(p) && p@ == v && final(bytebuf)@ == rest,
                (Err(e), rest) => r matches Err(err) && err == e && final(bytebuf)@ == rest,
            },
    {
        let message_id = bytebuf.get_var_int()?;
        let data = if bytebuf.get_bool()? {
            Some(get_rest(bytebuf))
        } else {
            None
        };
        Ok(Self { message_id, data })
    }
}

/// Acknowledges a successful login. It has no fields.
#[derive(Debug, Clone, Copy)]
pub struct SLoginAcknowledged {}

impl SLoginAcknowledged {
    pub const PACKET_ID: i32 = 0x03;

    pub fn read(bytebuf: &mut ReadByteBuffer) -> (r: Result<Self, DeserializerError>)
        ensures
            r is Ok,
            final(bytebuf)@ == old(bytebuf)@,
    {
        Ok(Self {  })
    }
}

} // verus!
