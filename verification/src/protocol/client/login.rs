use vstd::prelude::*;
use crate::components::player::Uuid;
use crate::protocol::bytebuf::{
    encode_bool, encode_prefixed, encode_string, put_bool, put_prefixed, put_slice, put_string,
    put_uuid, put_var_int,
};
use crate::protocol::var_int::{encode_var_int, encode_var_uint, VarInt};
use crate::protocol::ClientPacket;

verus! {

/// Ends a login with a reason, as a JSON text component.
pub struct CLoginDisconnect<'a> {
    pub json_reason: &'a str,
}

impl<'a> CLoginDisconnect<'a> {
    pub fn new(json_reason: &'a str) -> (p: Self)
        ensures
            p.json_reason == json_reason,
    {
        Self { json_reason }
    }
}

impl<'a> ClientPacket for CLoginDisconnect<'a> {
    open spec fn packet_id() -> i32 {
        0x00
    }

    open spec fn fields(&self) -> Seq<u8> {
        encode_string(self.json_reason@)
    }

    fn id() -> (id: i32) {
        0x00
    }

    fn write(&self, buf: &mut Vec<u8>) {
        put_string(buf, self.json_reason);
    }
}

/// Asks the client to encrypt the connection: the server's public key, and a
/// token that the client sends back encrypted.
pub struct CEncryptionRequest<'a> {
    pub server_id: &'a str,
    pub public_key: &'a [u8],
    pub verify_token: &'a [u8],
    pub should_authenticate: bool,
}

impl<'a> CEncryptionRequest<'a> {
    pub fn new(
        server_id: &'a str,
        public_key: &'a [u8],
        verify_token: &'a [u8],
        should_authenticate: bool,
    ) -> (p: Self)
        ensures
            p.server_id == server_id,
            p.public_key == public_key,
            p.verify_token == verify_token,
            p.should_authenticate == should_authenticate,
    {
        Self { server_id, public_key, verify_token, should_authenticate }
    }
}

/// The fields of an encryption request: the server's id as a string, the
/// public key and the token each behind its length, and a boolean.
pub open spec fn encryption_request_fields(
    server_id: Seq<char>,
    public_key: Seq<u8>,
    verify_token: Seq<u8>,
    should_authenticate: bool,
) -> Seq<u8> {
    encode_string(server_id) + encode_prefixed(public_key) + encode_prefixed(verify_token)
        + encode_bool(should_authenticate)
}

impl<'a> ClientPacket for CEncryptionRequest<'a> {
    open spec fn packet_id() -> i32 {
        0x01
    }

    open spec fn fields(&self) -> Seq<u8> {
        encryption_request_fields(
            self.server_id@,
            self.public_key@,
            self.verify_token@,
            self.should_authenticate,
        )
    }

    fn id() -> (id: i32) {
        0x01
    }

    fn write(&self, buf: &mut Vec<u8>) {
        put_string(buf, self.server_id);
        put_prefixed(buf, self.public_key);
        put_prefixed(buf, self.verify_token);
        put_bool(buf, self.should_authenticate);
        assert(buf@ =~= old(buf)@ + self.fields());
    }
}

/// A property of a player's profile, such as a skin.
#[derive(Debug, Clone)]
pub struct Property {
    pub name: String,
    pub value: String,
    pub signature: Option<String>,
}

/// The bytes of one profile property: name, value, and the signature behind
/// a boolean that says whether there is one.
pub open spec fn encode_property(p: Property) -> Seq<u8> {
    encode_string(p.name@) + encode_string(p.value@) + match p.signature {
        Some(s) => encode_bool(true) + encode_string(s@),
        None => encode_bool(false),
    }
}

/// The bytes of some profile properties, one after the other.
pub open spec fn encode_properties(properties: Seq<Property>) -> Seq<u8>
    decreases properties.len(),
{
    if properties.len() == 0 {
        Seq::empty()
    } else {
        encode_properties(properties.drop_last()) + encode_property(properties.last())
    }
}

/// Tells the client that it is logged in, and as whom.
pub struct CLoginSuccess<'a> {
    pub uuid: &'a Uuid,
    pub username: &'a str,
    pub properties: &'a [Property],
    pub strict_error_handling: bool,
}

impl<'a> CLoginSuccess<'a> {
    pub fn new(
        uuid: &'a Uuid,
        username: &'a str,
        properties: &'a [Property],
        strict_error_handling: bool,
    ) -> (p: Self)
        ensures
            p.uuid == uuid,
            p.username == username,
            p.properties == properties,
            p.strict_error_handling == strict_error_handling,
    {
        Self { uuid, username, properties, strict_error_handling }
    }
}

/// The fields of a login success: the UUID, the name, the properties behind
/// their number, and a boolean.
pub open spec fn login_success_fields(
    uuid: Seq<u8>,
    username: Seq<char>,
    properties: Seq<Property>,
    strict_error_handling: bool,
) -> Seq<u8> {
    uuid + encode_string(username) + encode_var_uint(properties.len()) + encode_properties(
        properties,
    ) + encode_bool(strict_error_handling)
}

impl<'a> ClientPacket for CLoginSuccess<'a> {
    open spec fn packet_id() -> i32 {
        0x02
    }

    open spec fn fields(&self) -> Seq<u8> {
        login_success_fields(
            self.uuid@,
            self.username@,
            self.properties@,
            self.strict_error_handling,
        )
    }

    fn id() -> (id: i32) {
        0x02
    }

    fn write(&self, buf: &mut Vec<u8>) {
        put_uuid(buf, self.uuid);
        put_string(buf, self.username);
        let count = self.properties.len();
        crate::protocol::bytebuf::put_length(buf, count);
        let ghost head = buf@;
        let mut i: usize = 0;
        assert(self.properties@.take(0) =~= Seq::<Property>::empty());
        while i < count
            invariant
                i <= count,
                count == self.properties@.len(),
                buf@ == head + encode_properties(self.properties@.take(i as int)),
            decreases count - i,
        {
            let p = &self.properties[i];
            let ghost before = buf@;
            put_string(buf, p.name.as_str());
            put_string(buf, p.value.as_str());
            match &p.signature {
                Some(s) => {
                    put_bool(buf, true);
                    put_string(buf, s.as_str());
                },
                None => {
                    put_bool(buf, false);
                },
            }
            proof {
                let taken = self.properties@.take(i + 1);
                assert(taken.drop_last() =~= self.properties@.take(i as int));
                assert(taken.last() == *p);
                assert(buf@ =~= before + encode_property(*p));
                assert(buf@ =~= head + encode_properties(taken));
            }
            i = i + 1;
        }
        assert(self.properties@.take(count as int) =~= self.properties@);
        put_bool(buf, self.strict_error_handling);
        assert(buf@ =~= old(buf)@ + self.fields());
    }
}

/// Tells the client from which size on packets are compressed from now on.
pub struct CSetCompression {
    pub threshold: VarInt,
}

impl CSetCompression {
    pub fn new(threshold: VarInt) -> (p: Self)
        ensures
            p.threshold == threshold,
    {
        Self { threshold }
    }
}

impl ClientPacket for CSetCompression {
    open spec fn packet_id() -> i32 {
        0x03
    }

    open spec fn fields(&self) -> Seq<u8> {
        encode_var_int(self.threshold.0)
    }

    fn id() -> (id: i32) {
        0x03
    }

    fn write(&self, buf: &mut Vec<u8>) {
        put_var_int(buf, self.threshold);
    }
}

/// Asks the client, or a proxy in front of it, for data on a named channel.
pub struct CLoginPluginRequest<'a> {
    pub message_id: VarInt,
    pub channel: &'a str,
    pub data: &'a [u8],
}

impl<'a> CLoginPluginRequest<'a> {
    pub fn new(message_id: VarInt, channel: &'a str, data: &'a [u8]) -> (p: Self)
        ensures
            p.message_id == message_id,
            p.channel == channel,
            p.data == data,
    {
        Self { message_id, channel, data }
    }
}

/// The fields of a plugin request: its id, the channel as a string, and the
/// data as they are.
pub open spec fn login_plugin_request_fields(message_id: i32, channel: Seq<char>, data: Seq<u8>) -> Seq<
    u8,
> {
    encode_var_int(message_id) + encode_string(channel) + data
}

impl<'a> ClientPacket for CLoginPluginRequest<'a> {
    open spec fn packet_id() -> i32 {
        0x04
    }

    open spec fn fields(&self) -> Seq<u8> {
        login_plugin_request_fields(self.message_id.0, self.channel@, self.data@)
    }

    fn id() -> (id: i32) {
        0x04
    }

    fn write(&self, buf: &mut Vec<u8>) {
        put_var_int(buf, self.message_id);
        put_string(buf, self.channel);
        put_slice(buf, self.data);
        assert(buf@ =~= old(buf)@ + self.fields());
    }
}

} // verus!
