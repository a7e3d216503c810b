use vstd::prelude::*;
use crate::components::{
    read_bool, read_i8, read_string, read_u8, read_var_int, Read, ReadByteBuffer,
    DEFAULT_MAX_STRING_SIZE,
};
use crate::error::DeserializerError;
use crate::protocol::server::login::get_rest;
use crate::protocol::var_int::VarInt;

verus! {

/// Data on a named channel.
#[derive(Debug, Clone)]
pub struct SPluginMessage {
    pub channel: String,
    pub data: Vec<u8>,
}

/// A plugin message, with its channel as a sequence of characters.
pub struct PluginMessageView {
    pub channel: Seq<char>,
    pub data: Seq<u8>,
}

impl View for SPluginMessage {
    type V = PluginMessageView;

    open spec fn view(&self) -> PluginMessageView {
        PluginMessageView { channel: self.channel@, data: self.data@ }
    }
}

impl SPluginMessage {
    pub const PACKET_ID: i32 = 0x02;

    /// A plugin message is a string, and all that follows is its data.
    pub open spec fn parse(s: Seq<u8>) -> Read<PluginMessageView> {
        match read_string(s, DEFAULT_MAX_STRING_SIZE) {
            (Err(e), rest) => (Err(e), rest),
            (Ok(channel), s1) => (Ok(PluginMessageView { channel, data: s1 }), Seq::empty()),
        }
    }

    pub fn read(bytebuf: &mut ReadByteBuffer) -> (r: Result<Self, DeserializerError>)
        ensures
            match Self::parse(old(bytebuf)@) {
                (Ok(v), rest) => r matches Ok(p) && p@ == v && final(bytebuf)@ == rest,
                (Err(e), rest) => r matches Err(err) && err == e && final(bytebuf)@ == rest,
            },
    {
        let channel = bytebuf.get_string()?;
        let data = get_rest(bytebuf);
        Ok(Self { channel, data })
    }
}

/// The settings of the client.
#[derive(Debug, Clone)]
pub struct SClientInformationConfig {
    pub locale: String,
    pub view_distance: i8,
    pub chat_mode: VarInt,
    pub chat_colors: bool,
    pub skin_parts: u8,
    pub main_hand: VarInt,
    pub text_filtering: bool,
    pub server_listing: bool,
}

/// Client settings, with the locale as a sequence of characters.
pub struct ClientInformationView {
    pub locale: Seq<char>,
    pub view_distance: i8,
    pub chat_mode: VarInt,
    pub chat_colors: bool,
    pub skin_parts: u8,
    pub main_hand: VarInt,
    pub text_filtering: bool,
    pub server_listing: bool,
}

impl View for SClientInformationConfig {
    type V = ClientInformationView;

    open spec fn view(&self) -> ClientInformationView {
        ClientInformationView {
            locale: self.locale@,
            view_distance: self.view_distance,
            chat_mode: self.chat_mode,
            chat_colors: self.chat_colors,
            skin_parts: self.skin_parts,
            main_hand: self.main_hand,
            text_filtering: self.text_filtering,
            server_listing: self.server_listing,
        }
    }
}

/// What is read so far of the client's settings.
pub struct ClientInformationHead {
    pub locale: Seq<char>,
    pub view_distance: i8,
    pub chat_mode: VarInt,
    pub chat_colors: bool,
}

impl SClientInformationConfig {
    pub const PACKET_ID: i32 = 0x00;

    /// The first four settings: a string of at most 16 bytes, a signed byte,
    /// a VarInt and a boolean.
    pub open spec fn parse_head(s: Seq<u8>) -> Read<ClientInformationHead> {
        match read_string(s, 16) {
            (Err(e), rest) => (Err(e), rest),
            (Ok(locale), s1) => match read_i8(s1) {
                (Err(e), rest) => (Err(e), rest),
                (Ok(view_distance), s2) => match read_var_int(s2) {
                    (Err(e), rest) => (Err(e), rest),
                    (Ok(chat_mode), s3) => match read_bool(s3) {
                        (Err(e), rest) => (Err(e), rest),
                        (Ok(chat_colors), s4) => (
                            Ok(
                                ClientInformationHead {
                                    locale,
                                    view_distance,
                                    chat_mode,
                                    chat_colors,
                                },
                            ),
                            s4,
                        ),
                    },
                },
            },
        }
    }

    /// The settings are the first four, then a byte, a VarInt and two
    /// booleans.
    pub open spec fn parse(s: Seq<u8>) -> Read<ClientInformationView> {
        match Self::parse_head(s) {
            (Err(e), rest) => (Err(e), rest),
            (Ok(head), s4) => match read_u8(s4) {
                (Err(e), rest) => (Err(e), rest),
                (Ok(skin_parts), s5) => match read_var_int(s5) {
                    (Err(e), rest) => (Err(e), rest),
                    (Ok(main_hand), s6) => match read_bool(s6) {
                        (Err(e), rest) => (Err(e), rest),
                        (Ok(text_filtering), s7) => match read_bool(s7) {
                            (Err(e), rest) => (Err(e), rest),
                            (Ok(server_listing), s8) => (
                                Ok(
                                    ClientInformationView {
                                        locale: head.locale,
                                        view_distance: head.view_distance,
                                        chat_mode: head.chat_mode,
                                        chat_colors: head.chat_colors,
                                        skin_parts,
                                        main_hand,
                                        text_filtering,
                                        server_listing,
                                    },
                                ),
                                s8,
                            ),
                        },
                    },
                },
            },
        }
    }

    pub fn read(bytebuf: &mut ReadByteBuffer) -> (r: Result<Self, DeserializerError>)
        ensures
            match Self::parse(old(bytebuf)@) {
                (Ok(v), rest) => r matches Ok(p) && p@ == v && final(bytebuf)@ == rest,
                (Err(e), rest) => r matches Err(err) && err == e && final(bytebuf)@ == rest,
            },
    {
        let locale = bytebuf.get_string_len(16)?;
        let view_distance = bytebuf.get_i8()?;
        let chat_mode = bytebuf.get_var_int()?;
        let chat_colors = bytebuf.get_bool()?;
        let skin_parts = bytebuf.get_u8()?;
        let main_hand = bytebuf.get_var_int()?;
        let text_filtering = bytebuf.get_bool()?;
        let server_listing = bytebuf.get_bool()?;
        Ok(
            Self {
                locale,
                view_distance,
                chat_mode,
                chat_colors,
                skin_parts,
                main_hand,
                text_filtering,
                server_listing,
            },
        )
    }
}

/// Tells the server which data packs the client has. Only their number is
/// read.
#[derive(Debug, Clone, Copy, PartialEq, Eq, Structural)]
pub struct SKnownPacks {
    pub known_pack_count: VarInt,
}

impl SKnownPacks {
    pub const PACKET_ID: i32 = 0x07;

    /// The list of known packs starts with their number.
    pub open spec fn parse(s: Seq<u8>) -> Read<SKnownPacks> {
        match read_var_int(s) {
            (Ok(known_pack_count), rest) => (Ok(SKnownPacks { known_pack_count }), rest),
            (Err(e), rest) => (Err(e), rest),
        }
    }

    pub fn read(bytebuf: &mut ReadByteBuffer) -> (r: Result<Self, DeserializerError>)
        ensures
            (r, final(bytebuf)@) == Self::parse(old(bytebuf)@),
    {
        let known_pack_count = bytebuf.get_var_int()?;
        Ok(Self { known_pack_count })
    }
}

/// Acknowledges the end of configuration. It has no fields.
#[derive(Debug, Clone, Copy)]
pub struct SAcknowledgeFinishConfig {}

impl SAcknowledgeFinishConfig {
    pub const PACKET_ID: i32 = 0x03;

    pub fn read(bytebuf: &mut ReadByteBuffer) -> (r: Result<Self, DeserializerError>)
        ensures
            r is Ok,
            final(bytebuf)@ == old(bytebuf)@,
    {
        Ok(Self {  })
    }
}

} // verus!
