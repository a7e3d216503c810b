use vstd::prelude::*;

pub mod bytebuf;
pub mod cipher;
pub mod client;
pub mod compression;
pub mod frame;
pub mod json;
pub mod server;
pub mod var_int;

verus! {

/// The game version this server speaks.
pub const CURRENT_MC_VERSION: &'static str = "1.21.1";

/// The protocol number of that version.
pub const CURRENT_MC_PROTOCOL: u32 = 767;

/// The states a connection can be asked to enter.
#[derive(Debug, Clone, Copy, PartialEq, Eq, Structural)]
pub enum ConnectionState {
    HandShake,
    Status,
    Login,
    Transfer,
    Config,
    Play,
}

/// A packet that goes to the client.
pub trait ClientPacket {
    /// The id under which the packet travels.
    spec fn packet_id() -> i32;

    /// The bytes of the packet's fields, in the order of the protocol.
    spec fn fields(&self) -> Seq<u8>;

    fn id() -> (id: i32)
        ensures
            id == Self::packet_id(),
    ;

    /// Appends the packet's fields to `buf`.
    fn write(&self, buf: &mut Vec<u8>)
        ensures
            final(buf)@ == old(buf)@ + self.fields(),
    ;
}

} // verus!
