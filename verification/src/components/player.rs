use vstd::prelude::*;

verus! {

/// Marks a client that has finished configuration and is in the game.
#[derive(Debug, Clone, Copy, PartialEq, Eq, Structural)]
pub struct Play;

/// The name a client logged in with.
#[derive(Debug, Clone)]
pub struct Username(pub String);

/// The 16 bytes of a player's UUID, most significant byte first.
#[derive(Debug, Clone, Copy)]
pub struct Uuid(pub [u8; 16]);

impl View for Uuid {
    type V = Seq<u8>;

    open spec fn view(&self) -> Seq<u8> {
        self.0@
    }
}

/// The name of the client software, as it announces itself during
/// configuration.
#[derive(Debug, Clone)]
pub struct ClientBrand(pub String);

/// The protocol number a client announced in its handshake.
#[derive(Debug, Clone, Copy, PartialEq, Eq, Structural)]
pub struct ProtocolId(pub u32);

/// The game modes a player can be in.
#[derive(Debug, Clone, Copy, PartialEq, Eq, Structural)]
pub enum GameModeKind {
    Undefined,
    Survival,
    Creative,
    Adventure,
    Spectator,
}

impl GameModeKind {
    /// The number that stands for this game mode on the wire; -1 stands for
    /// none.
    pub open spec fn spec_id(self) -> i8 {
        match self {
            GameModeKind::Undefined => -1i8,
            GameModeKind::Survival => 0,
            GameModeKind::Creative => 1,
            GameModeKind::Adventure => 2,
            GameModeKind::Spectator => 3,
        }
    }

    #[verifier::when_used_as_spec(spec_id)]
    pub fn id(self) -> (n: i8)
        ensures
            n == self.spec_id(),
    {
        match self {
            GameModeKind::Undefined => -1,
            GameModeKind::Survival => 0,
            GameModeKind::Creative => 1,
            GameModeKind::Adventure => 2,
            GameModeKind::Spectator => 3,
        }
    }
}

/// The game mode a player is in.
#[derive(Debug, Clone, Copy, PartialEq, Eq, Structural)]
pub struct GameMode(pub GameModeKind);

/// The game mode a player was in before the current one.
#[derive(Debug, Clone, Copy, PartialEq, Eq, Structural)]
pub struct PreviousGameMode(pub GameModeKind);

} // verus!
