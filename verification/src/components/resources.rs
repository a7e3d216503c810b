use vstd::prelude::*;
use vstd::utf8::encode_utf8;

verus! {

/// `rsa::RsaPrivateKey`: a private key with its public half.
#[verifier::external_type_specification]
#[verifier::external_body]
pub struct ExRsaPrivateKey(rsa::RsaPrivateKey);

/// The server's key pair: the private key, and the public key as the DER
/// bytes of its SubjectPublicKeyInfo.
pub struct KeyPair {
    pub private: rsa::RsaPrivateKey,
    pub public_bytes: Vec<u8>,
}

/// The counters of the server.
#[derive(Debug, Clone, Copy, PartialEq, Eq, Structural)]
pub struct ServerStorage {
    pub connections: usize,
    pub online_players: usize,
}

/// How the server learns who a player is.
#[derive(Debug, Default, Clone)]
pub enum ConnectionMode {
    /// Every name is taken at its word.
    #[default]
    Offline,
    /// A proxy in front of the server forwards the player's identity, signed
    /// with a secret that proxy and server share.
    Velocity { secret: String },
}

/// A connection mode, with the secret as the bytes that sign.
pub enum ConnectionModeView {
    Offline,
    Velocity { secret: Seq<u8> },
}

impl View for ConnectionMode {
    type V = ConnectionModeView;

    open spec fn view(&self) -> ConnectionModeView {
        match self {
            ConnectionMode::Offline => ConnectionModeView::Offline,
            ConnectionMode::Velocity { secret } => ConnectionModeView::Velocity {
                secret: encode_utf8(secret@),
            },
        }
    }
}

/// What the server tells of itself, and how it logs players in.
#[derive(Debug, Clone)]
pub struct ServerConfig {
    pub max_players: usize,
    pub description: String,
    /// An image as a `data:` URL.
    pub favicon: String,
    pub connection_mode: ConnectionMode,
}

/// One registry of the game's data, as the client is to receive it: its
/// name, and its entries already encoded.
#[derive(Debug, Clone)]
pub struct RegistryEntry {
    pub registry_id: String,
    pub registry_entries: Vec<u8>,
}

/// A registry, with its name as a sequence of characters.
pub struct RegistryEntryView {
    pub registry_id: Seq<char>,
    pub registry_entries: Seq<u8>,
}

impl View for RegistryEntry {
    type V = RegistryEntryView;

    open spec fn view(&self) -> RegistryEntryView {
        RegistryEntryView {
            registry_id: self.registry_id@,
            registry_entries: self.registry_entries@,
        }
    }
}

/// The registries that every client receives during configuration.
#[derive(Debug, Clone, Default)]
pub struct Registry {
    pub entries: Vec<RegistryEntry>,
}

impl View for Registry {
    type V = Seq<RegistryEntryView>;

    open spec fn view(&self) -> Seq<RegistryEntryView> {
        Seq::new(self.entries@.len(), |i: int| self.entries@[i]@)
    }
}

} // verus!
