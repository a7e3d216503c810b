use vstd::prelude::*;
use vstd::utf8::{decode_utf8, valid_utf8};
use crate::components::client::{
    ClientEntity, ConfigState, CurrentState, EntityView, PacketEncoder, StateView,
};
use crate::components::player::{ClientBrand, Play};
use crate::components::resources::{Registry, RegistryEntryView};
use crate::components::str_from_utf8;
use crate::error::PacketIoError;
use crate::handlers::login::{same_text, setting_of};
use crate::handlers::play::{on_play, play_entered};
use crate::handlers::{send_packet, Client, Handled};
use crate::protocol::client::config::{registry_data_fields, CFinishConfig, CRegistryData};
use crate::protocol::frame::RawPacket;
use crate::protocol::server::config::{
    SAcknowledgeFinishConfig, SClientInformationConfig, SKnownPacks, SPluginMessage,
};
use crate::protocol::var_int::VarInt;
use crate::protocol::ClientPacket;

verus! {

/// The client after the first `n` registries were sent, one packet each, in
/// their order.
pub open spec fn registries_sent(c: Client, registry: Seq<RegistryEntryView>, n: nat) -> Handled
    decreases n,
{
    if n == 0 {
        c.done()
    } else {
        registries_sent(c, registry, (n - 1) as nat).send(
            CRegistryData::packet_id(),
            registry_data_fields(registry[n - 1].registry_id, registry[n - 1].registry_entries),
        )
    }
}

/// Sends every registry to the client.
pub fn send_registry_data(enc: &mut PacketEncoder, registry: &Registry) -> (r: Result<
    (),
    PacketIoError,
>)
    ensures
        forall|c: Client|
            c.enc == old(enc)@ ==> #[trigger] registries_sent(c, registry@, registry@.len())
                == (Handled { result: r, client: c.with_enc(final(enc)@) }),
{
    let mut i: usize = 0;
    while i < registry.entries.len()
        invariant
            i <= registry.entries@.len(),
            registry@.len() == registry.entries@.len(),
            forall|c: Client|
                c.enc == old(enc)@ ==> #[trigger] registries_sent(c, registry@, i as nat) == (
                Handled { result: Ok(()), client: c.with_enc(enc@) }),
        decreases registry.entries@.len() - i,
    {
        let entry = &registry.entries[i];
        assert(registry@[i as int] == entry@);
        let ghost before = enc@;
        let ghost fields = registry_data_fields(
            registry@[i as int].registry_id,
            registry@[i as int].registry_entries,
        );
        let sent = send_packet(
            enc,
            &CRegistryData::new(entry.registry_id.as_str(), entry.registry_entries.as_slice()),
        );
        proof {
            assert forall|c: Client| c.enc == old(enc)@ implies #[trigger] registries_sent(
                c,
                registry@,
                (i + 1) as nat,
            ) == (Handled { result: sent, client: c.with_enc(enc@) }) by {
                let so_far = registries_sent(c, registry@, i as nat);
                assert(so_far == (Handled { result: Ok(()), client: c.with_enc(before) }));
                assert(registries_sent(c, registry@, (i + 1) as nat) == so_far.send(
                    CRegistryData::packet_id(),
                    fields,
                ));
                assert(c.with_enc(before).with_enc(enc@) == c.with_enc(enc@));
            }
        }
        match sent {
            Ok(()) => {},
            Err(e) => {
                proof {
                    assert forall|c: Client| c.enc == old(enc)@ implies #[trigger] registries_sent(
                        c,
                        registry@,
                        registry@.len(),
                    ) == (Handled { result: Err(e), client: c.with_enc(enc@) }) by {
                        assert(registries_sent(c, registry@, (i + 1) as nat).result is Err);
                        lemma_registries_failed(c, registry@, (i + 1) as nat, registry@.len());
                    }
                }
                return Err(e);
            },
        }
        i = i + 1;
    }
    Ok(())
}

/// Once a registry could not be sent, the registries after it are not sent.
proof fn lemma_registries_failed(c: Client, registry: Seq<RegistryEntryView>, n: nat, m: nat)
    requires
        n <= m,
        registries_sent(c, registry, n).result is Err,
    ensures
        registries_sent(c, registry, m) == registries_sent(c, registry, n),
    decreases m - n,
{
    if n < m {
        lemma_registries_failed(c, registry, n, (m - 1) as nat);
    }
}

/// The client with a brand.
pub open spec fn with_brand(c: Client, brand: Seq<char>) -> Client {
    c.with_entity(
        EntityView {
            uuid: c.entity.uuid,
            remote_address: c.entity.remote_address,
            brand: Some(brand),
            play: c.entity.play,
        },
    )
}

/// The client as a player in the game.
pub open spec fn as_player(c: Client) -> Client {
    c.with_entity(
        EntityView {
            uuid: c.entity.uuid,
            remote_address: c.entity.remote_address,
            brand: c.entity.brand,
            play: true,
        },
    ).with_state(StateView::Play)
}

/// A step of the configuration. While the list of known packs is due, the
/// client may name its brand and its settings; its list of known packs is
/// answered with the registries and the end of configuration. Once the end is
/// due, the client's acknowledgement makes it a player and puts it into the
/// game. A packet that comes at the wrong time, or that is none of these, is
/// let pass and changes nothing.
pub open spec fn config_step(
    c: Client,
    id: VarInt,
    fields: Seq<u8>,
    registry: Seq<RegistryEntryView>,
) -> Handled {
    match c.state {
        StateView::Config(config) => if id.0 == SPluginMessage::PACKET_ID {
            if config == ConfigState::KnownPacks {
                match SPluginMessage::parse(fields).0 {
                    Err(e) => c.fail(PacketIoError::Deserializer(e)),
                    Ok(message) => if message.channel == "minecraft:brand"@ {
                        if valid_utf8(message.data) {
                            with_brand(c, decode_utf8(message.data)).done()
                        } else {
                            c.fail(PacketIoError::BadPacket("invalid utf-8"))
                        }
                    } else {
                        c.done()
                    },
                }
            } else {
                c.done()
            }
        } else if id.0 == SClientInformationConfig::PACKET_ID {
            if config == ConfigState::KnownPacks {
                match SClientInformationConfig::parse(fields).0 {
                    Err(e) => c.fail(PacketIoError::Deserializer(e)),
                    Ok(_) => c.done(),
                }
            } else {
                c.done()
            }
        } else if id.0 == SKnownPacks::PACKET_ID {
            if config == ConfigState::KnownPacks {
                match SKnownPacks::parse(fields).0 {
                    Err(e) => c.fail(PacketIoError::Deserializer(e)),
                    Ok(_) => registries_sent(c, registry, registry.len()).send(
                        CFinishConfig::packet_id(),
                        Seq::empty(),
                    ).enter(StateView::Config(ConfigState::AckFinish)),
                }
            } else {
                c.done()
            }
        } else if id.0 == SAcknowledgeFinishConfig::PACKET_ID {
            if config == ConfigState::AckFinish {
                play_entered(as_player(c))
            } else {
                c.done()
            }
        } else {
            c.done()
        },
        _ => c.fail(PacketIoError::BadPacket("not in config")),
    }
}

/// Takes the brand out of a plugin message on the brand channel.
fn read_brand(e: &mut ClientEntity, message: SPluginMessage) -> (r: Result<(), PacketIoError>)
    ensures
        message.channel@ != "minecraft:brand"@ ==> r == Ok::<(), PacketIoError>(()) && final(e)@
            == old(e)@,
        message.channel@ == "minecraft:brand"@ && !valid_utf8(message.data@) ==> r == Err::<
            (),
            PacketIoError,
        >(PacketIoError::BadPacket("invalid utf-8")) && final(e)@ == old(e)@,
        message.channel@ == "minecraft:brand"@ && valid_utf8(message.data@) ==> r == Ok::<
            (),
            PacketIoError,
        >(()) && final(e)@ == (EntityView {
            uuid: old(e)@.uuid,
            remote_address: old(e)@.remote_address,
            brand: Some(decode_utf8(message.data@)),
            play: old(e)@.play,
        }),
{
    if same_text(message.channel.as_str(), "minecraft:brand") {
        match str_from_utf8(message.data.as_slice()) {
            Some(brand) => {
                e.brand = Some(ClientBrand(brand.to_owned()));
                Ok(())
            },
            None => Err(PacketIoError::BadPacket("invalid utf-8")),
        }
    } else {
        Ok(())
    }
}

/// Answers the client's list of known packs.
fn finish_config(enc: &mut PacketEncoder, registry: &Registry) -> (r: Result<(), PacketIoError>)
    ensures
        forall|c: Client|
            c.enc == old(enc)@ ==> #[trigger] registries_sent(c, registry@, registry@.len()).send(
                CFinishConfig::packet_id(),
                Seq::empty(),
            ) == (Handled { result: r, client: c.with_enc(final(enc)@) }),
{
    send_registry_data(enc, registry)?;
    send_packet(enc, &CFinishConfig {  })
}

/// Handles a packet of a client that is being configured.
#[verifier::rlimit(60)]
pub fn config_handler(
    e: &mut ClientEntity,
    packet: RawPacket,
    enc: &mut PacketEncoder,
    state: &mut CurrentState,
    registry: &Registry,
) -> (r: Result<(), PacketIoError>)
    ensures
        forall|c: Client|
            c.enc == old(enc)@ && c.state == old(state)@ && c.entity == old(e)@
                ==> #[trigger] config_step(c, packet.id, packet.bytebuf@, registry@) == (Handled {
                result: r,
                client: c.with_enc(final(enc)@).with_state(final(state)@).with_entity(final(e)@),
            }),
{
    let mut packet = packet;
    let config = match state {
        CurrentState::Config(config) => *config,
        _ => {
            return Err(PacketIoError::BadPacket("not in config"));
        },
    };
    if packet.id.0 == SPluginMessage::PACKET_ID {
        if config == ConfigState::KnownPacks {
            match SPluginMessage::read(&mut packet.bytebuf) {
                Ok(message) => read_brand(e, message),
                Err(err) => Err(PacketIoError::Deserializer(err)),
            }
        } else {
            Ok(())
        }
    } else if packet.id.0 == SClientInformationConfig::PACKET_ID {
        if config == ConfigState::KnownPacks {
            match SClientInformationConfig::read(&mut packet.bytebuf) {
                Ok(_) => Ok(()),
                Err(err) => Err(PacketIoError::Deserializer(err)),
            }
        } else {
            Ok(())
        }
    } else if packet.id.0 == SKnownPacks::PACKET_ID {
        if config == ConfigState::KnownPacks {
            match SKnownPacks::read(&mut packet.bytebuf) {
                Ok(_) => {
                    let r = finish_config(enc, registry);
                    if r.is_ok() {
                        *state = CurrentState::Config(ConfigState::AckFinish);
                    }
                    r
                },
                Err(err) => Err(PacketIoError::Deserializer(err)),
            }
        } else {
            Ok(())
        }
    } else if packet.id.0 == SAcknowledgeFinishConfig::PACKET_ID {
        if config == ConfigState::AckFinish {
            *state = CurrentState::Play;
            e.play = Some(Play);
            on_play(enc)
        } else {
            Ok(())
        }
    } else {
        Ok(())
    }
}

/// Sending the registries leaves the state of the client, its components
/// and the setting of its codec as they are.
pub proof fn lemma_registries_keep_state(c: Client, registry: Seq<RegistryEntryView>, n: nat)
    ensures
        registries_sent(c, registry, n).client.state == c.state,
        registries_sent(c, registry, n).client.entity == c.entity,
        setting_of(registries_sent(c, registry, n).client) == setting_of(c),
    decreases n,
{
    if n > 0 {
        lemma_registries_keep_state(c, registry, (n - 1) as nat);
    }
}

/// A step of the configuration leaves the setting of the codec as it is.
pub proof fn lemma_config_setting(
    c: Client,
    id: VarInt,
    fields: Seq<u8>,
    registry: Seq<RegistryEntryView>,
)
    ensures
        setting_of(config_step(c, id, fields, registry).client) == setting_of(c),
{
    lemma_registries_keep_state(c, registry, registry.len());
}

/// A step of the configuration leaves it where it is or moves it on by one
/// state.
pub proof fn lemma_config_moves(
    c: Client,
    id: VarInt,
    fields: Seq<u8>,
    registry: Seq<RegistryEntryView>,
)
    requires
        c.state is Config,
    ensures
        ({
            let after = config_step(c, id, fields, registry).client.state;
            match c.state->Config_0 {
                ConfigState::KnownPacks => after == c.state || after == StateView::Config(
                    ConfigState::AckFinish,
                ),
                ConfigState::AckFinish => after == c.state || after == StateView::Play,
            }
        }),
{
    lemma_registries_keep_state(c, registry, registry.len());
}

} // verus!
