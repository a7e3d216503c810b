use vstd::prelude::*;
use crate::components::address::IpAddress;
use crate::components::client::SlabId;

verus! {

/// Where the server listens.
#[derive(Debug, Clone, Copy)]
pub struct NetworkSettings {
    pub address: IpAddress,
    pub port: u16,
}

impl Default for NetworkSettings {
    fn default() -> (settings: Self)
        ensures
            settings.address@ == crate::components::address::IpAddressView::V4(
                seq![127u8, 0u8, 0u8, 1u8],
            ),
            settings.port == 25565,
    {
        let address = [127u8, 0, 0, 1];
        assert(address@ =~= seq![127u8, 0u8, 0u8, 1u8]);
        Self { address: IpAddress::V4(address), port: 25565 }
    }
}

/// The table of the clients that are connected: a `sharded_slab::Slab` that
/// gives each client a slot and keeps the id of the client's entity in it.
#[verifier::external_body]
pub struct ClientTable {
    clients: sharded_slab::Slab<u64>,
}

/// No slot taken.
pub open spec fn empty_slots() -> Map<usize, u64> {
    Map::empty()
}

/// The entity ids that the slots of a table hold, by slot.
pub uninterp spec fn table_slots(table: ClientTable) -> Map<usize, u64>;

/// `Slab::new`: a slab with no slot taken.
#[verifier::external_body]
fn slab_new() -> (fresh: ClientTable)
    ensures
        table_slots(fresh) == empty_slots(),
{
    ClientTable { clients: sharded_slab::Slab::new() }
}

/// `Slab::insert`: puts a value into a slot that was free and hands out the
/// slot, or does nothing where no slot can be had.
#[verifier::external_body]
fn slab_insert(table: &mut ClientTable, entity: u64) -> (slot: Option<usize>)
    ensures
        match slot {
            Some(key) => !table_slots(*old(table)).contains_key(key) && table_slots(*final(table))
                == table_slots(*old(table)).insert(key, entity),
            None => table_slots(*final(table)) == table_slots(*old(table)),
        },
{
    table.clients.insert(entity)
}

/// `Slab::remove`: frees a slot and says whether it was taken. Nobody else
/// holds the slab meanwhile, so the slot is free when the call returns.
#[verifier::external_body]
fn slab_remove(table: &mut ClientTable, key: usize) -> (removed: bool)
    ensures
        removed == table_slots(*old(table)).contains_key(key),
        table_slots(*final(table)) == table_slots(*old(table)).remove(key),
{
    table.clients.remove(key)
}

impl View for ClientTable {
    type V = Map<usize, u64>;

    open spec fn view(&self) -> Map<usize, u64> {
        table_slots(*self)
    }
}

impl ClientTable {
    /// A table without clients.
    pub fn new() -> (table: Self)
        ensures
            table@ == empty_slots(),
    {
        slab_new()
    }

    /// Gives a new client a slot that no client holds, and notes the client's
    /// entity there. Where the table is full, nothing changes.
    pub fn register(&mut self, entity: u64) -> (slot: Option<SlabId>)
        ensures
            match slot {
                Some(id) => !old(self)@.contains_key(id.0) && final(self)@ == old(self)@.insert(
                    id.0,
                    entity,
                ),
                None => final(self)@ == old(self)@,
            },
    {
        slot_id(slab_insert(self, entity))
    }

    /// Frees the slot of a client that is gone, and says whether the slot
    /// was taken. No other slot changes.
    pub fn release(&mut self, id: SlabId) -> (released: bool)
        ensures
            released == old(self)@.contains_key(id.0),
            final(self)@ == old(self)@.remove(id.0),
    {
        slab_remove(self, id.0)
    }
}

/// What the client is told of an insertion into the table: the id of its
/// slot where the table gave one, and nothing where the table gave none.
pub open spec fn slot_id_of(slot: Option<usize>) -> Option<SlabId> {
    match slot {
        Some(key) => Some(SlabId(key)),
        None => None,
    }
}

/// Makes the id of a client's slot of what an insertion into the table gave.
/// Whether a slot is had is the table's to say: every slot it gives becomes
/// an id, and only where it gives none there is no id.
pub fn slot_id(slot: Option<usize>) -> (id: Option<SlabId>)
    ensures
        id == slot_id_of(slot),
{
    match slot {
        Some(key) => Some(SlabId(key)),
        None => None,
    }
}

/// A slot is taken for as long as its client lives, and for no longer. A
/// client that registers gets a slot that was free and that holds the
/// client's entity from then on; every other slot stays as it is. Once the
/// client is released, its slot is free again, every other slot stays as it
/// is, and the table is as it was before the client came.
pub proof fn law_slot_lives_with_client(
    before: Map<usize, u64>,
    slot: usize,
    entity: u64,
    other: usize,
)
    requires
        !before.contains_key(slot),
        other != slot,
    ensures
        ({
            let during = before.insert(slot, entity);
            let after = during.remove(slot);
            &&& during.contains_key(slot) && during[slot] == entity
            &&& during.contains_key(other) == before.contains_key(other)
            &&& before.contains_key(other) ==> during[other] == before[other]
            &&& !after.contains_key(slot)
            &&& after == before
        }),
{
    assert(before.insert(slot, entity).remove(slot) =~= before);
}

} // verus!
