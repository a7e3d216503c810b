use vstd::prelude::*;
use crate::protocol::bytebuf::{encode_string, put_length, put_slice, put_string};
use crate::protocol::var_int::encode_var_uint;
use crate::protocol::ClientPacket;

verus! {

/// A data pack, by the names under which client and server know it.
#[derive(Debug, Clone, Copy)]
pub struct KnownPack<'a> {
    pub namespace: &'a str,
    pub id: &'a str,
    pub version: &'a str,
}

/// The bytes of one known pack: namespace, id and version.
pub open spec fn encode_known_pack(p: KnownPack) -> Seq<u8> {
    encode_string(p.namespace@) + encode_string(p.id@) + encode_string(p.version@)
}

/// The bytes of some known packs, one after the other.
pub open spec fn encode_known_packs(packs: Seq<KnownPack>) -> Seq<u8>
    decreases packs.len(),
{
    if packs.len() == 0 {
        Seq::empty()
    } else {
        encode_known_packs(packs.drop_last()) + encode_known_pack(packs.last())
    }
}

/// The fields of a list of known packs: the packs behind their number.
pub open spec fn known_packs_fields(packs: Seq<KnownPack>) -> Seq<u8> {
    encode_var_uint(packs.len()) + encode_known_packs(packs)
}

/// Tells the client which data packs the server has.
pub struct CKnownPacks<'a> {
    pub known_packs: &'a [KnownPack<'a>],
}

impl<'a> CKnownPacks<'a> {
    pub fn new(known_packs: &'a [KnownPack<'a>]) -> (p: Self)
        ensures
            p.known_packs == known_packs,
    {
        Self { known_packs }
    }
}

impl<'a> ClientPacket for CKnownPacks<'a> {
    open spec fn packet_id() -> i32 {
        0x0E
    }

    open spec fn fields(&self) -> Seq<u8> {
        known_packs_fields(self.known_packs@)
    }

    fn id() -> (id: i32) {
        0x0E
    }

    fn write(&self, buf: &mut Vec<u8>) {
        let count = self.known_packs.len();
        put_length(buf, count);
        let ghost head = buf@;
        let mut i: usize = 0;
        assert(self.known_packs@.take(0) =~= Seq::<KnownPack>::empty());
        while i < count
            invariant
                i <= count,
                count == self.known_packs@.len(),
                buf@ == head + encode_known_packs(self.known_packs@.take(i as int)),
            decreases count - i,
        {
            let p = &self.known_packs[i];
            let ghost before = buf@;
            put_string(buf, p.namespace);
            put_string(buf, p.id);
            put_string(buf, p.version);
            proof {
                let taken = self.known_packs@.take(i + 1);
                assert(taken.drop_last() =~= self.known_packs@.take(i as int));
                assert(taken.last() == *p);
                assert(buf@ =~= before + encode_known_pack(*p));
                assert(buf@ =~= head + encode_known_packs(taken));
            }
            i = i + 1;
        }
        assert(self.known_packs@.take(count as int) =~= self.known_packs@);
        assert(buf@ =~= old(buf)@ + self.fields());
    }
}

/// The fields of a registry: its name as a string, and its entries as they
/// are.
pub open spec fn registry_data_fields(registry_id: Seq<char>, entries: Seq<u8>) -> Seq<u8> {
    encode_string(registry_id) + entries
}

/// Ships one registry to the client: its name, and its entries as the
/// registry provider encoded them.
pub struct CRegistryData<'a> {
    pub registry_id: &'a str,
    pub entries: &'a [u8],
}

impl<'a> CRegistryData<'a> {
    pub fn new(registry_id: &'a str, entries: &'a [u8]) -> (p: Self)
        ensures
            p.registry_id == registry_id,
            p.entries == entries,
    {
        Self { registry_id, entries }
    }
}

impl<'a> ClientPacket for CRegistryData<'a> {
    open spec fn packet_id() -> i32 {
        0x07
    }

    open spec fn fields(&self) -> Seq<u8> {
        registry_data_fields(self.registry_id@, self.entries@)
    }

    fn id() -> (id: i32) {
        0x07
    }

    fn write(&self, buf: &mut Vec<u8>) {
        put_string(buf, self.registry_id);
        put_slice(buf, self.entries);
        assert(buf@ =~= old(buf)@ + self.fields());
    }
}

/// Tells the client that configuration is over.
pub struct CFinishConfig {}

impl ClientPacket for CFinishConfig {
    open spec fn packet_id() -> i32 {
        0x03
    }

    open spec fn fields(&self) -> Seq<u8> {
        Seq::empty()
    }

    fn id() -> (id: i32) {
        0x03
    }

    fn write(&self, buf: &mut Vec<u8>) {
        assert(buf@ =~= old(buf)@ + self.fields());
    }
}

} // verus!
