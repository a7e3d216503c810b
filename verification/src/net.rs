use vstd::prelude::*;
use crate::components::address::IpAddress;
use crate::components::client::{
    ClientPacketQueue, CurrentState, DecoderState, EncoderState, PacketDecoder, PacketEncoder,
    RemoteAddress, SlabId, StateView,
};
use crate::error::{PacketError, PacketIoError};
use crate::handlers::queue_view;
use crate::modules::net::ClientTable;
use crate::protocol::frame::{open_payload, scan_frame, FrameScan};
use crate::protocol::var_int::{lemma_scan_var_uint_bounds, VarInt};

verus! {

/// Why a call on a socket failed, as far as the server tells failures apart.
#[derive(Debug, Clone, Copy, PartialEq, Eq, Structural)]
pub enum IoErrorKind {
    /// Nothing is there yet, and the call would have to wait.
    WouldBlock,
    /// A signal cut the call short.
    Interrupted,
    /// Any other failure.
    Other,
}

/// Whether a call failed because it would have to wait.
pub fn would_block(kind: IoErrorKind) -> (yes: bool)
    ensures
        yes == (kind == IoErrorKind::WouldBlock),
{
    kind == IoErrorKind::WouldBlock
}

/// Whether a call failed because a signal cut it short.
pub fn interrupted(kind: IoErrorKind) -> (yes: bool)
    ensures
        yes == (kind == IoErrorKind::Interrupted),
{
    kind == IoErrorKind::Interrupted
}

/// How an attempt to accept a connection ended.
#[derive(Debug, Clone, Copy, PartialEq, Eq, Structural)]
pub enum AcceptEvent {
    /// A connection came in. `configured` says whether its socket could be
    /// set not to block and not to delay.
    Accepted { configured: bool },
    /// The attempt failed.
    Failed(IoErrorKind),
}

/// What the listener does after an attempt to accept.
#[derive(Debug, Clone, Copy, PartialEq, Eq, Structural)]
pub enum AcceptNext {
    /// Make a client of the connection, then try again.
    Spawn,
    /// Try again.
    Again,
    /// No connection waits: stop for this tick.
    Stop,
    /// Give the listener up for this tick, with an error.
    Fail,
}

/// What follows an attempt to accept. A connection whose socket could be set
/// up becomes a client; one whose socket could not is dropped. Without a
/// waiting connection the listener stops; after a signal it tries again; any
/// other failure ends the tick with an error.
pub open spec fn accept_next(event: AcceptEvent) -> AcceptNext {
    match event {
        AcceptEvent::Accepted { configured: true } => AcceptNext::Spawn,
        AcceptEvent::Accepted { configured: false } => AcceptNext::Again,
        AcceptEvent::Failed(IoErrorKind::WouldBlock) => AcceptNext::Stop,
        AcceptEvent::Failed(IoErrorKind::Interrupted) => AcceptNext::Again,
        AcceptEvent::Failed(IoErrorKind::Other) => AcceptNext::Fail,
    }
}

/// Decides what follows an attempt to accept a connection.
pub fn listener_accept(event: AcceptEvent) -> (next: AcceptNext)
    ensures
        next == accept_next(event),
{
    match event {
        AcceptEvent::Accepted { configured } => if configured {
            AcceptNext::Spawn
        } else {
            AcceptNext::Again
        },
        AcceptEvent::Failed(kind) => if would_block(kind) {
            AcceptNext::Stop
        } else if interrupted(kind) {
            AcceptNext::Again
        } else {
            AcceptNext::Fail
        },
    }
}

/// All that a client starts with.
pub struct NewClient {
    pub remote_address: RemoteAddress,
    pub encoder: PacketEncoder,
    pub decoder: PacketDecoder,
    pub queue: ClientPacketQueue,
    pub slab_id: SlabId,
    pub state: CurrentState,
}

/// Makes a client of an accepted connection: the client gets a slot of the
/// table that no client holds, a fresh encoder and decoder, an empty queue,
/// and starts with the handshake. Where the table is full there is no
/// client, and nothing changes.
pub fn spawn_client(table: &mut ClientTable, entity: u64, address: IpAddress) -> (client: Option<
    NewClient,
>)
    ensures
        match client {
            Some(c) => {
                &&& !old(table)@.contains_key(c.slab_id.0)
                &&& final(table)@ == old(table)@.insert(c.slab_id.0, entity)
                &&& c.remote_address.0 == address
                &&& c.encoder@ == EncoderState::fresh()
                &&& c.decoder@ == DecoderState::fresh()
                &&& c.queue.0@.len() == 0
                &&& c.state@ == StateView::HandShake
            },
            None => final(table)@ == old(table)@,
        },
{
    new_client(table.register(entity), address)
}

/// What a client starts with, once the table has answered. With a slot the
/// client is made: it holds that slot and the address, a fresh encoder and
/// decoder and an empty queue, and starts with the handshake. Without a slot
/// there is no client.
pub fn new_client(slot: Option<SlabId>, address: IpAddress) -> (client: Option<NewClient>)
    ensures
        client is Some <==> slot is Some,
        client matches Some(c) ==> {
            &&& Some(c.slab_id) == slot
            &&& c.remote_address.0 == address
            &&& c.encoder@ == EncoderState::fresh()
            &&& c.decoder@ == DecoderState::fresh()
            &&& c.queue.0@.len() == 0
            &&& c.state@ == StateView::HandShake
        },
{
    let slab_id = slot?;
    Some(
        NewClient {
            remote_address: RemoteAddress(address),
            encoder: PacketEncoder::new(),
            decoder: PacketDecoder::new(),
            queue: ClientPacketQueue(Vec::new()),
            slab_id,
            state: CurrentState::HandShake,
        },
    )
}

/// How an attempt to read from a client's socket ended.
pub enum ReadEvent<'a> {
    /// The peer closed the connection.
    Closed,
    /// These bytes came in.
    Data(&'a [u8]),
    /// The attempt failed.
    Failed(IoErrorKind),
}

/// What the reader does after an attempt to read.
#[derive(Debug, Clone, Copy)]
pub enum ReadNext {
    /// Read again.
    Again,
    /// Nothing more is there: make packets of what came in.
    Decode,
    /// Drop the client.
    Fail(PacketIoError),
}

/// What follows an attempt to read, and what the decoder holds then. Bytes
/// that came in go to the decoder and the reader reads on; so it does after a
/// signal. Once nothing more is there, the reader stops. A closed connection
/// drops the client without a warning, any other failure with one.
pub open spec fn read_next(dec: DecoderState, event: ReadEvent) -> (ReadNext, DecoderState) {
    match event {
        ReadEvent::Closed => (ReadNext::Fail(PacketIoError::Disconnect), dec),
        ReadEvent::Data(bytes) => (ReadNext::Again, dec.queue(bytes@)),
        ReadEvent::Failed(IoErrorKind::WouldBlock) => (ReadNext::Decode, dec),
        ReadEvent::Failed(IoErrorKind::Interrupted) => (ReadNext::Again, dec),
        ReadEvent::Failed(IoErrorKind::Other) => (ReadNext::Fail(PacketIoError::Io), dec),
    }
}

/// Takes in what an attempt to read brought, and decides what follows.
pub fn client_read(dec: &mut PacketDecoder, event: ReadEvent) -> (next: ReadNext)
    ensures
        (next, final(dec)@) == read_next(old(dec)@, event),
{
    match event {
        ReadEvent::Closed => ReadNext::Fail(PacketIoError::Disconnect),
        ReadEvent::Data(bytes) => {
            dec.queue_slice(bytes);
            ReadNext::Again
        },
        ReadEvent::Failed(kind) => if would_block(kind) {
            ReadNext::Decode
        } else if interrupted(kind) {
            ReadNext::Again
        } else {
            ReadNext::Fail(PacketIoError::Io)
        },
    }
}

/// What a decoder gives when all whole frames are taken off its input.
pub struct Drained {
    /// The packets, in the order of their frames.
    pub packets: Seq<(VarInt, Seq<u8>)>,
    /// The decoder afterwards.
    pub dec: DecoderState,
    /// Whether the input was sound as far as it was looked at.
    pub result: Result<(), PacketError>,
}

/// Takes whole frames off the input for as long as there are any, and makes
/// a packet of each. The first frame that is damaged ends the run: nothing
/// behind it is looked at. A frame with a length that cannot be one stays in
/// the input; a frame that holds no packet is taken off.
pub open spec fn drained(dec: DecoderState) -> Drained
    decreases dec.input.len(),
    via drained_decreases
{
    match scan_frame(dec.input) {
        FrameScan::NeedMore => Drained { packets: Seq::empty(), dec, result: Ok(()) },
        FrameScan::Bad(e) => Drained { packets: Seq::empty(), dec, result: Err(e) },
        FrameScan::Frame { payload, rest } => match open_payload(payload, dec.compression) {
            Err(e) => Drained { packets: Seq::empty(), dec: dec.with_input(rest), result: Err(e) },
            Ok(packet) => {
                let more = drained(dec.with_input(rest));
                Drained { packets: seq![packet] + more.packets, dec: more.dec, result: more.result }
            },
        },
    }
}

#[via_fn]
proof fn drained_decreases(dec: DecoderState) {
    lemma_scan_var_uint_bounds(dec.input, 5);
}

/// Makes packets of all that the decoder holds, and puts them into the
/// queue in place of what the queue held.
pub fn client_data(dec: &mut PacketDecoder, queue: &mut ClientPacketQueue) -> (r: Result<
    (),
    PacketIoError,
>)
    ensures
        final(dec)@ == drained(old(dec)@).dec,
        queue_view(*final(queue)) == drained(old(dec)@).packets,
        match drained(old(dec)@).result {
            Ok(_) => r == Ok::<(), PacketIoError>(()),
            Err(e) => r == Err::<(), PacketIoError>(PacketIoError::Packet(e)),
        },
{
    queue.0.clear();
    assert(queue_view(*queue) =~= Seq::<(VarInt, Seq<u8>)>::empty());
    loop
        invariant
            drained(old(dec)@).packets == queue_view(*queue) + drained(dec@).packets,
            drained(old(dec)@).dec == drained(dec@).dec,
            drained(old(dec)@).result == drained(dec@).result,
        decreases dec@.input.len(),
    {
        proof {
            lemma_scan_var_uint_bounds(dec@.input, 5);
        }
        let ghost before = queue_view(*queue);
        let ghost was = dec@;
        match dec.decode() {
            Ok(Some(packet)) => {
                let ghost view = (packet.id, packet.bytebuf@);
                queue.0.push(packet);
                assert(queue_view(*queue) =~= before.push(view));
                assert(before.push(view) + drained(dec@).packets =~= before + (seq![view] + drained(
                    dec@,
                ).packets));
            },
            Ok(None) => {
                assert(queue_view(*queue) + Seq::<(VarInt, Seq<u8>)>::empty() =~= queue_view(
                    *queue,
                ));
                return Ok(());
            },
            Err(e) => {
                assert(queue_view(*queue) + Seq::<(VarInt, Seq<u8>)>::empty() =~= queue_view(
                    *queue,
                ));
                return Err(PacketIoError::Packet(e));
            },
        }
    }
}

} // verus!
