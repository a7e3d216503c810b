use hyperpumpkin::components::address::{parse_ip_address, IpAddress};
use hyperpumpkin::components::client::{
    ClientPacketQueue, CurrentState, PacketDecoder, PacketEncoder, SlabId,
};
use hyperpumpkin::components::ReadByteBuffer;
use hyperpumpkin::error::{PacketError, PacketIoError};
use hyperpumpkin::modules::keepalive::{
    handle_keepalive, keepalive_tick, send_keepalive, KeepAliveAction, KeepAliveSettings,
    KeepAliveState,
};
use hyperpumpkin::modules::net::{slot_id, ClientTable, NetworkSettings};
use hyperpumpkin::net::{
    client_data, client_read, interrupted, listener_accept, new_client, spawn_client, would_block,
    AcceptEvent, AcceptNext, IoErrorKind, ReadEvent, ReadNext,
};
use hyperpumpkin::protocol::bytebuf::put_i64;
use hyperpumpkin::protocol::client::status::CPingResponse;
use hyperpumpkin::protocol::frame::RawPacket;
use hyperpumpkin::protocol::var_int::VarInt;

fn keep_alive(id: i64) -> RawPacket {
    let mut fields = Vec::new();
    put_i64(&mut fields, id);
    RawPacket { id: VarInt(0x18), bytebuf: ReadByteBuffer::from_vec(fields) }
}

#[test]
fn default_period_is_eight_seconds() {
    assert_eq!(KeepAliveSettings::default().period, 8000);
    let state = KeepAliveState::new(5);
    assert!(state.got_keepalive);
    assert_eq!(state.last_keepalive_id, 0);
    assert_eq!(state.last_send, 5);
}

#[test]
fn keep_alive_is_sent_when_due() {
    let settings = KeepAliveSettings::default();
    let mut state = KeepAliveState::new(1000);
    let mut enc = PacketEncoder::new();
    assert_eq!(
        keepalive_tick(&mut enc, &mut state, &settings, 8999, 42),
        Ok(KeepAliveAction::Wait)
    );
    assert_eq!(state, KeepAliveState::new(1000));
    assert!(enc.take().is_empty());
    assert_eq!(
        keepalive_tick(&mut enc, &mut state, &settings, 9000, 42),
        Ok(KeepAliveAction::Sent)
    );
    assert_eq!(
        state,
        KeepAliveState { got_keepalive: false, last_keepalive_id: 42, last_send: 9000 }
    );
    assert_eq!(enc.take(), vec![9, 0x26, 0, 0, 0, 0, 0, 0, 0, 42]);
}

#[test]
fn clock_that_ran_backwards_waits() {
    let settings = KeepAliveSettings::default();
    let mut state = KeepAliveState::new(10_000);
    let mut enc = PacketEncoder::new();
    assert_eq!(
        keepalive_tick(&mut enc, &mut state, &settings, 0, 1),
        Ok(KeepAliveAction::Wait)
    );
}

#[test]
fn keep_alive_timeout() {
    let settings = KeepAliveSettings::default();
    let mut state = KeepAliveState::new(0);
    let mut enc = PacketEncoder::new();
    let mut actions = Vec::new();
    let mut now = 0;
    while now <= 16_000 {
        let action = send_keepalive(&mut enc, &mut state, &settings, now).unwrap();
        if action != KeepAliveAction::Wait {
            actions.push((now, action));
        }
        now += 50;
    }
    assert_eq!(
        actions,
        vec![(8000, KeepAliveAction::Sent), (16_000, KeepAliveAction::TimedOut)]
    );
    // the id that was sent is the one that is awaited
    let mut dec = PacketDecoder::new();
    dec.queue_slice(&enc.take());
    let mut sent = dec.decode().unwrap().unwrap();
    assert_eq!(sent.id, VarInt(0x26));
    assert_eq!(sent.bytebuf.get_i64(), Ok(state.last_keepalive_id));
    assert!(dec.decode().unwrap().is_none());
}

#[test]
fn answered_keep_alive_goes_on() {
    let settings = KeepAliveSettings::default();
    let mut state = KeepAliveState::new(0);
    let mut enc = PacketEncoder::new();
    assert_eq!(
        keepalive_tick(&mut enc, &mut state, &settings, 8000, 7),
        Ok(KeepAliveAction::Sent)
    );
    let queue = ClientPacketQueue(vec![keep_alive(7)]);
    assert_eq!(handle_keepalive(&queue, &mut state), Ok(()));
    assert!(state.got_keepalive);
    assert_eq!(
        keepalive_tick(&mut enc, &mut state, &settings, 15_999, 8),
        Ok(KeepAliveAction::Wait)
    );
    assert_eq!(
        keepalive_tick(&mut enc, &mut state, &settings, 16_000, 8),
        Ok(KeepAliveAction::Sent)
    );
    assert_eq!(state.last_keepalive_id, 8);
}

#[test]
fn wrong_keep_alive_disconnects() {
    let mut state = KeepAliveState { got_keepalive: false, last_keepalive_id: 7, last_send: 0 };
    let queue = ClientPacketQueue(vec![keep_alive(8), keep_alive(7)]);
    assert_eq!(handle_keepalive(&queue, &mut state), Err(PacketIoError::Disconnect));
    assert!(!state.got_keepalive);
}

#[test]
fn unexpected_and_foreign_packets_are_passed_over() {
    let mut idle = KeepAliveState::new(0);
    let queue = ClientPacketQueue(vec![keep_alive(99)]);
    assert_eq!(handle_keepalive(&queue, &mut idle), Ok(()));
    assert_eq!(idle, KeepAliveState::new(0));

    let mut waiting = KeepAliveState { got_keepalive: false, last_keepalive_id: 7, last_send: 0 };
    let mut position = keep_alive(8);
    position.id = VarInt(0x1a);
    let short = RawPacket { id: VarInt(0x18), bytebuf: ReadByteBuffer::from_vec(vec![1, 2]) };
    let queue = ClientPacketQueue(vec![position, short, keep_alive(7), keep_alive(1)]);
    assert_eq!(handle_keepalive(&queue, &mut waiting), Ok(()));
    assert!(waiting.got_keepalive);
}

#[test]
fn io_error_kinds() {
    assert!(would_block(IoErrorKind::WouldBlock));
    assert!(!would_block(IoErrorKind::Interrupted));
    assert!(!would_block(IoErrorKind::Other));
    assert!(interrupted(IoErrorKind::Interrupted));
    assert!(!interrupted(IoErrorKind::WouldBlock));
    assert!(!interrupted(IoErrorKind::Other));
}

#[test]
fn accept_decisions() {
    assert_eq!(listener_accept(AcceptEvent::Accepted { configured: true }), AcceptNext::Spawn);
    assert_eq!(listener_accept(AcceptEvent::Accepted { configured: false }), AcceptNext::Again);
    assert_eq!(listener_accept(AcceptEvent::Failed(IoErrorKind::WouldBlock)), AcceptNext::Stop);
    assert_eq!(listener_accept(AcceptEvent::Failed(IoErrorKind::Interrupted)), AcceptNext::Again);
    assert_eq!(listener_accept(AcceptEvent::Failed(IoErrorKind::Other)), AcceptNext::Fail);
}

#[test]
fn read_decisions() {
    let mut dec = PacketDecoder::new();
    assert!(matches!(client_read(&mut dec, ReadEvent::Data(&[3, 1, 2])), ReadNext::Again));
    assert!(matches!(
        client_read(&mut dec, ReadEvent::Failed(IoErrorKind::Interrupted)),
        ReadNext::Again
    ));
    assert!(matches!(client_read(&mut dec, ReadEvent::Data(&[3])), ReadNext::Again));
    assert!(matches!(
        client_read(&mut dec, ReadEvent::Failed(IoErrorKind::WouldBlock)),
        ReadNext::Decode
    ));
    assert!(matches!(
        client_read(&mut dec, ReadEvent::Closed),
        ReadNext::Fail(PacketIoError::Disconnect)
    ));
    assert!(matches!(
        client_read(&mut dec, ReadEvent::Failed(IoErrorKind::Other)),
        ReadNext::Fail(PacketIoError::Io)
    ));
    let packet = dec.decode().unwrap().unwrap();
    assert_eq!(packet.id, VarInt(1));
    assert_eq!(packet.bytebuf.as_slice(), &[2, 3]);
}

#[test]
fn client_data_fills_the_queue() {
    let mut enc = PacketEncoder::new();
    enc.append_packet(&CPingResponse::new(1)).unwrap();
    enc.append_packet(&CPingResponse::new(2)).unwrap();
    enc.append_packet(&CPingResponse::new(3)).unwrap();
    let bytes = enc.take();
    let mut dec = PacketDecoder::new();
    let mut queue = ClientPacketQueue(vec![RawPacket {
        id: VarInt(99),
        bytebuf: ReadByteBuffer::from_vec(vec![]),
    }]);
    dec.queue_slice(&bytes[..25]);
    assert_eq!(client_data(&mut dec, &mut queue), Ok(()));
    assert_eq!(queue.0.len(), 2);
    assert_eq!(queue.0[0].bytebuf.get_i64(), Ok(1));
    assert_eq!(queue.0[1].bytebuf.get_i64(), Ok(2));
    dec.queue_slice(&bytes[25..]);
    assert_eq!(client_data(&mut dec, &mut queue), Ok(()));
    assert_eq!(queue.0.len(), 1);
    assert_eq!(queue.0[0].bytebuf.get_i64(), Ok(3));
    assert_eq!(client_data(&mut dec, &mut queue), Ok(()));
    assert!(queue.0.is_empty());
}

#[test]
fn client_data_stops_at_damage() {
    let mut dec = PacketDecoder::new();
    let mut queue = ClientPacketQueue(vec![]);
    dec.queue_slice(&[2, 1, 7, 0, 2, 5, 6]);
    assert_eq!(
        client_data(&mut dec, &mut queue),
        Err(PacketIoError::Packet(PacketError::Truncated))
    );
    assert_eq!(queue.0.len(), 1);
    assert_eq!(queue.0[0].id, VarInt(1));
}

#[test]
fn table_gives_each_client_a_slot() {
    let mut table = ClientTable::new();
    let a = table.register(100).unwrap();
    let b = table.register(200).unwrap();
    assert_ne!(a, b);
    assert!(table.release(a));
    assert!(!table.release(a));
    let c = table.register(300).unwrap();
    assert_ne!(c, b);
    assert!(table.release(b));
    assert!(table.release(c));
    assert!(!table.release(SlabId(12345)));
}

#[test]
fn new_clients_start_with_the_handshake() {
    let mut table = ClientTable::new();
    let address = IpAddress::V4([192, 0, 2, 1]);
    let mut client = spawn_client(&mut table, 7, address).unwrap();
    assert!(matches!(client.state, CurrentState::HandShake));
    assert!(matches!(client.remote_address.0, IpAddress::V4([192, 0, 2, 1])));
    assert!(client.queue.0.is_empty());
    assert!(client.encoder.take().is_empty());
    assert!(client.decoder.decode().unwrap().is_none());
    let other = spawn_client(&mut table, 8, address).unwrap();
    assert_ne!(client.slab_id, other.slab_id);
    assert!(table.release(client.slab_id));
    assert!(table.release(other.slab_id));
}

#[test]
fn a_client_is_made_of_every_slot() {
    assert_eq!(slot_id(Some(0)), Some(SlabId(0)));
    assert_eq!(slot_id(Some(77)), Some(SlabId(77)));
    assert_eq!(slot_id(None), None);
    let address = IpAddress::V6([0x2001, 0xdb8, 0, 0, 0, 0, 0, 9]);
    assert!(new_client(None, address).is_none());
    let mut client = new_client(Some(SlabId(5)), address).unwrap();
    assert_eq!(client.slab_id, SlabId(5));
    assert!(matches!(client.remote_address.0, IpAddress::V6([0x2001, 0xdb8, 0, 0, 0, 0, 0, 9])));
    assert!(matches!(client.state, CurrentState::HandShake));
    assert!(client.queue.0.is_empty());
    assert!(client.encoder.take().is_empty());
    assert!(client.decoder.decode().unwrap().is_none());
}

#[test]
fn a_fresh_table_has_room() {
    let mut table = ClientTable::new();
    let mut slots = Vec::new();
    for entity in 0..100u64 {
        let client = spawn_client(&mut table, entity, IpAddress::V4([10, 0, 0, 1])).unwrap();
        assert!(!slots.contains(&client.slab_id));
        slots.push(client.slab_id);
    }
    for slot in slots {
        assert!(table.release(slot));
    }
}

#[test]
fn default_listen_address() {
    let settings = NetworkSettings::default();
    assert!(matches!(settings.address, IpAddress::V4([127, 0, 0, 1])));
    assert_eq!(settings.port, 25565);
}

fn v4(text: &str) -> Option<[u8; 4]> {
    match parse_ip_address(text) {
        Some(IpAddress::V4(o)) => Some(o),
        _ => None,
    }
}

fn v6(text: &str) -> Option<[u16; 8]> {
    match parse_ip_address(text) {
        Some(IpAddress::V6(g)) => Some(g),
        _ => None,
    }
}

#[test]
fn dotted_addresses() {
    assert_eq!(v4("203.0.113.5"), Some([203, 0, 113, 5]));
    assert_eq!(v4("0.0.0.0"), Some([0, 0, 0, 0]));
    assert_eq!(v4("255.255.255.255"), Some([255, 255, 255, 255]));
    for bad in [
        "", "1.2.3", "1.2.3.4.5", "256.1.1.1", "1.2.3.04", "01.2.3.4", "1..2.3", "1.2.3.4.",
        ".1.2.3.4", "1.2.3.a", "1.2.3.-4", "1.2.3.4 ", "1234.1.1.1", "localhost", "1,2,3,4",
    ] {
        assert!(parse_ip_address(bad).is_none(), "{} is no address", bad);
    }
}

#[test]
fn ipv6_addresses() {
    assert_eq!(v6("2001:db8:0:0:0:0:0:1"), Some([0x2001, 0xdb8, 0, 0, 0, 0, 0, 1]));
    assert_eq!(v6("2001:DB8::1"), Some([0x2001, 0xdb8, 0, 0, 0, 0, 0, 1]));
    assert_eq!(v6("::"), Some([0; 8]));
    assert_eq!(v6("::1"), Some([0, 0, 0, 0, 0, 0, 0, 1]));
    assert_eq!(v6("1::"), Some([1, 0, 0, 0, 0, 0, 0, 0]));
    assert_eq!(v6("1:2:3:4:5:6:7::"), Some([1, 2, 3, 4, 5, 6, 7, 0]));
    assert_eq!(v6("::2:3:4:5:6:7:8"), Some([0, 2, 3, 4, 5, 6, 7, 8]));
    assert_eq!(v6("0001:0002:0003:0004:0005:0006:0007:ffff"), Some([1, 2, 3, 4, 5, 6, 7, 0xffff]));
    assert_eq!(v6("::ffff:192.0.2.128"), Some([0, 0, 0, 0, 0, 0xffff, 0xc000, 0x0280]));
    assert_eq!(v6("1:2:3:4:5:6:1.2.3.4"), Some([1, 2, 3, 4, 5, 6, 0x0102, 0x0304]));
    assert_eq!(v6("64:ff9b::192.0.2.33"), Some([0x64, 0xff9b, 0, 0, 0, 0, 0xc000, 0x0221]));
    for bad in [
        ":", ":::", "1:2:3:4:5:6:7", "1:2:3:4:5:6:7:8:9", "1::2::3", "::1::", "1:2:3:4:5:6:7:8::",
        "::1:2:3:4:5:6:7:8", "12345::1", "g::1", ":1:2:3:4:5:6:7", "1:2:3:4:5:6:7:",
        "1.2.3.4::", "1:2:3:4:5:6:7:1.2.3.4", "::1.2.3", "fe80::1%eth0", "1:2:3:4:5:6:7:8 ",
        "::1.2.3.4:5",
    ] {
        assert!(parse_ip_address(bad).is_none(), "{} is no address", bad);
    }
}
