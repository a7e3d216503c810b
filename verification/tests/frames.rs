use hyperpumpkin::components::client::{PacketDecoder, PacketEncoder};
use hyperpumpkin::error::PacketError;
use hyperpumpkin::protocol::client::config::CRegistryData;
use hyperpumpkin::protocol::client::status::{CPingResponse, CStatusResponse};
use hyperpumpkin::protocol::frame::{
    encode_frame, open_frame, split_frame, CompressionInfo, MAX_PACKET_SIZE,
};
use hyperpumpkin::protocol::var_int::VarInt;
use std::io::Read;

fn inflate(data: &[u8]) -> Vec<u8> {
    let mut out = Vec::new();
    flate2::read::ZlibDecoder::new(data).read_to_end(&mut out).unwrap();
    out
}

#[test]
fn plain_frame_layout() {
    let frame = encode_frame(&None, 0x01, &[0xaa, 0xbb]).unwrap();
    assert_eq!(frame, vec![3, 0x01, 0xaa, 0xbb]);
    let empty = encode_frame(&None, 0x7f, &[]).unwrap();
    assert_eq!(empty, vec![1, 0x7f]);
}

#[test]
fn frame_round_trip_without_compression() {
    let body: Vec<u8> = (0u16..1000).map(|i| (i % 256) as u8).collect();
    let mut input = encode_frame(&None, 300, &body).unwrap();
    input.extend_from_slice(&[0xde, 0xad]);
    let payload = split_frame(&mut input).unwrap().unwrap();
    assert_eq!(input, vec![0xde, 0xad]);
    let packet = open_frame(payload, None).unwrap();
    assert_eq!(packet.id, VarInt(300));
    assert_eq!(packet.bytebuf.as_slice(), &body[..]);
}

#[test]
fn below_threshold_data_length_is_zero() {
    let info = Some(CompressionInfo { threshold: 256, level: 6 });
    let body = vec![0x55u8; 100];
    let frame = encode_frame(&info, 0x02, &body).unwrap();
    assert_eq!(frame[0], 102);
    assert_eq!(frame[1], 0);
    assert_eq!(frame[2], 0x02);
    assert_eq!(&frame[3..], &body[..]);
    let mut input = frame;
    let payload = split_frame(&mut input).unwrap().unwrap();
    let packet = open_frame(payload, Some(256)).unwrap();
    assert_eq!(packet.id, VarInt(2));
    assert_eq!(packet.bytebuf.as_slice(), &body[..]);
}

#[test]
fn threshold_edge() {
    let info = Some(CompressionInfo { threshold: 256, level: 6 });
    let just_below = encode_frame(&info, 0x02, &vec![0x55u8; 254]).unwrap();
    assert_eq!(just_below[2], 0);
    let at = encode_frame(&info, 0x02, &vec![0x55u8; 255]).unwrap();
    // length prefix, then the data length 256 as a VarInt
    assert_eq!(&at[1..3], &[0x80, 0x02]);
}

#[test]
fn above_threshold_body_inflates_to_the_packet() {
    let info = Some(CompressionInfo { threshold: 256, level: 6 });
    let body: Vec<u8> = (0u32..5000).map(|i| (i * i % 7) as u8).collect();
    let frame = encode_frame(&info, 0x27, &body).unwrap();
    assert!(frame.len() < body.len());
    // total length (2 bytes here), data length 5001 as a VarInt, then zlib
    let mut input = frame.clone();
    let payload = split_frame(&mut input).unwrap().unwrap();
    assert!(input.is_empty());
    assert_eq!(&payload[..2], &[0x89, 0x27]);
    let inner = inflate(&payload[2..]);
    assert_eq!(inner.len(), 5001);
    assert_eq!(inner[0], 0x27);
    assert_eq!(&inner[1..], &body[..]);
    let packet = open_frame(payload, Some(256)).unwrap();
    assert_eq!(packet.id, VarInt(0x27));
    assert_eq!(packet.bytebuf.as_slice(), &body[..]);
}

#[test]
fn compression_levels_all_inflate() {
    let body: Vec<u8> = (0u32..3000).map(|i| (i % 11) as u8).collect();
    for level in [0u32, 1, 6, 9, 10, 100] {
        let info = Some(CompressionInfo { threshold: 1, level });
        let mut input = encode_frame(&info, 5, &body).unwrap();
        let payload = split_frame(&mut input).unwrap().unwrap();
        let packet = open_frame(payload, Some(1)).unwrap();
        assert_eq!(packet.bytebuf.as_slice(), &body[..]);
    }
}

#[test]
fn too_long_packets_have_no_frame() {
    let body = vec![0u8; MAX_PACKET_SIZE];
    assert_eq!(encode_frame(&None, 1, &body), Err(PacketError::TooLong));
    let fits = vec![0u8; MAX_PACKET_SIZE - 1];
    let frame = encode_frame(&None, 1, &fits).unwrap();
    // a length of 2^21 takes four bytes
    assert_eq!(frame.len(), MAX_PACKET_SIZE + 4);
    let info = Some(CompressionInfo { threshold: 4_000_000, level: 6 });
    assert_eq!(encode_frame(&info, 1, &fits), Err(PacketError::TooLong));
}

#[test]
fn split_frame_waits_for_whole_frames() {
    let mut none: Vec<u8> = vec![];
    assert_eq!(split_frame(&mut none), Ok(None));
    let mut prefix_only = vec![0x80];
    assert_eq!(split_frame(&mut prefix_only), Ok(None));
    assert_eq!(prefix_only, vec![0x80]);
    let mut partial = vec![3, 1, 2];
    assert_eq!(split_frame(&mut partial), Ok(None));
    assert_eq!(partial, vec![3, 1, 2]);
    let mut whole = vec![3, 1, 2, 3];
    assert_eq!(split_frame(&mut whole), Ok(Some(vec![1, 2, 3])));
    assert!(whole.is_empty());
    let mut zero = vec![0, 9];
    assert_eq!(split_frame(&mut zero), Ok(Some(vec![])));
    assert_eq!(zero, vec![9]);
}

#[test]
fn split_frame_refuses_bad_lengths() {
    let mut too_big = vec![0xff, 0xff, 0xff, 0xff, 0xff, 0x01];
    assert_eq!(split_frame(&mut too_big), Err(PacketError::VarIntTooBig));
    assert_eq!(too_big.len(), 6);
    // 2^21 + 1
    let mut large = vec![0x81, 0x80, 0x80, 0x01];
    assert_eq!(split_frame(&mut large), Err(PacketError::FrameTooLarge));
    // 2^21 is allowed, and waited for
    let mut allowed = vec![0x80, 0x80, 0x80, 0x01];
    assert_eq!(split_frame(&mut allowed), Ok(None));
    let mut negative = vec![0xff, 0xff, 0xff, 0xff, 0x0f];
    assert_eq!(split_frame(&mut negative), Err(PacketError::FrameTooLarge));
}

#[test]
fn open_frame_errors() {
    assert_eq!(open_frame(vec![], None).err(), Some(PacketError::Truncated));
    assert_eq!(open_frame(vec![0x80], None).err(), Some(PacketError::Truncated));
    assert_eq!(
        open_frame(vec![0x80, 0x80, 0x80, 0x80, 0x80], None).err(),
        Some(PacketError::VarIntTooBig)
    );
    assert_eq!(open_frame(vec![], Some(256)).err(), Some(PacketError::Truncated));
    assert_eq!(open_frame(vec![0], Some(256)).err(), Some(PacketError::Truncated));
    // a data length below the threshold that is not 0
    assert_eq!(open_frame(vec![5, 1, 2, 3, 4, 5], Some(256)).err(), Some(PacketError::BadCompression));
    // a negative data length
    assert_eq!(
        open_frame(vec![0xff, 0xff, 0xff, 0xff, 0x0f, 1], Some(256)).err(),
        Some(PacketError::BadCompression)
    );
    // a data length above the cap
    assert_eq!(
        open_frame(vec![0x81, 0x80, 0x80, 0x01, 1], Some(256)).err(),
        Some(PacketError::FrameTooLarge)
    );
    // not a zlib stream
    assert_eq!(
        open_frame(vec![0x80, 0x02, 1, 2, 3], Some(256)).err(),
        Some(PacketError::BadCompression)
    );
}

#[test]
fn open_frame_checks_the_inflated_length() {
    let info = Some(CompressionInfo { threshold: 16, level: 6 });
    let body = vec![0x33u8; 63];
    let mut input = encode_frame(&info, 1, &body).unwrap();
    let mut payload = split_frame(&mut input).unwrap().unwrap();
    assert_eq!(payload[0], 64);
    let good = open_frame(payload.clone(), Some(16)).unwrap();
    assert_eq!(good.bytebuf.as_slice(), &body[..]);
    payload[0] = 63;
    assert_eq!(open_frame(payload.clone(), Some(16)).err(), Some(PacketError::BadCompression));
    payload[0] = 65;
    assert_eq!(open_frame(payload, Some(16)).err(), Some(PacketError::BadCompression));
}

#[test]
fn encoder_and_decoder_round_trip_plain() {
    let mut enc = PacketEncoder::new();
    let mut dec = PacketDecoder::new();
    enc.append_packet(&CPingResponse::new(0x0123456789abcdef)).unwrap();
    enc.append_packet(&CStatusResponse::new("{}")).unwrap();
    let bytes = enc.take();
    assert_eq!(
        bytes,
        vec![9, 1, 0x01, 0x23, 0x45, 0x67, 0x89, 0xab, 0xcd, 0xef, 4, 0, 2, b'{', b'}']
    );
    assert!(enc.take().is_empty());
    dec.queue_slice(&bytes[..5]);
    assert!(dec.decode().unwrap().is_none());
    dec.queue_slice(&bytes[5..]);
    let mut first = dec.decode().unwrap().unwrap();
    assert_eq!(first.id, VarInt(1));
    assert_eq!(first.bytebuf.get_i64(), Ok(0x0123456789abcdef));
    let mut second = dec.decode().unwrap().unwrap();
    assert_eq!(second.id, VarInt(0));
    assert_eq!(second.bytebuf.get_string(), Ok("{}".to_string()));
    assert!(dec.decode().unwrap().is_none());
}

#[test]
fn encoder_and_decoder_round_trip_encrypted_and_compressed() {
    let key = [0x42u8; 16];
    let mut enc = PacketEncoder::new();
    let mut dec = PacketDecoder::new();
    enc.append_packet(&CPingResponse::new(1)).unwrap();
    enc.set_encryption(Some(&key));
    enc.append_packet(&CPingResponse::new(2)).unwrap();
    enc.set_compression(Some(CompressionInfo { threshold: 64, level: 6 }));
    let entries = vec![0x5au8; 4000];
    enc.append_packet(&CRegistryData::new("minecraft:worldgen/biome", &entries)).unwrap();
    enc.append_packet(&CPingResponse::new(3)).unwrap();
    let bytes = enc.take();
    // the first frame is in the clear, the second is not
    assert_eq!(&bytes[..10], &[9, 1, 0, 0, 0, 0, 0, 0, 0, 1]);
    assert_ne!(&bytes[10..20], &[9, 1, 0, 0, 0, 0, 0, 0, 0, 2]);

    dec.queue_slice(&bytes[..10]);
    let mut one = dec.decode().unwrap().unwrap();
    assert_eq!(one.bytebuf.get_i64(), Ok(1));
    dec.set_encryption(Some(&key));
    // the rest comes in pieces of odd sizes
    let rest = &bytes[10..];
    let mut at = 0;
    let mut step = 1;
    let mut packets = Vec::new();
    while at < rest.len() {
        let end = (at + step).min(rest.len());
        dec.queue_slice(&rest[at..end]);
        at = end;
        step = step * 2 + 1;
        loop {
            match dec.decode().unwrap() {
                Some(p) => {
                    if packets.is_empty() {
                        dec.set_compression(Some(64));
                    }
                    packets.push(p);
                },
                None => break,
            }
        }
    }
    assert_eq!(packets.len(), 3);
    assert_eq!(packets[0].id, VarInt(1));
    assert_eq!(packets[0].bytebuf.get_i64(), Ok(2));
    assert_eq!(packets[1].id, VarInt(7));
    assert_eq!(packets[1].bytebuf.get_string(), Ok("minecraft:worldgen/biome".to_string()));
    assert_eq!(packets[1].bytebuf.as_slice(), &entries[..]);
    assert_eq!(packets[2].bytebuf.get_i64(), Ok(3));
}

#[test]
fn encryption_can_be_turned_off_again() {
    let key = [9u8; 16];
    let mut enc = PacketEncoder::new();
    enc.set_encryption(Some(&key));
    enc.set_encryption(None);
    enc.set_compression(Some(CompressionInfo { threshold: 1, level: 1 }));
    enc.set_compression(None);
    enc.append_packet(&CPingResponse::new(5)).unwrap();
    assert_eq!(enc.take(), vec![9, 1, 0, 0, 0, 0, 0, 0, 0, 5]);
    let mut dec = PacketDecoder::new();
    dec.set_encryption(Some(&key));
    dec.set_encryption(None);
    dec.set_compression(Some(9));
    dec.set_compression(None);
    dec.queue_slice(&[9, 1, 0, 0, 0, 0, 0, 0, 0, 5]);
    assert_eq!(dec.decode().unwrap().unwrap().id, VarInt(1));
}

#[test]
fn decoder_reports_damage() {
    let mut dec = PacketDecoder::new();
    dec.queue_slice(&[0xff, 0xff, 0xff, 0xff, 0xff]);
    assert_eq!(dec.decode().err(), Some(PacketError::VarIntTooBig));
    let mut empty_frame = PacketDecoder::new();
    empty_frame.queue_slice(&[0, 1, 5]);
    assert_eq!(empty_frame.decode().err(), Some(PacketError::Truncated));
    // the damaged frame is gone, the next one is whole
    assert_eq!(empty_frame.decode().unwrap().unwrap().id, VarInt(5));
}

#[test]
fn too_long_packet_changes_nothing() {
    let mut enc = PacketEncoder::new();
    enc.append_packet(&CPingResponse::new(1)).unwrap();
    let entries = vec![0u8; MAX_PACKET_SIZE];
    assert_eq!(
        enc.append_packet(&CRegistryData::new("x", &entries)),
        Err(PacketError::TooLong)
    );
    assert_eq!(enc.take().len(), 10);
}
