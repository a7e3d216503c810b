use hyperpumpkin::components::player::Uuid;
use hyperpumpkin::components::ReadByteBuffer;
use hyperpumpkin::error::DeserializerError;
use hyperpumpkin::protocol::bytebuf::{
    put_bool, put_i32, put_i64, put_prefixed, put_slice, put_string, put_u16, put_u32, put_u64,
    put_u8, put_uuid, put_var_int, put_var_long, to_unsigned_32, to_unsigned_64,
};
use hyperpumpkin::protocol::var_int::{peek_var_int, VarInt, VarPeek};

fn written_var_int(v: i32) -> Vec<u8> {
    let mut buf = Vec::new();
    put_var_int(&mut buf, VarInt(v));
    buf
}

#[test]
fn var_int_known_encodings() {
    assert_eq!(written_var_int(0), vec![0x00]);
    assert_eq!(written_var_int(1), vec![0x01]);
    assert_eq!(written_var_int(127), vec![0x7f]);
    assert_eq!(written_var_int(128), vec![0x80, 0x01]);
    assert_eq!(written_var_int(255), vec![0xff, 0x01]);
    assert_eq!(written_var_int(25565), vec![0xdd, 0xc7, 0x01]);
    assert_eq!(written_var_int(2097151), vec![0xff, 0xff, 0x7f]);
    assert_eq!(written_var_int(2147483647), vec![0xff, 0xff, 0xff, 0xff, 0x07]);
    assert_eq!(written_var_int(-1), vec![0xff, 0xff, 0xff, 0xff, 0x0f]);
    assert_eq!(written_var_int(-2147483648), vec![0x80, 0x80, 0x80, 0x80, 0x08]);
}

#[test]
fn var_int_round_trips_with_minimal_length() {
    let samples: Vec<(i32, usize)> = vec![
        (0, 1),
        (127, 1),
        (128, 2),
        (16383, 2),
        (16384, 3),
        (2097151, 3),
        (2097152, 4),
        (268435455, 4),
        (268435456, 5),
        (i32::MAX, 5),
        (-1, 5),
        (i32::MIN, 5),
    ];
    for (value, len) in samples {
        let mut bytes = written_var_int(value);
        assert_eq!(bytes.len(), len);
        bytes.push(0xaa);
        let mut buf = ReadByteBuffer::from_vec(bytes);
        assert_eq!(buf.get_var_int(), Ok(VarInt(value)));
        assert_eq!(buf.as_slice(), &[0xaa]);
    }
}

#[test]
fn var_int_reads_minus_one() {
    let mut buf = ReadByteBuffer::from_vec(vec![0xff, 0xff, 0xff, 0xff, 0x0f]);
    assert_eq!(buf.get_var_int(), Ok(VarInt(-1)));
    assert_eq!(buf.remaining(), 0);
}

#[test]
fn var_int_ignores_bits_above_32() {
    let mut buf = ReadByteBuffer::from_vec(vec![0xff, 0xff, 0xff, 0xff, 0x7f]);
    assert_eq!(buf.get_var_int(), Ok(VarInt(-1)));
}

#[test]
fn var_int_too_big() {
    let mut buf = ReadByteBuffer::from_vec(vec![0xff, 0xff, 0xff, 0xff, 0xff, 0x01]);
    assert_eq!(buf.get_var_int(), Err(DeserializerError::VarIntTooBig));
    assert_eq!(buf.remaining(), 1);
}

#[test]
fn var_int_incomplete() {
    let mut buf = ReadByteBuffer::from_vec(vec![0x80, 0x80]);
    assert_eq!(buf.get_var_int(), Err(DeserializerError::InsufficientBytes));
    assert_eq!(buf.remaining(), 0);
    let mut empty = ReadByteBuffer::from_vec(vec![]);
    assert_eq!(empty.get_var_int(), Err(DeserializerError::InsufficientBytes));
}

#[test]
fn peek_var_int_leaves_input() {
    assert_eq!(peek_var_int(&[0xdd, 0xc7, 0x01, 0x05]), VarPeek::Value { value: 25565, len: 3 });
    assert_eq!(peek_var_int(&[0x80]), VarPeek::Incomplete);
    assert_eq!(peek_var_int(&[]), VarPeek::Incomplete);
    assert_eq!(peek_var_int(&[0x80, 0x80, 0x80, 0x80, 0x80]), VarPeek::TooBig);
    assert_eq!(
        peek_var_int(&[0xff, 0xff, 0xff, 0xff, 0x0f]),
        VarPeek::Value { value: -1, len: 5 }
    );
}

#[test]
fn var_long_round_trips() {
    let samples: Vec<(i64, usize)> = vec![
        (0, 1),
        (127, 1),
        (128, 2),
        (2147483647, 5),
        (i64::MAX, 9),
        (-1, 10),
        (i64::MIN, 10),
    ];
    for (value, len) in samples {
        let mut bytes = Vec::new();
        put_var_long(&mut bytes, value);
        assert_eq!(bytes.len(), len);
        let mut buf = ReadByteBuffer::from_vec(bytes);
        assert_eq!(buf.get_var_long(), Ok(value));
        assert_eq!(buf.remaining(), 0);
    }
}

#[test]
fn var_long_known_encoding_and_errors() {
    let mut bytes = Vec::new();
    put_var_long(&mut bytes, -1);
    assert_eq!(bytes, vec![0xff, 0xff, 0xff, 0xff, 0xff, 0xff, 0xff, 0xff, 0xff, 0x01]);
    let mut too_big = ReadByteBuffer::from_vec(vec![0x80; 11]);
    assert_eq!(too_big.get_var_long(), Err(DeserializerError::VarLongTooBig));
    assert_eq!(too_big.remaining(), 1);
    let mut short = ReadByteBuffer::from_vec(vec![0x80; 3]);
    assert_eq!(short.get_var_long(), Err(DeserializerError::InsufficientBytes));
}

#[test]
fn unsigned_patterns() {
    assert_eq!(to_unsigned_32(-1), u32::MAX);
    assert_eq!(to_unsigned_32(i32::MIN), 0x8000_0000);
    assert_eq!(to_unsigned_32(5), 5);
    assert_eq!(to_unsigned_64(-1), u64::MAX);
    assert_eq!(to_unsigned_64(i64::MIN), 0x8000_0000_0000_0000);
}

#[test]
fn reads_big_endian_numbers() {
    let mut buf = ReadByteBuffer::from_vec(vec![
        0x08, 0xff, 0x08, 0x09, 0xff, 0xfe, 0x01, 0x02, 0x03, 0x04, 0xff, 0xff, 0xff, 0xfd, 0x01,
        0x23, 0x45, 0x67, 0x89, 0xab, 0xcd, 0xef, 0xff, 0xff, 0xff, 0xff, 0xff, 0xff, 0xff, 0xfc,
    ]);
    assert_eq!(buf.get_u8(), Ok(8));
    assert_eq!(buf.get_i8(), Ok(-1));
    assert_eq!(buf.get_u16(), Ok(0x0809));
    assert_eq!(buf.get_i16(), Ok(-2));
    assert_eq!(buf.get_u32(), Ok(0x01020304));
    assert_eq!(buf.get_i32(), Ok(-3));
    assert_eq!(buf.get_u64(), Ok(0x0123456789abcdef));
    assert_eq!(buf.get_i64(), Ok(-4));
    assert_eq!(buf.remaining(), 0);
}

#[test]
fn reads_float_bit_patterns() {
    let mut buf = ReadByteBuffer::from_vec(vec![
        0x3d, 0x4c, 0xcc, 0xcd, 0x40, 0x50, 0x00, 0x00, 0x00, 0x00, 0x00, 0x00,
    ]);
    let speed = buf.get_f32().unwrap();
    assert_eq!(speed, 0x3d4ccccd);
    assert_eq!(f32::from_bits(speed), 0.05f32);
    let height = buf.get_f64().unwrap();
    assert_eq!(f64::from_bits(height), 64.0f64);
}

#[test]
fn short_reads_fail_and_leave_the_buffer() {
    let mut buf = ReadByteBuffer::from_vec(vec![0x01]);
    assert_eq!(buf.get_u16(), Err(DeserializerError::InsufficientBytes));
    assert_eq!(buf.get_i16(), Err(DeserializerError::InsufficientBytes));
    assert_eq!(buf.get_u32(), Err(DeserializerError::InsufficientBytes));
    assert_eq!(buf.get_i32(), Err(DeserializerError::InsufficientBytes));
    assert_eq!(buf.get_u64(), Err(DeserializerError::InsufficientBytes));
    assert_eq!(buf.get_i64(), Err(DeserializerError::InsufficientBytes));
    assert_eq!(buf.get_f32(), Err(DeserializerError::InsufficientBytes));
    assert_eq!(buf.get_f64(), Err(DeserializerError::InsufficientBytes));
    assert!(buf.get_uuid().is_err());
    assert!(buf.copy_to_bytes(2).is_err());
    let mut two = [0u8; 2];
    assert_eq!(buf.copy_to_slice(&mut two), Err(DeserializerError::InsufficientBytes));
    assert_eq!(two, [0, 0]);
    assert_eq!(buf.remaining(), 1);
    assert_eq!(buf.get_u8(), Ok(1));
    assert_eq!(buf.get_u8(), Err(DeserializerError::InsufficientBytes));
    assert_eq!(buf.get_i8(), Err(DeserializerError::InsufficientBytes));
    assert_eq!(buf.get_bool(), Err(DeserializerError::InsufficientBytes));
}

#[test]
fn reads_bool() {
    let mut buf = ReadByteBuffer::from_vec(vec![0, 1, 2]);
    assert_eq!(buf.get_bool(), Ok(false));
    assert_eq!(buf.get_bool(), Ok(true));
    assert_eq!(buf.get_bool(), Ok(true));
}

#[test]
fn reads_strings() {
    let mut bytes = Vec::new();
    put_string(&mut bytes, "héllo");
    assert_eq!(bytes, vec![6, b'h', 0xc3, 0xa9, b'l', b'l', b'o']);
    bytes.push(9);
    let mut buf = ReadByteBuffer::from_vec(bytes);
    assert_eq!(buf.get_string(), Ok("héllo".to_string()));
    assert_eq!(buf.as_slice(), &[9]);
}

#[test]
fn string_errors() {
    let mut long = ReadByteBuffer::from_vec(vec![3, b'a', b'b', b'c']);
    assert_eq!(long.get_string_len(2), Err(DeserializerError::StringTooLong));
    assert_eq!(long.remaining(), 3);
    let mut exact = ReadByteBuffer::from_vec(vec![3, b'a', b'b', b'c']);
    assert_eq!(exact.get_string_len(3), Ok("abc".to_string()));
    let mut short = ReadByteBuffer::from_vec(vec![3, b'a']);
    assert_eq!(short.get_string(), Err(DeserializerError::InsufficientBytes));
    let mut invalid = ReadByteBuffer::from_vec(vec![2, 0xff, 0xfe, 7]);
    assert_eq!(invalid.get_string(), Err(DeserializerError::InvalidUtf8));
    assert_eq!(invalid.as_slice(), &[7]);
    let mut negative = ReadByteBuffer::from_vec(vec![0xff, 0xff, 0xff, 0xff, 0x0f]);
    assert_eq!(negative.get_string(), Err(DeserializerError::InsufficientBytes));
    let mut default_bound = Vec::new();
    put_var_int(&mut default_bound, VarInt(32768));
    let mut over = ReadByteBuffer::from_vec(default_bound);
    assert_eq!(over.get_string(), Err(DeserializerError::StringTooLong));
}

#[test]
fn reads_uuid_and_bitset() {
    let bytes: Vec<u8> = (0u8..20).collect();
    let mut buf = ReadByteBuffer::from_vec(bytes);
    let uuid = buf.get_uuid().unwrap();
    assert_eq!(uuid.0, [0, 1, 2, 3, 4, 5, 6, 7, 8, 9, 10, 11, 12, 13, 14, 15]);
    let bits = buf.get_fixed_bitset(9).unwrap();
    assert_eq!(&bits[..], &[16, 17]);
    assert_eq!(buf.remaining(), 2);
    let none = buf.get_fixed_bitset(0).unwrap();
    assert_eq!(none.len(), 0);
    let one = buf.get_fixed_bitset(8).unwrap();
    assert_eq!(&one[..], &[18]);
    assert!(buf.get_fixed_bitset(9).is_err());
}

#[test]
fn reads_option() {
    let mut buf = ReadByteBuffer::from_vec(vec![1, 0x05, 0, 1]);
    assert_eq!(buf.get_option(|b| b.get_u8()), Ok(Some(5)));
    assert_eq!(buf.get_option(|b| b.get_u8()), Ok(None));
    assert_eq!(buf.get_option(|b| b.get_u8()), Err(DeserializerError::InsufficientBytes));
    assert_eq!(buf.get_option(|b| b.get_u8()), Err(DeserializerError::InsufficientBytes));
}

#[test]
fn reads_list() {
    let mut buf = ReadByteBuffer::from_vec(vec![3, 0, 1, 0, 2, 0, 3, 9]);
    assert_eq!(buf.get_list(|b| b.get_u16()), Ok(vec![1, 2, 3]));
    assert_eq!(buf.as_slice(), &[9]);
    let mut empty = ReadByteBuffer::from_vec(vec![0, 9]);
    assert_eq!(empty.get_list(|b| b.get_u16()), Ok(vec![]));
    let mut short = ReadByteBuffer::from_vec(vec![2, 0, 1, 0]);
    assert_eq!(short.get_list(|b| b.get_u16()), Err(DeserializerError::InsufficientBytes));
    let mut negative = ReadByteBuffer::from_vec(vec![0xff, 0xff, 0xff, 0xff, 0x0f, 1]);
    assert_eq!(negative.get_list(|b| b.get_u8()), Err(DeserializerError::NegativeLength));
}

#[test]
fn copies_bytes_and_clones() {
    let mut buf = ReadByteBuffer::from_vec(vec![1, 2, 3, 4, 5]);
    let copy = buf.clone();
    let front = buf.copy_to_bytes(2).unwrap();
    assert_eq!(&front[..], &[1, 2]);
    let mut two = [0u8; 2];
    assert_eq!(buf.copy_to_slice(&mut two), Ok(()));
    assert_eq!(two, [3, 4]);
    assert_eq!(buf.as_slice(), &[5]);
    assert_eq!(copy.as_slice(), &[1, 2, 3, 4, 5]);
    assert_eq!(buf.buf().len(), 1);
    let wrapped = ReadByteBuffer::new(front);
    assert_eq!(wrapped.remaining(), 2);
}

#[test]
fn writes_fixed_width_values() {
    let mut buf = Vec::new();
    put_u8(&mut buf, 0xab);
    put_bool(&mut buf, true);
    put_bool(&mut buf, false);
    put_u16(&mut buf, 25565);
    put_u32(&mut buf, 0x01020304);
    put_i32(&mut buf, -2);
    put_u64(&mut buf, 0x0123456789abcdef);
    put_i64(&mut buf, -1);
    put_slice(&mut buf, &[7, 8]);
    put_prefixed(&mut buf, &[9, 10, 11]);
    put_uuid(&mut buf, &Uuid([0x11; 16]));
    let mut expected = vec![
        0xab, 1, 0, 0x63, 0xdd, 1, 2, 3, 4, 0xff, 0xff, 0xff, 0xfe, 0x01, 0x23, 0x45, 0x67, 0x89,
        0xab, 0xcd, 0xef, 0xff, 0xff, 0xff, 0xff, 0xff, 0xff, 0xff, 0xff, 7, 8, 3, 9, 10, 11,
    ];
    expected.extend_from_slice(&[0x11; 16]);
    assert_eq!(buf, expected);
    let mut read = ReadByteBuffer::from_vec(buf);
    assert_eq!(read.get_u8(), Ok(0xab));
    assert_eq!(read.get_bool(), Ok(true));
    assert_eq!(read.get_bool(), Ok(false));
    assert_eq!(read.get_u16(), Ok(25565));
    assert_eq!(read.get_u32(), Ok(0x01020304));
    assert_eq!(read.get_i32(), Ok(-2));
    assert_eq!(read.get_u64(), Ok(0x0123456789abcdef));
    assert_eq!(read.get_i64(), Ok(-1));
}

#[test]
fn error_messages() {
    assert_eq!(DeserializerError::VarIntTooBig.message(), "VarInt is too big");
    assert_eq!(DeserializerError::VarLongTooBig.message(), "VarLong is too big");
    assert_eq!(DeserializerError::InsufficientBytes.message(), "No bytes left to consume");
    assert_eq!(
        DeserializerError::StringTooLong.message(),
        "String length is bigger than max size"
    );
}
