use vstd::prelude::*;
use vstd::utf8::encode_utf8;
use vstd::string::StringSliceAdditionalSpecFns;
use crate::components::player::Uuid;
use crate::components::{read_var_int, read_var_long};
use crate::error::DeserializerError;
use crate::protocol::var_int::{
    encode_var_int, encode_var_long, encode_var_uint, lemma_encode_var_uint_len,
    lemma_scan_encode_var_uint, lemma_scan_var_uint_bounds, lemma_var_uint_len_bounds,
    pow128, scan_var_uint, signed_32, unsigned_32, unsigned_64, var_uint_len, VarInt, VarScan,
};

verus! {

/// The two bytes of `v`, most significant first.
pub open spec fn encode_u16(v: u16) -> Seq<u8> {
    seq![(v / 0x100) as u8, (v % 0x100) as u8]
}

/// The four bytes of `v`, most significant first.
pub open spec fn encode_u32(v: u32) -> Seq<u8> {
    seq![
        (v / 0x100_0000) as u8,
        (v / 0x1_0000 % 0x100) as u8,
        (v / 0x100 % 0x100) as u8,
        (v % 0x100) as u8,
    ]
}

/// The eight bytes of `v`, most significant first.
pub open spec fn encode_u64(v: u64) -> Seq<u8> {
    seq![
        (v / 0x100_0000_0000_0000) as u8,
        (v / 0x1_0000_0000_0000 % 0x100) as u8,
        (v / 0x100_0000_0000 % 0x100) as u8,
        (v / 0x1_0000_0000 % 0x100) as u8,
        (v / 0x100_0000 % 0x100) as u8,
        (v / 0x1_0000 % 0x100) as u8,
        (v / 0x100 % 0x100) as u8,
        (v % 0x100) as u8,
    ]
}

/// The eight bytes of the two's-complement pattern of `v`.
pub open spec fn encode_i64(v: i64) -> Seq<u8> {
    encode_u64(unsigned_64(v) as u64)
}

/// The four bytes of the two's-complement pattern of `v`.
pub open spec fn encode_i32(v: i32) -> Seq<u8> {
    encode_u32(unsigned_32(v) as u32)
}

/// One byte: 1 for true, 0 for false.
pub open spec fn encode_bool(v: bool) -> Seq<u8> {
    seq![if v { 1u8 } else { 0u8 }]
}

/// A run of bytes behind the VarInt that counts them.
pub open spec fn encode_prefixed(bytes: Seq<u8>) -> Seq<u8> {
    encode_var_uint(bytes.len()) + bytes
}

/// A string: its UTF-8 bytes behind the VarInt that counts them.
pub open spec fn encode_string(text: Seq<char>) -> Seq<u8> {
    encode_prefixed(encode_utf8(text))
}

/// Appends a byte.
pub fn put_u8(buf: &mut Vec<u8>, value: u8)
    ensures
        final(buf)@ == old(buf)@ + seq![value],
{
    buf.push(value);
    assert(buf@ =~= old(buf)@ + seq![value]);
}

/// Appends a boolean as one byte.
pub fn put_bool(buf: &mut Vec<u8>, value: bool)
    ensures
        final(buf)@ == old(buf)@ + encode_bool(value),
{
    put_u8(
        buf,
        if value {
            1
        } else {
            0
        },
    );
}

/// Appends a 16-bit number, most significant byte first.
pub fn put_u16(buf: &mut Vec<u8>, value: u16)
    ensures
        final(buf)@ == old(buf)@ + encode_u16(value),
{
    buf.push((value / 0x100) as u8);
    buf.push((value % 0x100) as u8);
    assert(buf@ =~= old(buf)@ + encode_u16(value));
}

/// Appends a 32-bit number, most significant byte first.
pub fn put_u32(buf: &mut Vec<u8>, value: u32)
    ensures
        final(buf)@ == old(buf)@ + encode_u32(value),
{
    buf.push((value / 0x100_0000) as u8);
    buf.push((value / 0x1_0000 % 0x100) as u8);
    buf.push((value / 0x100 % 0x100) as u8);
    buf.push((value % 0x100) as u8);
    assert(buf@ =~= old(buf)@ + encode_u32(value));
}

/// Appends a 64-bit number, most significant byte first.
pub fn put_u64(buf: &mut Vec<u8>, value: u64)
    ensures
        final(buf)@ == old(buf)@ + encode_u64(value),
{
    buf.push((value / 0x100_0000_0000_0000) as u8);
    buf.push((value / 0x1_0000_0000_0000 % 0x100) as u8);
    buf.push((value / 0x100_0000_0000 % 0x100) as u8);
    buf.push((value / 0x1_0000_0000 % 0x100) as u8);
    buf.push((value / 0x100_0000 % 0x100) as u8);
    buf.push((value / 0x1_0000 % 0x100) as u8);
    buf.push((value / 0x100 % 0x100) as u8);
    buf.push((value % 0x100) as u8);
    assert(buf@ =~= old(buf)@ + encode_u64(value));
}

/// Appends a signed 32-bit number in two's complement, most significant byte
/// first.
pub fn put_i32(buf: &mut Vec<u8>, value: i32)
    ensures
        final(buf)@ == old(buf)@ + encode_i32(value),
{
    put_u32(buf, to_unsigned_32(value));
}

/// Appends a signed 64-bit number in two's complement, most significant byte
/// first.
pub fn put_i64(buf: &mut Vec<u8>, value: i64)
    ensures
        final(buf)@ == old(buf)@ + encode_i64(value),
{
    put_u64(buf, to_unsigned_64(value));
}

/// The bit pattern of `value` as an unsigned number.
pub fn to_unsigned_32(value: i32) -> (pattern: u32)
    ensures
        pattern == unsigned_32(value),
{
    if value >= 0 {
        value as u32
    } else {
        (value as i64 + 0x1_0000_0000) as u32
    }
}

/// The bit pattern of `value` as an unsigned number.
pub fn to_unsigned_64(value: i64) -> (pattern: u64)
    ensures
        pattern == unsigned_64(value),
{
    if value >= 0 {
        value as u64
    } else {
        (value as i128 + 0x1_0000_0000_0000_0000) as u64
    }
}

/// Appends the base-128 digits of `value`.
fn put_var_uint(buf: &mut Vec<u8>, value: u64)
    ensures
        final(buf)@ == old(buf)@ + encode_var_uint(value as nat),
{
    let mut left: u64 = value;
    while left >= 128
        invariant
            buf@ + encode_var_uint(left as nat) == old(buf)@ + encode_var_uint(value as nat),
        decreases left,
    {
        let ghost before = buf@;
        buf.push((left % 128 + 128) as u8);
        assert(buf@ + encode_var_uint((left / 128) as nat) =~= before + encode_var_uint(
            left as nat,
        ));
        left = left / 128;
    }
    let ghost before = buf@;
    buf.push(left as u8);
    assert(buf@ =~= before + encode_var_uint(left as nat));
}

/// Appends a VarInt, in as few bytes as its bit pattern needs.
pub fn put_var_int(buf: &mut Vec<u8>, value: VarInt)
    ensures
        final(buf)@ == old(buf)@ + encode_var_int(value.0),
{
    put_var_uint(buf, to_unsigned_32(value.0) as u64);
}

/// Appends a VarLong, in as few bytes as its bit pattern needs.
pub fn put_var_long(buf: &mut Vec<u8>, value: i64)
    ensures
        final(buf)@ == old(buf)@ + encode_var_long(value),
{
    put_var_uint(buf, to_unsigned_64(value));
}

/// Appends a count as a VarInt.
pub fn put_length(buf: &mut Vec<u8>, count: usize)
    ensures
        final(buf)@ == old(buf)@ + encode_var_uint(count as nat),
{
    put_var_uint(buf, count as u64);
}

/// Appends bytes as they are.
pub fn put_slice(buf: &mut Vec<u8>, bytes: &[u8])
    ensures
        final(buf)@ == old(buf)@ + bytes@,
{
    buf.extend_from_slice(bytes);
}

/// Appends the 16 bytes of a UUID.
pub fn put_uuid(buf: &mut Vec<u8>, uuid: &Uuid)
    ensures
        final(buf)@ == old(buf)@ + uuid@,
{
    buf.extend_from_slice(uuid.0.as_slice());
}

/// Appends bytes behind the VarInt that counts them.
pub fn put_prefixed(buf: &mut Vec<u8>, bytes: &[u8])
    ensures
        final(buf)@ == old(buf)@ + encode_prefixed(bytes@),
{
    put_length(buf, bytes.len());
    buf.extend_from_slice(bytes);
    assert(buf@ =~= old(buf)@ + encode_prefixed(bytes@));
}

/// Appends a string: its UTF-8 bytes behind the VarInt that counts them.
pub fn put_string(buf: &mut Vec<u8>, text: &str)
    ensures
        final(buf)@ == old(buf)@ + encode_string(text@),
{
    put_prefixed(buf, text.as_bytes());
}

/// The number of bytes a VarInt takes.
pub open spec fn var_int_len(v: i32) -> nat {
    var_uint_len(unsigned_32(v))
}

/// A VarInt that is written and read back is the same number, whatever bytes
/// follow it; it takes between one and five bytes, one for every seven bits up
/// to the highest bit set in its two's-complement pattern; and no run of bytes
/// that reads as the same number is shorter.
pub proof fn law_var_int_round_trip(v: i32, rest: Seq<u8>)
    ensures
        read_var_int(encode_var_int(v) + rest) == (Ok::<VarInt, DeserializerError>(VarInt(v)), rest),
        encode_var_int(v).len() == var_int_len(v),
        1 <= var_int_len(v) <= 5,
        var_int_len(v) == 1 <==> 0 <= v < 0x80,
        var_int_len(v) == 2 <==> 0x80 <= v < 0x4000,
        var_int_len(v) == 3 <==> 0x4000 <= v < 0x20_0000,
        var_int_len(v) == 4 <==> 0x20_0000 <= v < 0x1000_0000,
        var_int_len(v) == 5 <==> v < 0 || 0x1000_0000 <= v,
        forall|s: Seq<u8>| #[trigger]
            read_var_int(s).0 == Ok::<VarInt, DeserializerError>(VarInt(v)) ==> s.len()
                - read_var_int(s).1.len() >= var_int_len(v),
{
    let u = unsigned_32(v);
    lemma_var_uint_len_bounds(u);
    lemma_encode_var_uint_len(u);
    lemma_scan_encode_var_uint(u, rest, 5);
    assert((encode_var_int(v) + rest).skip(var_uint_len(u) as int) =~= rest);
    assert forall|s: Seq<u8>| #[trigger]
        read_var_int(s).0 == Ok::<VarInt, DeserializerError>(VarInt(v)) implies s.len()
        - read_var_int(s).1.len() >= var_int_len(v) by {
        lemma_scan_value_below(s, 5);
        lemma_scan_var_uint_bounds(s, 5);
        if let VarScan::Done { value, len } =
            scan_var_uint(s, 5) {
            assert(signed_32(value) == v);
            assert(value % 0x1_0000_0000 == u);
            lemma_var_uint_len_below(u, len);
        }
    }
}

/// A VarLong that is written and read back is the same number, whatever bytes
/// follow it, and it takes between one and ten bytes.
pub proof fn law_var_long_round_trip(v: i64, rest: Seq<u8>)
    ensures
        read_var_long(encode_var_long(v) + rest) == (
            Ok::<i64, DeserializerError>(v),
            rest,
        ),
        1 <= encode_var_long(v).len() <= 10,
{
    let u = unsigned_64(v);
    lemma_var_uint_len_bounds(u);
    lemma_encode_var_uint_len(u);
    lemma_scan_encode_var_uint(u, rest, 10);
    assert((encode_var_long(v) + rest).skip(var_uint_len(u) as int) =~= rest);
}

/// The digits that a scan reads in `len` bytes make a number below 128 to the
/// power of `len`.
proof fn lemma_scan_value_below(s: Seq<u8>, max: nat)
    ensures
        scan_var_uint(s, max) matches VarScan::Done {
            value,
            len,
        } ==> value < pow128(len),
    decreases max,
{
    reveal_with_fuel(pow128, 2);
    if max > 0 && s.len() > 0 && s[0] >= 128 {
        lemma_scan_value_below(s.skip(1), (max - 1) as nat);
    }
}

/// A number below 128 to the power of `n` has at most `n` digits.
proof fn lemma_var_uint_len_below(v: nat, n: nat)
    requires
        n >= 1,
        v < pow128(n),
    ensures
        var_uint_len(v) <= n,
    decreases n,
{
    if v >= 128 {
        assert(n >= 2) by {
            if n == 1 {
                assert(pow128(1) == 128) by {
                    reveal_with_fuel(pow128, 2);
                }
            }
        }
        lemma_var_uint_len_below(v / 128, (n - 1) as nat);
    }
}

} // verus!
