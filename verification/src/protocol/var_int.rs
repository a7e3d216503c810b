use vstd::prelude::*;

verus! {

/// The low seven bits of a byte carry payload.
pub const SEGMENT_BITS: u8 = 0x7F;

/// The high bit of a byte says that another byte follows.
pub const CONTINUE_BIT: u8 = 0x80;

/// The most bytes a VarInt takes.
pub const VAR_INT_MAX_BYTES: usize = 5;

/// The most bytes a VarLong takes.
pub const VAR_LONG_MAX_BYTES: usize = 10;

/// A 32-bit signed integer that travels as one to five bytes.
#[derive(Debug, Clone, Copy, PartialEq, Eq, Structural)]
pub struct VarInt(pub i32);

/// A 64-bit signed integer that travels as one to ten bytes.
pub type VarLongType = i64;

/// The base-128 little-endian digits of `v`, each but the last marked with the
/// continuation bit.
pub open spec fn encode_var_uint(v: nat) -> Seq<u8>
    decreases v,
{
    if v < 128 {
        seq![v as u8]
    } else {
        seq![(v % 128 + 128) as u8] + encode_var_uint(v / 128)
    }
}

/// The two's-complement bit pattern of `v`, as a number below 2^32.
pub open spec fn unsigned_32(v: i32) -> nat {
    if v >= 0 {
        v as nat
    } else {
        (v + 0x1_0000_0000) as nat
    }
}

/// The signed 32-bit integer whose bit pattern is the low 32 bits of `v`.
pub open spec fn signed_32(v: nat) -> i32 {
    let low = v % 0x1_0000_0000;
    if low < 0x8000_0000 {
        low as i32
    } else {
        (low - 0x1_0000_0000) as i32
    }
}

/// The two's-complement bit pattern of `v`, as a number below 2^64.
pub open spec fn unsigned_64(v: i64) -> nat {
    if v >= 0 {
        v as nat
    } else {
        (v + 0x1_0000_0000_0000_0000) as nat
    }
}

/// The signed 64-bit integer whose bit pattern is the low 64 bits of `v`.
pub open spec fn signed_64(v: nat) -> i64 {
    let low = v % 0x1_0000_0000_0000_0000;
    if low < 0x8000_0000_0000_0000 {
        low as i64
    } else {
        (low - 0x1_0000_0000_0000_0000) as i64
    }
}

/// The bytes of a VarInt.
pub open spec fn encode_var_int(v: i32) -> Seq<u8> {
    encode_var_uint(unsigned_32(v))
}

/// The bytes of a VarLong.
pub open spec fn encode_var_long(v: i64) -> Seq<u8> {
    encode_var_uint(unsigned_64(v))
}

/// What the front of a byte sequence holds, read as a variable-length integer
/// of at most `max` bytes.
pub enum VarScan {
    /// A last byte was found: the digits read make `value`, in `len` bytes.
    Done { value: nat, len: nat },
    /// The bytes ended while the continuation bit was still set.
    Incomplete,
    /// `max` bytes went by and all had the continuation bit set.
    TooBig,
}

/// Reads base-128 digits from the front of `s` up to the first byte without
/// the continuation bit, and no further than `max` bytes.
pub open spec fn scan_var_uint(s: Seq<u8>, max: nat) -> VarScan
    decreases max,
{
    if max == 0 {
        VarScan::TooBig
    } else if s.len() == 0 {
        VarScan::Incomplete
    } else if s[0] < 128 {
        VarScan::Done { value: s[0] as nat, len: 1 }
    } else {
        match scan_var_uint(s.skip(1), (max - 1) as nat) {
            VarScan::Done { value, len } => VarScan::Done {
                value: ((s[0] - 128) + 128 * value) as nat,
                len: len + 1,
            },
            other => other,
        }
    }
}

/// The number of bytes that `encode_var_uint` gives `v`: one for every seven
/// bits up to the highest set bit, and one for zero.
pub open spec fn var_uint_len(v: nat) -> nat
    decreases v,
{
    if v < 128 {
        1
    } else {
        1 + var_uint_len(v / 128)
    }
}

pub proof fn lemma_encode_var_uint_len(v: nat)
    ensures
        encode_var_uint(v).len() == var_uint_len(v),
        forall|i: int| 0 <= i < var_uint_len(v) - 1 ==> #[trigger] encode_var_uint(v)[i] >= 128,
        encode_var_uint(v)[var_uint_len(v) - 1] < 128,
        v >= 128 ==> encode_var_uint(v)[var_uint_len(v) - 1] > 0,
    decreases v,
{
    if v >= 128 {
        lemma_encode_var_uint_len(v / 128);
        let head = seq![(v % 128 + 128) as u8];
        let tail = encode_var_uint(v / 128);
        assert(encode_var_uint(v) == head + tail);
        assert forall|i: int| 0 <= i < var_uint_len(v) - 1 implies #[trigger] encode_var_uint(
            v,
        )[i] >= 128 by {
            if i > 0 {
                assert((head + tail)[i] == tail[i - 1]);
            }
        }
        assert((head + tail)[var_uint_len(v) - 1] == tail[var_uint_len(v / 128) - 1]);
    }
}

/// The length of an encoding grows with the number: one byte below 2^7, two
/// below 2^14, and so on in steps of seven bits.
pub proof fn lemma_var_uint_len_bounds(v: nat)
    ensures
        v < 0x80 <==> var_uint_len(v) == 1,
        0x80 <= v < 0x4000 <==> var_uint_len(v) == 2,
        0x4000 <= v < 0x20_0000 <==> var_uint_len(v) == 3,
        0x20_0000 <= v < 0x1000_0000 <==> var_uint_len(v) == 4,
        0x1000_0000 <= v < 0x8_0000_0000 <==> var_uint_len(v) == 5,
        v < 0x1_0000_0000 ==> var_uint_len(v) <= 5,
        v < 0x1_0000_0000_0000_0000 ==> var_uint_len(v) <= 10,
        var_uint_len(v) >= 1,
{
    reveal_with_fuel(var_uint_len, 11);
}

/// Reading back what `encode_var_uint` wrote gives the number and the length
/// of its encoding, whatever follows it, as long as `max` bytes suffice.
pub proof fn lemma_scan_encode_var_uint(v: nat, rest: Seq<u8>, max: nat)
    requires
        var_uint_len(v) <= max,
    ensures
        scan_var_uint(encode_var_uint(v) + rest, max) == (VarScan::Done {
            value: v,
            len: var_uint_len(v),
        }),
    decreases v,
{
    let s = encode_var_uint(v) + rest;
    if v < 128 {
        assert(s[0] == v as u8);
    } else {
        let tail = encode_var_uint(v / 128);
        assert(s[0] == (v % 128 + 128) as u8);
        assert(s.skip(1) =~= tail + rest);
        lemma_scan_encode_var_uint(v / 128, rest, (max - 1) as nat);
    }
}

/// What a scan finds is a prefix of what it was given, and is bounded by the
/// number of bytes read.
pub proof fn lemma_scan_var_uint_bounds(s: Seq<u8>, max: nat)
    ensures
        match scan_var_uint(s, max) {
            VarScan::Done { value, len } => 1 <= len <= max && len <= s.len() && s[len - 1] < 128
                && (forall|i: int| 0 <= i < len - 1 ==> #[trigger] s[i] >= 128),
            VarScan::Incomplete => s.len() < max && forall|i: int|
                0 <= i < s.len() ==> #[trigger] s[i] >= 128,
            VarScan::TooBig => s.len() >= max && forall|i: int|
                0 <= i < max ==> #[trigger] s[i] >= 128,
        },
    decreases max,
{
    if max > 0 && s.len() > 0 && s[0] >= 128 {
        let t = s.skip(1);
        lemma_scan_var_uint_bounds(t, (max - 1) as nat);
        match scan_var_uint(t, (max - 1) as nat) {
            VarScan::Done { value, len } => {
                assert forall|i: int| 0 <= i < len + 1 - 1 implies #[trigger] s[i] >= 128 by {
                    if i > 0 {
                        assert(s[i] == t[i - 1]);
                    }
                }
                assert(s[len + 1 - 1] == t[len - 1]);
            },
            VarScan::Incomplete => {
                assert forall|i: int| 0 <= i < s.len() implies #[trigger] s[i] >= 128 by {
                    if i > 0 {
                        assert(s[i] == t[i - 1]);
                    }
                }
            },
            VarScan::TooBig => {
                assert forall|i: int| 0 <= i < max implies #[trigger] s[i] >= 128 by {
                    if i > 0 {
                        assert(s[i] == t[i - 1]);
                    }
                }
            },
        }
    }
}

/// 128 to the power of `n`.
pub open spec fn pow128(n: nat) -> nat
    decreases n,
{
    if n == 0 {
        1
    } else {
        128 * pow128((n - 1) as nat)
    }
}

pub proof fn lemma_pow128_bounds(n: nat)
    requires
        n <= 10,
    ensures
        1 <= pow128(n) <= 0x40_0000_0000_0000_0000,
        n < 10 ==> pow128(n) <= 0x8000_0000_0000_0000,
        n <= 5 ==> pow128(n) <= 0x8_0000_0000,
{
    reveal_with_fuel(pow128, 11);
}

/// A scan of what follows `count` digits that made `value`, seen from before
/// those digits.
pub open spec fn scale_scan(inner: VarScan, value: nat, scale: nat, count: nat) -> VarScan {
    match inner {
        VarScan::Done { value: v, len } => VarScan::Done {
            value: value + scale * v,
            len: len + count,
        },
        other => other,
    }
}

/// What `peek_var_int` finds at the front of a slice.
#[derive(Debug, Clone, Copy, PartialEq, Eq, Structural)]
pub enum VarPeek {
    /// A VarInt of `len` bytes.
    Value { value: i32, len: usize },
    /// The slice ends inside the VarInt.
    Incomplete,
    /// Five bytes went by without an end.
    TooBig,
}

/// A scan of at most five bytes, with its digits folded to 32 bits.
pub open spec fn peek_of(scan: VarScan) -> VarPeek {
    match scan {
        VarScan::Done { value, len } => VarPeek::Value { value: signed_32(value), len: len as usize },
        VarScan::Incomplete => VarPeek::Incomplete,
        VarScan::TooBig => VarPeek::TooBig,
    }
}

/// Reads the VarInt at the front of `input` and leaves `input` as it is.
pub fn peek_var_int(input: &[u8]) -> (peek: VarPeek)
    ensures
        peek == peek_of(scan_var_uint(input@, 5)),
{
    let mut value: u64 = 0;
    let mut scale: u64 = 1;
    let mut count: usize = 0;
    assert(input@.skip(0) =~= input@);
    while count < input.len()
        invariant
            count < 5,
            count <= input@.len(),
            scale == pow128(count as nat),
            value < scale,
            scan_var_uint(input@, 5) == scale_scan(
                scan_var_uint(input@.skip(count as int), (5 - count) as nat),
                value as nat,
                scale as nat,
                count as nat,
            ),
        decreases input@.len() - count,
    {
        proof {
            lemma_pow128_bounds(count as nat);
        }
        let read = input[count];
        let ghost left = input@.skip(count as int);
        assert(left[0] == read);
        assert(left.skip(1) =~= input@.skip(count + 1));
        let digit: u64 = (read % 128) as u64;
        assert(digit * scale <= 127 * scale) by (nonlinear_arith)
            requires
                digit <= 127,
                scale >= 0,
        ;
        assert(digit * scale == scale * digit) by (nonlinear_arith);
        assert(value + digit * scale < scale * 128) by (nonlinear_arith)
            requires
                value < scale,
                digit <= 127,
        ;
        let total: u64 = value + digit * scale;
        if read < 128 {
            let low: u64 = total % 0x1_0000_0000;
            let folded: i32 = if low < 0x8000_0000 {
                low as i32
            } else {
                (low as i64 - 0x1_0000_0000) as i32
            };
            return VarPeek::Value { value: folded, len: count + 1 };
        }
        proof {
            let inner = scan_var_uint(input@.skip(count + 1), (5 - count - 1) as nat);
            if let VarScan::Done { value: v, len } = inner {
                assert(value + scale * ((read - 128) + 128 * v) == (value + digit * scale) + (scale
                    * 128) * v) by (nonlinear_arith)
                    requires
                        digit == read - 128,
                ;
            }
        }
        value = total;
        scale = scale * 128;
        count = count + 1;
        if count == 5 {
            return VarPeek::TooBig;
        }
    }
    assert(input@.skip(count as int) =~= Seq::<u8>::empty());
    VarPeek::Incomplete
}

} // verus!
