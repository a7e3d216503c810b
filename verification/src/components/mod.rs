use vstd::prelude::*;
use vstd::utf8::{decode_utf8, valid_utf8};
use crate::components::player::Uuid;
use crate::error::DeserializerError;
use crate::protocol::var_int::{
    lemma_pow128_bounds, pow128, scale_scan, scan_var_uint, signed_32, signed_64, VarInt,
    VarLongType, VarScan,
};

pub mod address;
pub mod client;
pub mod player;
pub mod resources;

verus! {

/// `bytes::Bytes`, an immutable, cheaply cloned run of bytes with a read cursor.
#[verifier::external_type_specification]
#[verifier::external_body]
pub struct ExBytes(bytes::Bytes);

/// A set of bits of fixed size, as the bytes that hold them.
pub type FixedBitSet = bytes::Bytes;

/// The bytes that lie between the cursor of a `bytes::Bytes` and its end.
pub uninterp spec fn bytes_remaining(buffer: bytes::Bytes) -> Seq<u8>;

/// The number that two bytes make, most significant byte first.
pub open spec fn be_u16(b: Seq<u8>) -> u16 {
    (b[0] * 0x100 + b[1]) as u16
}

/// The number that four bytes make, most significant byte first.
pub open spec fn be_u32(b: Seq<u8>) -> u32 {
    (b[0] * 0x100_0000 + b[1] * 0x1_0000 + b[2] * 0x100 + b[3]) as u32
}

/// The number that eight bytes make, most significant byte first.
pub open spec fn be_u64(b: Seq<u8>) -> u64 {
    (b[0] * 0x100_0000_0000_0000 + b[1] * 0x1_0000_0000_0000 + b[2] * 0x100_0000_0000 + b[3]
        * 0x1_0000_0000 + b[4] * 0x100_0000 + b[5] * 0x1_0000 + b[6] * 0x100 + b[7]) as u64
}

/// The signed byte with the bit pattern of `v`.
pub open spec fn signed_8(v: u8) -> i8 {
    if v < 0x80 {
        v as i8
    } else {
        (v - 0x100) as i8
    }
}

/// The signed 16-bit integer with the bit pattern of `v`.
pub open spec fn signed_16(v: u16) -> i16 {
    if v < 0x8000 {
        v as i16
    } else {
        (v - 0x1_0000) as i16
    }
}

/// `Bytes::from(Vec<u8>)`: takes the vector over, with the cursor at its first
/// byte.
#[verifier::external_body]
pub(crate) fn bytes_from_vec(data: Vec<u8>) -> (buffer: bytes::Bytes)
    ensures
        bytes_remaining(buffer) == data@,
{
    bytes::Bytes::from(data)
}

/// `Bytes::clone`: a second handle on the same bytes, with its own cursor at
/// the same place.
#[verifier::external_body]
pub(crate) fn bytes_clone(buffer: &bytes::Bytes) -> (copy: bytes::Bytes)
    ensures
        bytes_remaining(copy) == bytes_remaining(*buffer),
{
    buffer.clone()
}

/// `Bytes` as a slice, through `AsRef<[u8]>`: the bytes from the cursor on.
#[verifier::external_body]
pub(crate) fn bytes_as_slice(buffer: &bytes::Bytes) -> (slice: &[u8])
    ensures
        slice@ == bytes_remaining(*buffer),
{
    buffer.as_ref()
}

/// `Buf::remaining` of `Bytes`: the number of bytes from the cursor to the end.
#[verifier::external_body]
fn bytes_remaining_len(buffer: &bytes::Bytes) -> (n: usize)
    ensures
        n == bytes_remaining(*buffer).len(),
{
    bytes::Buf::remaining(buffer)
}

/// `Buf::has_remaining` of `Bytes`: whether a byte is left to read.
#[verifier::external_body]
fn bytes_has_remaining(buffer: &bytes::Bytes) -> (any: bool)
    ensures
        any == (bytes_remaining(*buffer).len() > 0),
{
    bytes::Buf::has_remaining(buffer)
}

/// `Buf::get_u8` of `Bytes`: the byte at the cursor, which moves past it. It
/// panics on an empty buffer.
#[verifier::external_body]
fn bytes_get_u8(buffer: &mut bytes::Bytes) -> (value: u8)
    requires
        bytes_remaining(*old(buffer)).len() >= 1,
    ensures
        value == bytes_remaining(*old(buffer))[0],
        bytes_remaining(*final(buffer)) == bytes_remaining(*old(buffer)).skip(1),
{
    bytes::Buf::get_u8(buffer)
}

/// `Buf::get_i8` of `Bytes`: the byte at the cursor as a signed number; the
/// cursor moves past it. It panics on an empty buffer.
#[verifier::external_body]
fn bytes_get_i8(buffer: &mut bytes::Bytes) -> (value: i8)
    requires
        bytes_remaining(*old(buffer)).len() >= 1,
    ensures
        value == signed_8(bytes_remaining(*old(buffer))[0]),
        bytes_remaining(*final(buffer)) == bytes_remaining(*old(buffer)).skip(1),
{
    bytes::Buf::get_i8(buffer)
}

/// `Buf::get_u16` of `Bytes`: two bytes as a big-endian number; the cursor
/// moves past them. It panics where fewer than two bytes are left.
#[verifier::external_body]
fn bytes_get_u16(buffer: &mut bytes::Bytes) -> (value: u16)
    requires
        bytes_remaining(*old(buffer)).len() >= 2,
    ensures
        value == be_u16(bytes_remaining(*old(buffer))),
        bytes_remaining(*final(buffer)) == bytes_remaining(*old(buffer)).skip(2),
{
    bytes::Buf::get_u16(buffer)
}

/// `Buf::get_i16` of `Bytes`: two bytes as a big-endian two's-complement
/// number; the cursor moves past them. It panics where fewer than two bytes
/// are left.
#[verifier::external_body]
fn bytes_get_i16(buffer: &mut bytes::Bytes) -> (value: i16)
    requires
        bytes_remaining(*old(buffer)).len() >= 2,
    ensures
        value == signed_16(be_u16(bytes_remaining(*old(buffer)))),
        bytes_remaining(*final(buffer)) == bytes_remaining(*old(buffer)).skip(2),
{
    bytes::Buf::get_i16(buffer)
}

/// `Buf::get_u32` of `Bytes`: four bytes as a big-endian number; the cursor
/// moves past them. It panics where fewer than four bytes are left.
#[verifier::external_body]
fn bytes_get_u32(buffer: &mut bytes::Bytes) -> (value: u32)
    requires
        bytes_remaining(*old(buffer)).len() >= 4,
    ensures
        value == be_u32(bytes_remaining(*old(buffer))),
        bytes_remaining(*final(buffer)) == bytes_remaining(*old(buffer)).skip(4),
{
    bytes::Buf::get_u32(buffer)
}

/// `Buf::get_i32` of `Bytes`: four bytes as a big-endian two's-complement
/// number; the cursor moves past them. It panics where fewer than four bytes
/// are left.
#[verifier::external_body]
fn bytes_get_i32(buffer: &mut bytes::Bytes) -> (value: i32)
    requires
        bytes_remaining(*old(buffer)).len() >= 4,
    ensures
        value == signed_32(be_u32(bytes_remaining(*old(buffer))) as nat),
        bytes_remaining(*final(buffer)) == bytes_remaining(*old(buffer)).skip(4),
{
    bytes::Buf::get_i32(buffer)
}

/// `Buf::get_u64` of `Bytes`: eight bytes as a big-endian number; the cursor
/// moves past them. It panics where fewer than eight bytes are left.
#[verifier::external_body]
fn bytes_get_u64(buffer: &mut bytes::Bytes) -> (value: u64)
    requires
        bytes_remaining(*old(buffer)).len() >= 8,
    ensures
        value == be_u64(bytes_remaining(*old(buffer))),
        bytes_remaining(*final(buffer)) == bytes_remaining(*old(buffer)).skip(8),
{
    bytes::Buf::get_u64(buffer)
}

/// `Buf::get_i64` of `Bytes`: eight bytes as a big-endian two's-complement
/// number; the cursor moves past them. It panics where fewer than eight bytes
/// are left.
#[verifier::external_body]
fn bytes_get_i64(buffer: &mut bytes::Bytes) -> (value: i64)
    requires
        bytes_remaining(*old(buffer)).len() >= 8,
    ensures
        value == signed_64(be_u64(bytes_remaining(*old(buffer))) as nat),
        bytes_remaining(*final(buffer)) == bytes_remaining(*old(buffer)).skip(8),
{
    bytes::Buf::get_i64(buffer)
}

/// `Buf::copy_to_bytes` of `Bytes`: splits the next `len` bytes off into a
/// buffer of their own; the cursor moves past them. It panics where fewer
/// than `len` bytes are left.
#[verifier::external_body]
fn bytes_copy_to_bytes(buffer: &mut bytes::Bytes, len: usize) -> (front: bytes::Bytes)
    requires
        bytes_remaining(*old(buffer)).len() >= len,
    ensures
        bytes_remaining(front) == bytes_remaining(*old(buffer)).take(len as int),
        bytes_remaining(*final(buffer)) == bytes_remaining(*old(buffer)).skip(len as int),
{
    bytes::Buf::copy_to_bytes(buffer, len)
}

/// `Buf::copy_to_slice` of `Bytes`: fills `dst` with the next bytes; the
/// cursor moves past them. It panics where fewer bytes are left than `dst`
/// holds.
#[verifier::external_body]
fn bytes_copy_to_slice(buffer: &mut bytes::Bytes, dst: &mut [u8])
    requires
        bytes_remaining(*old(buffer)).len() >= old(dst)@.len(),
    ensures
        final(dst)@ == bytes_remaining(*old(buffer)).take(old(dst)@.len() as int),
        bytes_remaining(*final(buffer)) == bytes_remaining(*old(buffer)).skip(
            old(dst)@.len() as int,
        ),
{
    bytes::Buf::copy_to_slice(buffer, dst)
}

/// `core::str::from_utf8`: the bytes as text where they are UTF-8, and
/// nothing where they are not.
#[verifier::external_body]
pub(crate) fn str_from_utf8(data: &[u8]) -> (text: Option<&str>)
    ensures
        text is Some <==> valid_utf8(data@),
        text matches Some(s) ==> s@ == decode_utf8(data@),
{
    core::str::from_utf8(data).ok()
}

/// What reading a value off the front of a byte sequence gives: the value or
/// the error, and the bytes that are left.
pub type Read<T> = (Result<T, DeserializerError>, Seq<u8>);

/// Reads `n` bytes, or nothing at all where fewer are there.
pub open spec fn read_bytes(s: Seq<u8>, n: nat) -> Read<Seq<u8>> {
    if s.len() >= n {
        (Ok(s.take(n as int)), s.skip(n as int))
    } else {
        (Err(DeserializerError::InsufficientBytes), s)
    }
}

pub open spec fn read_u8(s: Seq<u8>) -> Read<u8> {
    match read_bytes(s, 1) {
        (Ok(b), rest) => (Ok(b[0]), rest),
        (Err(e), rest) => (Err(e), rest),
    }
}

pub open spec fn read_i8(s: Seq<u8>) -> Read<i8> {
    match read_bytes(s, 1) {
        (Ok(b), rest) => (Ok(signed_8(b[0])), rest),
        (Err(e), rest) => (Err(e), rest),
    }
}

pub open spec fn read_u16(s: Seq<u8>) -> Read<u16> {
    match read_bytes(s, 2) {
        (Ok(b), rest) => (Ok(be_u16(b)), rest),
        (Err(e), rest) => (Err(e), rest),
    }
}

pub open spec fn read_i16(s: Seq<u8>) -> Read<i16> {
    match read_bytes(s, 2) {
        (Ok(b), rest) => (Ok(signed_16(be_u16(b))), rest),
        (Err(e), rest) => (Err(e), rest),
    }
}

pub open spec fn read_u32(s: Seq<u8>) -> Read<u32> {
    match read_bytes(s, 4) {
        (Ok(b), rest) => (Ok(be_u32(b)), rest),
        (Err(e), rest) => (Err(e), rest),
    }
}

pub open spec fn read_i32(s: Seq<u8>) -> Read<i32> {
    match read_bytes(s, 4) {
        (Ok(b), rest) => (Ok(signed_32(be_u32(b) as nat)), rest),
        (Err(e), rest) => (Err(e), rest),
    }
}

pub open spec fn read_u64(s: Seq<u8>) -> Read<u64> {
    match read_bytes(s, 8) {
        (Ok(b), rest) => (Ok(be_u64(b)), rest),
        (Err(e), rest) => (Err(e), rest),
    }
}

pub open spec fn read_i64(s: Seq<u8>) -> Read<i64> {
    match read_bytes(s, 8) {
        (Ok(b), rest) => (Ok(signed_64(be_u64(b) as nat)), rest),
        (Err(e), rest) => (Err(e), rest),
    }
}

/// A boolean is one byte; any byte but zero is true.
pub open spec fn read_bool(s: Seq<u8>) -> Read<bool> {
    match read_u8(s) {
        (Ok(b), rest) => (Ok(b != 0), rest),
        (Err(e), rest) => (Err(e), rest),
    }
}

/// A VarInt: up to five bytes of seven bits each, least significant first. Of
/// the 35 bits that five bytes hold, the low 32 count. What was read is gone
/// from the buffer, also where the read fails.
pub open spec fn read_var_int(s: Seq<u8>) -> Read<VarInt> {
    match scan_var_uint(s, 5) {
        VarScan::Done { value, len } => (Ok(VarInt(signed_32(value))), s.skip(len as int)),
        VarScan::Incomplete => (Err(DeserializerError::InsufficientBytes), Seq::empty()),
        VarScan::TooBig => (Err(DeserializerError::VarIntTooBig), s.skip(5)),
    }
}

/// A VarLong: up to ten bytes of seven bits each, least significant first. Of
/// the 70 bits that ten bytes hold, the low 64 count.
pub open spec fn read_var_long(s: Seq<u8>) -> Read<VarLongType> {
    match scan_var_uint(s, 10) {
        VarScan::Done { value, len } => (Ok(signed_64(value)), s.skip(len as int)),
        VarScan::Incomplete => (Err(DeserializerError::InsufficientBytes), Seq::empty()),
        VarScan::TooBig => (Err(DeserializerError::VarLongTooBig), s.skip(10)),
    }
}

/// A string: a VarInt that counts bytes, then that many bytes of UTF-8. A
/// count above `max_size` is refused before the bytes are looked at.
pub open spec fn read_string(s: Seq<u8>, max_size: i32) -> Read<Seq<char>> {
    match read_var_int(s) {
        (Err(e), rest) => (Err(e), rest),
        (Ok(size), rest) => {
            if size.0 > max_size {
                (Err(DeserializerError::StringTooLong), rest)
            } else if size.0 < 0 || rest.len() < size.0 {
                (Err(DeserializerError::InsufficientBytes), rest)
            } else if !valid_utf8(rest.take(size.0 as int)) {
                (Err(DeserializerError::InvalidUtf8), rest.skip(size.0 as int))
            } else {
                (Ok(decode_utf8(rest.take(size.0 as int))), rest.skip(size.0 as int))
            }
        },
    }
}

/// The longest string that `get_string` accepts, in bytes.
pub const DEFAULT_MAX_STRING_SIZE: i32 = 32767;

/// The number of bytes that hold `bits` bits.
pub open spec fn bitset_bytes(bits: nat) -> nat {
    (bits + 7) / 8
}

/// A result with its text taken by its view.
pub open spec fn text_view(r: Result<String, DeserializerError>) -> Result<
    Seq<char>,
    DeserializerError,
> {
    match r {
        Ok(s) => Ok(s@),
        Err(e) => Err(e),
    }
}

/// A result with its bytes taken by their view.
pub open spec fn bytes_view(r: Result<bytes::Bytes, DeserializerError>) -> Result<
    Seq<u8>,
    DeserializerError,
> {
    match r {
        Ok(b) => Ok(bytes_remaining(b)),
        Err(e) => Err(e),
    }
}

/// A result with its UUID taken by its view.
pub open spec fn uuid_view(r: Result<Uuid, DeserializerError>) -> Result<
    Seq<u8>,
    DeserializerError,
> {
    match r {
        Ok(u) => Ok(u@),
        Err(e) => Err(e),
    }
}

/// A cursor over received bytes. Every read either hands out a value and
/// moves past it, or fails; none panics.
#[derive(Debug)]
pub struct ReadByteBuffer {
    buffer: bytes::Bytes,
}

impl View for ReadByteBuffer {
    type V = Seq<u8>;

    /// The bytes not yet read.
    closed spec fn view(&self) -> Seq<u8> {
        bytes_remaining(self.buffer)
    }
}

impl Clone for ReadByteBuffer {
    fn clone(&self) -> (copy: Self)
        ensures
            copy@ == self@,
    {
        Self { buffer: bytes_clone(&self.buffer) }
    }
}

impl ReadByteBuffer {
    pub fn new(buffer: bytes::Bytes) -> (b: Self)
        ensures
            b@ == bytes_remaining(buffer),
    {
        Self { buffer }
    }

    /// A buffer over the bytes of `data`.
    pub fn from_vec(data: Vec<u8>) -> (b: Self)
        ensures
            b@ == data@,
    {
        Self { buffer: bytes_from_vec(data) }
    }

    /// The number of bytes not yet read.
    pub fn remaining(&self) -> (n: usize)
        ensures
            n == self@.len(),
    {
        bytes_remaining_len(&self.buffer)
    }

    /// The bytes not yet read.
    pub fn as_slice(&self) -> (slice: &[u8])
        ensures
            slice@ == self@,
    {
        bytes_as_slice(&self.buffer)
    }

    /// Reads base-128 digits up to a byte without the continuation bit, and
    /// at most `max` bytes.
    fn get_var_uint(&mut self, max: usize) -> (r: Result<u128, DeserializerError>)
        requires
            1 <= max <= 10,
        ensures
            match scan_var_uint(old(self)@, max as nat) {
                VarScan::Done { value, len } => r == Ok::<u128, DeserializerError>(value as u128)
                    && value < 0x40_0000_0000_0000_0000 && final(self)@ == old(self)@.skip(
                    len as int,
                ),
                VarScan::Incomplete => r == Err::<u128, DeserializerError>(
                    DeserializerError::InsufficientBytes,
                ) && final(self)@ == Seq::<u8>::empty(),
                VarScan::TooBig => r == Err::<u128, DeserializerError>(
                    DeserializerError::VarIntTooBig,
                ) && final(self)@ == old(self)@.skip(max as int),
            },
    {
        let mut value: u128 = 0;
        let mut scale: u128 = 1;
        let mut count: usize = 0;
        loop
            invariant
                1 <= max <= 10,
                count < max,
                scale == pow128(count as nat),
                value < scale,
                self@ == old(self)@.skip(count as int),
                count <= old(self)@.len(),
                scan_var_uint(old(self)@, max as nat) == scale_scan(
                    scan_var_uint(self@, (max - count) as nat),
                    value as nat,
                    scale as nat,
                    count as nat,
                ),
            decreases max - count,
        {
            proof {
                lemma_pow128_bounds(count as nat);
            }
            if !bytes_has_remaining(&self.buffer) {
                assert(self@ =~= Seq::<u8>::empty());
                return Err(DeserializerError::InsufficientBytes);
            }
            let ghost before = self@;
            let read = bytes_get_u8(&mut self.buffer);
            assert(self@ == old(self)@.skip(count + 1)) by {
                assert(before.skip(1) =~= old(self)@.skip(count + 1));
            }
            let digit: u128 = (read % 128) as u128;
            assert(digit * scale <= 127 * scale) by (nonlinear_arith)
                requires
                    digit <= 127,
                    scale >= 0,
            ;
            assert(digit * scale == scale * digit) by (nonlinear_arith);
            if read < 128 {
                return Ok(value + digit * scale);
            }
            assert(value + digit * scale < scale * 128) by (nonlinear_arith)
                requires
                    value < scale,
                    digit <= 127,
            ;
            proof {
                let inner = scan_var_uint(self@, (max - count - 1) as nat);
                assert(scale_scan(
                    scan_var_uint(before, (max - count) as nat),
                    value as nat,
                    scale as nat,
                    count as nat,
                ) == scale_scan(
                    inner,
                    (value + digit * scale) as nat,
                    (scale * 128) as nat,
                    (count + 1) as nat,
                )) by {
                    if let VarScan::Done { value: v, len } = inner {
                        assert(value + scale * ((read - 128) + 128 * v) == (value + digit * scale)
                            + (scale * 128) * v) by (nonlinear_arith)
                            requires
                                digit == read - 128,
                        ;
                    }
                }
            }
            value = value + digit * scale;
            scale = scale * 128;
            count = count + 1;
            if count == max {
                return Err(DeserializerError::VarIntTooBig);
            }
        }
    }

    pub fn get_var_int(&mut self) -> (r: Result<VarInt, DeserializerError>)
        ensures
            (r, final(self)@) == read_var_int(old(self)@),
    {
        let value = self.get_var_uint(5)?;
        let low: u128 = value % 0x1_0000_0000;
        if low < 0x8000_0000 {
            Ok(VarInt(low as i32))
        } else {
            Ok(VarInt((low as i64 - 0x1_0000_0000) as i32))
        }
    }

    pub fn get_var_long(&mut self) -> (r: Result<VarLongType, DeserializerError>)
        ensures
            (r, final(self)@) == read_var_long(old(self)@),
    {
        match self.get_var_uint(10) {
            Ok(value) => {
                let low: u128 = value % 0x1_0000_0000_0000_0000;
                if low < 0x8000_0000_0000_0000 {
                    Ok(low as i64)
                } else {
                    Ok((low as i128 - 0x1_0000_0000_0000_0000) as i64)
                }
            },
            Err(DeserializerError::VarIntTooBig) => Err(DeserializerError::VarLongTooBig),
            Err(e) => Err(e),
        }
    }

    pub fn get_string(&mut self) -> (r: Result<String, DeserializerError>)
        ensures
            (text_view(r), final(self)@) == read_string(old(self)@, DEFAULT_MAX_STRING_SIZE),
    {
        self.get_string_len(DEFAULT_MAX_STRING_SIZE)
    }

    pub fn get_string_len(&mut self, max_size: i32) -> (r: Result<String, DeserializerError>)
        ensures
            (text_view(r), final(self)@) == read_string(old(self)@, max_size),
    {
        let size = self.get_var_int()?.0;
        if size > max_size {
            return Err(DeserializerError::StringTooLong);
        }
        if size < 0 {
            return Err(DeserializerError::InsufficientBytes);
        }
        let data = self.copy_to_bytes(size as usize)?;
        match str_from_utf8(bytes_as_slice(&data)) {
            Some(text) => Ok(text.to_owned()),
            None => Err(DeserializerError::InvalidUtf8),
        }
    }

    pub fn get_bool(&mut self) -> (r: Result<bool, DeserializerError>)
        ensures
            (r, final(self)@) == read_bool(old(self)@),
    {
        Ok(self.get_u8()? != 0)
    }

    pub fn get_uuid(&mut self) -> (r: Result<Uuid, DeserializerError>)
        ensures
            (uuid_view(r), final(self)@) == read_bytes(old(self)@, 16),
    {
        let mut bytes = [0u8; 16];
        self.copy_to_slice(&mut bytes)?;
        Ok(Uuid(bytes))
    }

    pub fn get_fixed_bitset(&mut self, bits: usize) -> (r: Result<FixedBitSet, DeserializerError>)
        ensures
            (bytes_view(r), final(self)@) == read_bytes(old(self)@, bitset_bytes(bits as nat)),
    {
        let len = if bits % 8 == 0 {
            bits / 8
        } else {
            bits / 8 + 1
        };
        self.copy_to_bytes(len)
    }

    /// Reads a boolean. If it is true, `val` reads on and its value is wrapped
    /// in `Some`. Otherwise, this returns `None`.
    pub fn get_option<T, F: FnOnce(&mut Self) -> Result<T, DeserializerError>>(
        &mut self,
        val: F,
    ) -> (r: Result<Option<T>, DeserializerError>)
        requires
            forall|b: &mut ReadByteBuffer| call_requires(val, (b,)),
        ensures
            match read_bool(old(self)@) {
                (Err(e), rest) => r == Err::<Option<T>, DeserializerError>(e) && final(self)@
                    == rest,
                (Ok(false), rest) => r == Ok::<Option<T>, DeserializerError>(None) && final(self)@
                    == rest,
                (Ok(true), rest) => exists|m: &mut ReadByteBuffer|
                    #![auto]
                    m@ == rest && final(m)@ == final(self)@ && match r {
                        Ok(Some(v)) => call_ensures(val, (m,), Ok(v)),
                        Ok(None) => false,
                        Err(e) => call_ensures(val, (m,), Err(e)),
                    },
            },
    {
        if self.get_bool()? {
            match val(self) {
                Ok(v) => Ok(Some(v)),
                Err(e) => Err(e),
            }
        } else {
            Ok(None)
        }
    }

    /// Reads a VarInt that counts, then calls `val` that many times and
    /// collects what it reads. The first failure ends the read. Each call of
    /// `val` starts on what the call before it left.
    pub fn get_list<T, F: Fn(&mut Self) -> Result<T, DeserializerError>>(
        &mut self,
        val: F,
    ) -> (r: Result<Vec<T>, DeserializerError>)
        requires
            forall|b: &mut ReadByteBuffer| call_requires(val, (b,)),
        ensures
            match read_var_int(old(self)@) {
                (Err(e), rest) => r == Err::<Vec<T>, DeserializerError>(e) && final(self)@ == rest,
                (Ok(count), rest) => if count.0 < 0 {
                    r == Err::<Vec<T>, DeserializerError>(DeserializerError::NegativeLength)
                        && final(self)@ == rest
                } else {
                    exists|items: Seq<T>, views: Seq<Seq<u8>>|
                        #![auto]
                        {
                            &&& views.len() == items.len() + 1
                            &&& views[0] == rest
                            &&& forall|i: int|
                                0 <= #[trigger] item_index(i) < items.len() ==> exists|
                                    m: &mut ReadByteBuffer,
                                |
                                    #![auto]
                                    m@ == views[i] && final(m)@ == views[i + 1] && call_ensures(
                                        val,
                                        (m,),
                                        Ok(items[i]),
                                    )
                            &&& match r {
                                Ok(list) => list@ == items && items.len() == count.0
                                    && final(self)@ == views.last(),
                                Err(e) => items.len() < count.0 && exists|m: &mut ReadByteBuffer|
                                    #![auto]
                                    m@ == views.last() && final(m)@ == final(self)@
                                        && call_ensures(val, (m,), Err(e)),
                            }
                        }
                },
            },
    {
        let count = self.get_var_int()?.0;
        if count < 0 {
            return Err(DeserializerError::NegativeLength);
        }
        let mut list: Vec<T> = Vec::new();
        let ghost rest = self@;
        let ghost mut views: Seq<Seq<u8>> = seq![self@];
        let mut done: i32 = 0;
        while done < count
            invariant
                0 <= done <= count,
                forall|b: &mut ReadByteBuffer| call_requires(val, (b,)),
                list@.len() == done,
                views.len() == done + 1,
                views[0] == rest,
                views.last() == self@,
                read_var_int(old(self)@) == (Ok::<VarInt, DeserializerError>(VarInt(count)), rest),
                forall|i: int|
                    0 <= #[trigger] item_index(i) < list@.len() ==> exists|m: &mut ReadByteBuffer|
                        #![auto]
                        m@ == views[i] && final(m)@ == views[i + 1] && call_ensures(
                            val,
                            (m,),
                            Ok(list@[i]),
                        ),
            decreases count - done,
        {
            let ghost before = list@;
            let ghost views_before = views;
            let ghost start = self@;
            match val(self) {
                Ok(item) => {
                    assert(exists|m: &mut ReadByteBuffer|
                        #![auto]
                        m@ == start && final(m)@ == self@ && call_ensures(val, (m,), Ok(item)));
                    list.push(item);
                    proof {
                        views = views.push(self@);
                        assert(views[done as int] == start);
                        assert(views[done + 1] == self@);
                        assert(list@[done as int] == item);
                        assert forall|i: int|
                            0 <= #[trigger] item_index(i) < list@.len() implies exists|
                            m: &mut ReadByteBuffer,
                        |
                            #![auto]
                            m@ == views[i] && final(m)@ == views[i + 1] && call_ensures(
                                val,
                                (m,),
                                Ok(list@[i]),
                            ) by {
                            if i < before.len() {
                                assert(item_index(i) < before.len());
                                assert(list@[i] == before[i]);
                                assert(views[i] == views_before[i]);
                                assert(views[i + 1] == views_before[i + 1]);
                            }
                        }
                    }
                },
                Err(e) => {
                    assert(exists|m: &mut ReadByteBuffer|
                        #![auto]
                        m@ == views.last() && final(m)@ == self@ && call_ensures(
                            val,
                            (m,),
                            Err(e),
                        ));
                    return Err(e);
                },
            }
            done = done + 1;
        }
        Ok(list)
    }

    /// The buffer underneath.
    pub fn buf(&mut self) -> (b: &mut bytes::Bytes)
        ensures
            bytes_remaining(*b) == old(self)@,
            final(self)@ == bytes_remaining(*final(b)),
    {
        &mut self.buffer
    }

    pub fn get_u8(&mut self) -> (r: Result<u8, DeserializerError>)
        ensures
            (r, final(self)@) == read_u8(old(self)@),
    {
        if bytes_has_remaining(&self.buffer) {
            Ok(bytes_get_u8(&mut self.buffer))
        } else {
            Err(DeserializerError::InsufficientBytes)
        }
    }

    pub fn get_i8(&mut self) -> (r: Result<i8, DeserializerError>)
        ensures
            (r, final(self)@) == read_i8(old(self)@),
    {
        if bytes_has_remaining(&self.buffer) {
            Ok(bytes_get_i8(&mut self.buffer))
        } else {
            Err(DeserializerError::InsufficientBytes)
        }
    }

    pub fn get_u16(&mut self) -> (r: Result<u16, DeserializerError>)
        ensures
            (r, final(self)@) == read_u16(old(self)@),
    {
        if bytes_remaining_len(&self.buffer) >= 2 {
            proof {
                assert(self@.take(2)[0] == self@[0] && self@.take(2)[1] == self@[1]);
            }
            Ok(bytes_get_u16(&mut self.buffer))
        } else {
            Err(DeserializerError::InsufficientBytes)
        }
    }

    pub fn get_i16(&mut self) -> (r: Result<i16, DeserializerError>)
        ensures
            (r, final(self)@) == read_i16(old(self)@),
    {
        if bytes_remaining_len(&self.buffer) >= 2 {
            proof {
                assert(self@.take(2)[0] == self@[0] && self@.take(2)[1] == self@[1]);
            }
            Ok(bytes_get_i16(&mut self.buffer))
        } else {
            Err(DeserializerError::InsufficientBytes)
        }
    }

    pub fn get_u32(&mut self) -> (r: Result<u32, DeserializerError>)
        ensures
            (r, final(self)@) == read_u32(old(self)@),
    {
        if bytes_remaining_len(&self.buffer) >= 4 {
            proof {
                lemma_take_keeps(self@, 4);
            }
            Ok(bytes_get_u32(&mut self.buffer))
        } else {
            Err(DeserializerError::InsufficientBytes)
        }
    }

    pub fn get_i32(&mut self) -> (r: Result<i32, DeserializerError>)
        ensures
            (r, final(self)@) == read_i32(old(self)@),
    {
        if bytes_remaining_len(&self.buffer) >= 4 {
            proof {
                lemma_take_keeps(self@, 4);
            }
            Ok(bytes_get_i32(&mut self.buffer))
        } else {
            Err(DeserializerError::InsufficientBytes)
        }
    }

    pub fn get_u64(&mut self) -> (r: Result<u64, DeserializerError>)
        ensures
            (r, final(self)@) == read_u64(old(self)@),
    {
        if bytes_remaining_len(&self.buffer) >= 8 {
            proof {
                lemma_take_keeps(self@, 8);
            }
            Ok(bytes_get_u64(&mut self.buffer))
        } else {
            Err(DeserializerError::InsufficientBytes)
        }
    }

    pub fn get_i64(&mut self) -> (r: Result<i64, DeserializerError>)
        ensures
            (r, final(self)@) == read_i64(old(self)@),
    {
        if bytes_remaining_len(&self.buffer) >= 8 {
            proof {
                lemma_take_keeps(self@, 8);
            }
            Ok(bytes_get_i64(&mut self.buffer))
        } else {
            Err(DeserializerError::InsufficientBytes)
        }
    }

    /// Reads a 32-bit IEEE 754 number and hands out its bit pattern.
    pub fn get_f32(&mut self) -> (r: Result<u32, DeserializerError>)
        ensures
            (r, final(self)@) == read_u32(old(self)@),
    {
        self.get_u32()
    }

    /// Reads a 64-bit IEEE 754 number and hands out its bit pattern.
    pub fn get_f64(&mut self) -> (r: Result<u64, DeserializerError>)
        ensures
            (r, final(self)@) == read_u64(old(self)@),
    {
        self.get_u64()
    }

    pub fn copy_to_bytes(&mut self, len: usize) -> (r: Result<bytes::Bytes, DeserializerError>)
        ensures
            (bytes_view(r), final(self)@) == read_bytes(old(self)@, len as nat),
    {
        if bytes_remaining_len(&self.buffer) >= len {
            Ok(bytes_copy_to_bytes(&mut self.buffer, len))
        } else {
            Err(DeserializerError::InsufficientBytes)
        }
    }

    pub fn copy_to_slice(&mut self, dst: &mut [u8]) -> (r: Result<(), DeserializerError>)
        ensures
            final(dst)@.len() == old(dst)@.len(),
            match read_bytes(old(self)@, old(dst)@.len()) {
                (Ok(bytes), rest) => r is Ok && final(dst)@ == bytes && final(self)@ == rest,
                (Err(e), rest) => r == Err::<(), DeserializerError>(e) && final(dst)@ == old(dst)@
                    && final(self)@ == rest,
            },
    {
        if bytes_remaining_len(&self.buffer) >= dst.len() {
            bytes_copy_to_slice(&mut self.buffer, dst);
            Ok(())
        } else {
            Err(DeserializerError::InsufficientBytes)
        }
    }
}

/// The place of an item in a list that was read; it marks the step of a read
/// that a statement speaks of.
pub open spec fn item_index(i: int) -> int {
    i
}

proof fn lemma_take_keeps(s: Seq<u8>, n: int)
    requires
        0 <= n <= s.len(),
    ensures
        forall|i: int| 0 <= i < n ==> #[trigger] s.take(n)[i] == s[i],
{
}

} // verus!
