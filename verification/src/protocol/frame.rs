use vstd::prelude::*;
use crate::components::{read_var_int, ReadByteBuffer};
use crate::error::{DeserializerError, PacketError};
use crate::protocol::bytebuf::{encode_prefixed, law_var_int_round_trip, put_slice, put_var_int};
use crate::protocol::compression::{zlib_compress, zlib_decompress, zlib_deflate, zlib_inflate};
use crate::protocol::var_int::{
    encode_var_int, encode_var_uint, lemma_encode_var_uint_len, lemma_scan_encode_var_uint,
    lemma_scan_var_uint_bounds, lemma_var_uint_len_bounds, peek_var_int, scan_var_uint, signed_32,
    var_uint_len, VarInt, VarPeek, VarScan,
};

verus! {

/// The most bytes that may follow the length prefix of a frame, and the most
/// that a compressed frame may announce: 2^21.
pub const MAX_PACKET_SIZE: usize = 2_097_152;

/// When frames are compressed, and how hard.
#[derive(Debug, Clone, Copy, PartialEq, Eq, Structural)]
pub struct CompressionInfo {
    /// Packets of this many bytes and more travel compressed.
    pub threshold: u32,
    /// The zlib level, from 0 to 9; a higher number counts as 9.
    pub level: u32,
}

/// A packet as it was received: its id, and its fields still as bytes.
#[derive(Debug)]
pub struct RawPacket {
    pub id: VarInt,
    pub bytebuf: ReadByteBuffer,
}

impl Clone for RawPacket {
    fn clone(&self) -> (copy: Self)
        ensures
            copy.id == self.id,
            copy.bytebuf@ == self.bytebuf@,
    {
        RawPacket { id: self.id, bytebuf: self.bytebuf.clone() }
    }
}

/// The zlib level that a configured level stands for.
pub open spec fn zlib_level(level: u32) -> u32 {
    if level > 9 {
        9
    } else {
        level
    }
}

/// What stands behind the length prefix of a frame that carries `inner`, a
/// packet id with the packet's fields. Without compression that is `inner`
/// itself. With it, a data length goes first: 0 and `inner` as it is where
/// `inner` is shorter than the threshold, else the length of `inner` and
/// `inner` compressed. A compressed stream counts only where it inflates to
/// `inner` again: the compressor promises that of every stream it makes.
pub open spec fn frame_payload(compression: Option<CompressionInfo>, inner: Seq<u8>) -> Result<
    Seq<u8>,
    PacketError,
> {
    match compression {
        None => Ok(inner),
        Some(info) => if inner.len() < info.threshold {
            Ok(encode_var_uint(0) + inner)
        } else {
            match zlib_deflate(inner, zlib_level(info.level)) {
                Some(stream) => if zlib_inflate(stream, (inner.len() + 1) as u64) == Some(inner) {
                    Ok(encode_var_uint(inner.len()) + stream)
                } else {
                    Err(PacketError::CompressionFailed)
                },
                None => Err(PacketError::CompressionFailed),
            }
        },
    }
}

/// The frame of a packet: the length of its payload as a VarInt, then the
/// payload. A packet whose id and fields, or whose payload, run over
/// `MAX_PACKET_SIZE` has no frame.
pub open spec fn frame_bytes(compression: Option<CompressionInfo>, id: i32, body: Seq<u8>) -> Result<
    Seq<u8>,
    PacketError,
> {
    let inner = encode_var_int(id) + body;
    if inner.len() > MAX_PACKET_SIZE {
        Err(PacketError::TooLong)
    } else {
        match frame_payload(compression, inner) {
            Err(e) => Err(e),
            Ok(payload) => if payload.len() > MAX_PACKET_SIZE {
                Err(PacketError::TooLong)
            } else {
                Ok(encode_prefixed(payload))
            },
        }
    }
}

/// A result with its bytes taken by their view.
pub open spec fn frame_view(r: Result<Vec<u8>, PacketError>) -> Result<Seq<u8>, PacketError> {
    match r {
        Ok(v) => Ok(v@),
        Err(e) => Err(e),
    }
}

/// Builds the frame of a packet from its id and its fields.
pub fn encode_frame(compression: &Option<CompressionInfo>, id: i32, body: &[u8]) -> (r: Result<
    Vec<u8>,
    PacketError,
>)
    ensures
        frame_view(r) == frame_bytes(*compression, id, body@),
{
    proof {
        law_var_int_round_trip(id, Seq::empty());
    }
    if body.len() > MAX_PACKET_SIZE {
        return Err(PacketError::TooLong);
    }
    let mut inner: Vec<u8> = Vec::new();
    put_var_int(&mut inner, VarInt(id));
    put_slice(&mut inner, body);
    assert(inner@ =~= encode_var_int(id) + body@);
    if inner.len() > MAX_PACKET_SIZE {
        return Err(PacketError::TooLong);
    }
    let mut payload: Vec<u8> = Vec::new();
    match compression {
        None => {
            put_slice(&mut payload, inner.as_slice());
            assert(payload@ =~= inner@);
        },
        Some(info) => {
            if (inner.len() as u64) < info.threshold as u64 {
                put_var_int(&mut payload, VarInt(0));
                put_slice(&mut payload, inner.as_slice());
            } else {
                let level = if info.level > 9 {
                    9
                } else {
                    info.level
                };
                match zlib_compress(inner.as_slice(), level) {
                    None => {
                        return Err(PacketError::CompressionFailed);
                    },
                    Some(stream) => {
                        put_var_int(&mut payload, VarInt(inner.len() as i32));
                        if stream.len() > MAX_PACKET_SIZE {
                            proof {
                                assert(frame_payload(*compression, inner@)->Ok_0.len()
                                    > MAX_PACKET_SIZE);
                            }
                            return Err(PacketError::TooLong);
                        }
                        put_slice(&mut payload, stream.as_slice());
                    },
                }
            }
        },
    }
    assert(frame_payload(*compression, inner@) == Ok::<Seq<u8>, PacketError>(payload@));
    if payload.len() > MAX_PACKET_SIZE {
        return Err(PacketError::TooLong);
    }
    let mut frame: Vec<u8> = Vec::new();
    put_var_int(&mut frame, VarInt(payload.len() as i32));
    put_slice(&mut frame, payload.as_slice());
    assert(frame@ =~= encode_prefixed(payload@));
    Ok(frame)
}

/// What stands at the front of received bytes.
pub enum FrameScan {
    /// Part of a frame: its length prefix is not whole yet, or fewer bytes
    /// follow it than it announces.
    NeedMore,
    /// A whole frame with this payload, and the bytes behind it.
    Frame { payload: Seq<u8>, rest: Seq<u8> },
    /// No frame: the length prefix does not end within five bytes, or
    /// announces a length below zero or above `MAX_PACKET_SIZE`.
    Bad(PacketError),
}

/// Looks for a whole frame at the front of `input`.
pub open spec fn scan_frame(input: Seq<u8>) -> FrameScan {
    match scan_var_uint(input, 5) {
        VarScan::Incomplete => FrameScan::NeedMore,
        VarScan::TooBig => FrameScan::Bad(PacketError::VarIntTooBig),
        VarScan::Done { value, len } => {
            let announced = signed_32(value);
            if announced < 0 || announced > MAX_PACKET_SIZE {
                FrameScan::Bad(PacketError::FrameTooLarge)
            } else if input.len() - len < announced {
                FrameScan::NeedMore
            } else {
                FrameScan::Frame {
                    payload: input.subrange(len as int, len + announced),
                    rest: input.skip(len + announced),
                }
            }
        },
    }
}

/// How a VarInt inside a frame fails: a frame is whole, so a VarInt that runs
/// off its end is damage and no reason to wait.
pub open spec fn frame_error(e: DeserializerError) -> PacketError {
    if e == DeserializerError::VarIntTooBig {
        PacketError::VarIntTooBig
    } else {
        PacketError::Truncated
    }
}

/// The packet id and the fields that a payload holds, once its compression is
/// undone. `threshold` is that of the connection, if it compresses. A data
/// length of 0 says that the rest is not compressed. Any other must reach the
/// threshold, must not pass `MAX_PACKET_SIZE`, and must be the exact length of
/// what the rest inflates to.
pub open spec fn unpack_payload(payload: Seq<u8>, threshold: Option<u32>) -> Result<
    Seq<u8>,
    PacketError,
> {
    match threshold {
        None => Ok(payload),
        Some(limit) => match read_var_int(payload) {
            (Err(e), _) => Err(frame_error(e)),
            (Ok(announced), rest) => if announced.0 == 0 {
                Ok(rest)
            } else if announced.0 < limit {
                Err(PacketError::BadCompression)
            } else if announced.0 > MAX_PACKET_SIZE {
                Err(PacketError::FrameTooLarge)
            } else {
                match zlib_inflate(rest, (announced.0 + 1) as u64) {
                    Some(data) => if data.len() == announced.0 {
                        Ok(data)
                    } else {
                        Err(PacketError::BadCompression)
                    },
                    None => Err(PacketError::BadCompression),
                }
            },
        },
    }
}

/// The packet that a payload holds: its id, then its fields.
pub open spec fn open_payload(payload: Seq<u8>, threshold: Option<u32>) -> Result<
    (VarInt, Seq<u8>),
    PacketError,
> {
    match unpack_payload(payload, threshold) {
        Err(e) => Err(e),
        Ok(inner) => match read_var_int(inner) {
            (Ok(id), fields) => Ok((id, fields)),
            (Err(e), _) => Err(frame_error(e)),
        },
    }
}

/// A packet by its id and the bytes of its fields.
pub open spec fn packet_view(r: Result<RawPacket, PacketError>) -> Result<
    (VarInt, Seq<u8>),
    PacketError,
> {
    match r {
        Ok(p) => Ok((p.id, p.bytebuf@)),
        Err(e) => Err(e),
    }
}

/// A frame by the bytes of its payload, where there is one.
pub open spec fn split_view(r: Result<Option<Vec<u8>>, PacketError>, left: Seq<u8>) -> FrameScan {
    match r {
        Ok(Some(payload)) => FrameScan::Frame { payload: payload@, rest: left },
        Ok(None) => FrameScan::NeedMore,
        Err(e) => FrameScan::Bad(e),
    }
}

/// Takes the first frame off `input` and hands out its payload. Where no
/// whole frame is there, `input` stays as it is.
pub fn split_frame(input: &mut Vec<u8>) -> (r: Result<Option<Vec<u8>>, PacketError>)
    ensures
        split_view(r, final(input)@) == scan_frame(old(input)@),
        !(r matches Ok(Some(_))) ==> final(input)@ == old(input)@,
{
    proof {
        lemma_scan_var_uint_bounds(input@, 5);
    }
    match peek_var_int(input.as_slice()) {
        VarPeek::Incomplete => Ok(None),
        VarPeek::TooBig => Err(PacketError::VarIntTooBig),
        VarPeek::Value { value, len } => {
            if value < 0 || value as usize > MAX_PACKET_SIZE {
                return Err(PacketError::FrameTooLarge);
            }
            let announced = value as usize;
            if input.len() - len < announced {
                return Ok(None);
            }
            let mut tail = input.split_off(len + announced);
            let mut payload = input.split_off(len);
            core::mem::swap(input, &mut tail);
            assert(input@ =~= old(input)@.skip(len + announced));
            assert(payload@ =~= old(input)@.subrange(len as int, len + announced));
            Ok(Some(payload))
        },
    }
}

/// Takes a payload apart into the packet it holds.
pub fn open_frame(payload: Vec<u8>, threshold: Option<u32>) -> (r: Result<RawPacket, PacketError>)
    ensures
        packet_view(r) == open_payload(payload@, threshold),
{
    let mut bytebuf = ReadByteBuffer::from_vec(payload);
    if let Some(limit) = threshold {
        let announced = match bytebuf.get_var_int() {
            Ok(n) => n.0,
            Err(e) => {
                return Err(to_frame_error(e));
            },
        };
        if announced != 0 {
            if (announced as i64) < limit as i64 {
                return Err(PacketError::BadCompression);
            }
            if announced as i64 > MAX_PACKET_SIZE as i64 {
                return Err(PacketError::FrameTooLarge);
            }
            match zlib_decompress(bytebuf.as_slice(), announced as u64 + 1) {
                None => {
                    return Err(PacketError::BadCompression);
                },
                Some(data) => {
                    if data.len() != announced as usize {
                        return Err(PacketError::BadCompression);
                    }
                    bytebuf = ReadByteBuffer::from_vec(data);
                },
            }
        }
    }
    match bytebuf.get_var_int() {
        Ok(id) => Ok(RawPacket { id, bytebuf }),
        Err(e) => Err(to_frame_error(e)),
    }
}

fn to_frame_error(e: DeserializerError) -> (r: PacketError)
    ensures
        r == frame_error(e),
{
    match e {
        DeserializerError::VarIntTooBig => PacketError::VarIntTooBig,
        _ => PacketError::Truncated,
    }
}

/// The threshold that a decoder needs to read what an encoder with
/// `compression` writes.
pub open spec fn threshold_of(compression: Option<CompressionInfo>) -> Option<u32> {
    match compression {
        Some(info) => Some(info.threshold),
        None => None,
    }
}

/// Whatever follows it, a frame that was built from a packet id and fields is
/// found whole at the front of the bytes, with nothing of what follows taken,
/// and holds that id and those fields again.
pub proof fn law_frame_round_trip(
    compression: Option<CompressionInfo>,
    id: i32,
    body: Seq<u8>,
    rest: Seq<u8>,
)
    requires
        frame_bytes(compression, id, body) is Ok,
    ensures
        scan_frame(frame_bytes(compression, id, body)->Ok_0 + rest) matches FrameScan::Frame {
            payload,
            rest: left,
        } && left == rest && open_payload(payload, threshold_of(compression)) == Ok::<
            (VarInt, Seq<u8>),
            PacketError,
        >((VarInt(id), body)),
{
    let inner = encode_var_int(id) + body;
    let payload = frame_payload(compression, inner)->Ok_0;
    let frame = encode_prefixed(payload);
    let n = payload.len();
    lemma_var_uint_len_bounds(n);
    lemma_encode_var_uint_len(n);
    lemma_scan_encode_var_uint(n, payload + rest, 5);
    assert(frame + rest =~= encode_var_uint(n) + (payload + rest));
    let len = var_uint_len(n);
    assert((frame + rest).subrange(len as int, (len + n) as int) =~= payload);
    assert((frame + rest).skip((len + n) as int) =~= rest);
    law_frame_compression(compression, id, body);
    law_var_int_round_trip(id, body);
}

/// With compression on, the payload of a frame starts with a data length. For
/// a packet below the threshold it is 0 and the packet follows as it is. For
/// any other it is the length of the packet, and what follows inflates to
/// exactly the packet. Either way the payload unpacks to the packet.
pub proof fn law_frame_compression(compression: Option<CompressionInfo>, id: i32, body: Seq<u8>)
    requires
        frame_bytes(compression, id, body) is Ok,
    ensures
        ({
            let inner = encode_var_int(id) + body;
            let payload = frame_payload(compression, inner)->Ok_0;
            &&& frame_payload(compression, inner) is Ok
            &&& unpack_payload(payload, threshold_of(compression)) == Ok::<Seq<u8>, PacketError>(
                inner,
            )
            &&& compression matches Some(info) ==> {
                let (announced, data) = read_var_int(payload);
                if inner.len() < info.threshold {
                    announced == Ok::<VarInt, DeserializerError>(VarInt(0)) && data == inner
                } else {
                    announced == Ok::<VarInt, DeserializerError>(VarInt(inner.len() as i32))
                        && zlib_inflate(data, (inner.len() + 1) as u64) == Some(inner)
                }
            }
        }),
{
    let inner = encode_var_int(id) + body;
    law_var_int_round_trip(id, Seq::empty());
    assert(inner.len() >= 1);
    if let Some(info) = compression {
        if inner.len() < info.threshold {
            law_var_int_round_trip(0, inner);
        } else {
            let stream = zlib_deflate(inner, zlib_level(info.level))->Some_0;
            law_var_int_round_trip(inner.len() as i32, stream);
        }
    }
}

} // verus!
