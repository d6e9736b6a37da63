use std::io::Read;
use std::io::Write;
use vstd::prelude::*;

use crate::error::Error;

verus! {

/// Values at least this long are stored compressed.
pub const MIN_COMPRESS_SIZE: usize = 2048;

/// The flag byte of a record whose payload is the value itself.
pub const FLAG_RAW: u8 = 0;

/// The flag byte of a record whose payload is a Snappy frame stream.
pub const FLAG_COMPRESSED: u8 = 1;

/// The Snappy frame stream that snap's writer produces for `data`.
pub uninterp spec fn snappy_frame(data: Seq<u8>) -> Seq<u8>;

/// What snap's reader decodes a frame stream to, or the kind of the error
/// it reports where the stream is not valid.
pub uninterp spec fn snappy_unframe(stream: Seq<u8>) -> Result<Seq<u8>, std::io::ErrorKind>;

/// The length that the chunk header at `i` of a frame stream declares: three
/// bytes, little endian, after the chunk type.
pub open spec fn chunk_len(s: Seq<u8>, i: int) -> nat {
    (s[i + 1] as int + s[i + 2] as int * 256 + s[i + 3] as int * 65536) as nat
}

/// Whether, walking the chunk headers of a frame stream from `i` on (four
/// header bytes, then as many bytes as the header declares), every chunk of
/// data (type 0x00 or 0x01) declares a length that covers its four-byte
/// checksum.
pub open spec fn chunk_lengths_ok(s: Seq<u8>, i: int) -> bool
    decreases s.len() - i,
{
    if 0 <= i && i + 4 <= s.len() {
        &&& (s[i] == 0 || s[i] == 1) ==> chunk_len(s, i) >= 4
        &&& i + 4 + chunk_len(s, i) <= s.len() ==> chunk_lengths_ok(s, i + 4 + chunk_len(s, i))
    } else {
        true
    }
}

/// The record stored for `value`: its flag byte, then its payload.
pub open spec fn record_of(value: Seq<u8>) -> Seq<u8> {
    if value.len() >= MIN_COMPRESS_SIZE {
        seq![FLAG_COMPRESSED] + snappy_frame(value)
    } else {
        seq![FLAG_RAW] + value
    }
}

/// Whether `rec` is what the store writes for `value`: the flag byte that the
/// size of the value calls for, then a payload that decodes to the value.
pub open spec fn is_record_of(rec: Seq<u8>, value: Seq<u8>) -> bool {
    &&& rec == record_of(value)
    &&& value.len() >= MIN_COMPRESS_SIZE ==> chunk_lengths_ok(rec.drop_first(), 0)
    &&& value.len() >= MIN_COMPRESS_SIZE ==> snappy_unframe(rec.drop_first()) == Ok::<
        Seq<u8>,
        std::io::ErrorKind,
    >(value)
}

/// The value that a record holds, or the error that reading it gives: a
/// record without its flag byte ends early, a flag other than the two known
/// ones or a frame stream with a chunk too short for its checksum is invalid
/// data, and a frame stream that snap rejects fails with snap's error kind.
pub open spec fn decoded(rec: Seq<u8>) -> Result<Seq<u8>, Error> {
    if rec.len() == 0 {
        Err(Error::IoErrorKind(std::io::ErrorKind::UnexpectedEof))
    } else if rec[0] == FLAG_RAW {
        Ok(rec.drop_first())
    } else if rec[0] == FLAG_COMPRESSED && chunk_lengths_ok(rec.drop_first(), 0) {
        match snappy_unframe(rec.drop_first()) {
            Ok(v) => Ok(v),
            Err(k) => Err(Error::IoErrorKind(k)),
        }
    } else {
        Err(Error::IoErrorKind(std::io::ErrorKind::InvalidData))
    }
}

/// A result holding bytes, seen as a result holding their sequence.
pub open spec fn bytes_result(r: Result<Vec<u8>, Error>) -> Result<Seq<u8>, Error> {
    match r {
        Ok(v) => Ok(v@),
        Err(e) => Err(e),
    }
}

/// Relies on `snap::Writer` over a `Vec`: writing into a `Vec` cannot fail,
/// the bytes written are the Snappy frame stream of `data`, every data chunk
/// in it is four checksum bytes and its block, and snap's reader decodes it
/// back to `data`.
#[verifier::external_body]
fn frame_compress(data: &[u8]) -> (r: Result<Vec<u8>, std::io::ErrorKind>)
    ensures
        r is Ok,
        r matches Ok(f) ==> f@ == snappy_frame(data@),
        r matches Ok(f) ==> chunk_lengths_ok(f@, 0),
        r matches Ok(f) ==> snappy_unframe(f@) is Ok && snappy_unframe(f@)->Ok_0 == data@,
{
    let mut wtr = snap::Writer::new(Vec::new());
    if let Err(e) = wtr.write_all(data) {
        return Err(e.kind());
    }
    match wtr.into_inner() {
        Ok(out) => Ok(out),
        Err(e) => Err(e.error().kind()),
    }
}

/// Relies on `snap::Reader` over a byte slice: reading it to the end yields
/// the decoded stream, or the kind of the error it reports. Its chunk length
/// arithmetic needs every data chunk to declare at least its checksum.
#[verifier::external_body]
fn frame_decompress(stream: &[u8]) -> (r: Result<Vec<u8>, std::io::ErrorKind>)
    requires
        chunk_lengths_ok(stream@, 0),
    ensures
        r matches Ok(v) ==> snappy_unframe(stream@) is Ok && snappy_unframe(stream@)->Ok_0 == v@,
        r matches Err(k) ==> snappy_unframe(stream@) is Err && snappy_unframe(stream@)->Err_0 == k,
{
    let mut out = Vec::new();
    match snap::Reader::new(stream).read_to_end(&mut out) {
        Ok(_) => Ok(out),
        Err(e) => Err(e.kind()),
    }
}

/// Walks the chunk headers of a frame stream and tells whether every data
/// chunk declares a length that covers its checksum.
pub fn check_chunk_lengths(s: &[u8]) -> (r: bool)
    ensures
        r == chunk_lengths_ok(s@, 0),
{
    let mut i: usize = 0;
    while s.len() - i >= 4
        invariant
            i <= s@.len(),
            chunk_lengths_ok(s@, 0) == chunk_lengths_ok(s@, i as int),
        decreases s@.len() - i,
    {
        let ty = s[i];
        let len: usize = s[i + 1] as usize + s[i + 2] as usize * 256 + s[i + 3] as usize * 65536;
        assert(len as int == chunk_len(s@, i as int));
        if (ty == 0 || ty == 1) && len < 4 {
            return false;
        }
        if len > s.len() - i - 4 {
            return true;
        }
        i = i + 4 + len;
    }
    true
}

/// Appends the bytes of `src` to `dst`.
fn push_all(dst: &mut Vec<u8>, src: &[u8])
    ensures
        final(dst)@ == old(dst)@ + src@,
{
    let mut i: usize = 0;
    while i < src.len()
        invariant
            i <= src@.len(),
            dst@ == old(dst)@ + src@.subrange(0, i as int),
        decreases src@.len() - i,
    {
        dst.push(src[i]);
        i = i + 1;
        assert(src@.subrange(0, i as int) == src@.subrange(0, i - 1 as int).push(src@[i - 1]));
    }
    assert(src@.subrange(0, src@.len() as int) == src@);
}

/// The record of a value that was compressed to `frame`: the compressed
/// flag, then the frame.
pub fn compressed_record(frame: &[u8]) -> (r: Vec<u8>)
    ensures
        r@ == seq![FLAG_COMPRESSED] + frame@,
{
    let mut rec: Vec<u8> = Vec::new();
    rec.push(FLAG_COMPRESSED);
    push_all(&mut rec, frame);
    rec
}

/// Builds the record stored for `value`. Values of at least
/// `MIN_COMPRESS_SIZE` bytes are compressed.
pub fn encode_record(value: &[u8]) -> (r: Vec<u8>)
    ensures
        is_record_of(r@, value@),
{
    if value.len() >= MIN_COMPRESS_SIZE {
        match frame_compress(value) {
            Ok(frame) => {
                let rec = compressed_record(frame.as_slice());
                assert(rec@.drop_first() == frame@);
                rec
            },
            Err(_) => {
                // frame_compress promises success
                assert(false);
                Vec::new()
            },
        }
    } else {
        let mut rec: Vec<u8> = Vec::new();
        rec.push(FLAG_RAW);
        push_all(&mut rec, value);
        rec
    }
}

/// Recovers the value that a record holds, or fails as `decoded` says.
pub fn decode_record(rec: &[u8]) -> (r: Result<Vec<u8>, Error>)
    ensures
        bytes_result(r) == decoded(rec@),
{
    if rec.len() == 0 {
        return Err(Error::IoErrorKind(std::io::ErrorKind::UnexpectedEof));
    }
    let (head, payload) = rec.split_at(1);
    assert(payload@ == rec@.drop_first());
    if head[0] == FLAG_RAW {
        let mut v: Vec<u8> = Vec::new();
        push_all(&mut v, payload);
        Ok(v)
    } else if head[0] == FLAG_COMPRESSED && check_chunk_lengths(payload) {
        match frame_decompress(payload) {
            Ok(v) => Ok(v),
            Err(k) => Err(Error::IoErrorKind(k)),
        }
    } else {
        Err(Error::IoErrorKind(std::io::ErrorKind::InvalidData))
    }
}

} // verus!
