//! Stream compression of the archive before encryption, and its exact
//! reversal after decryption.

use vstd::prelude::*;
use crate::errors::Error;

verus! {

/// What inflating a byte string returns: the decompressed bytes, or
/// nothing if the input is not a valid stream of the compression
/// format. A function of the input bytes alone.
pub uninterp spec fn inflated(bytes: Seq<u8>) -> Option<Seq<u8>>;

/// Relies on libflate's `gzip::Encoder`: inflating whatever stream it
/// emits returns exactly the bytes that were written into it, and the
/// encode path only fails when the sink it writes into fails — here an
/// in-memory vector, which cannot.
#[verifier::external_body]
fn gzip_compress(buf: &Vec<u8>) -> (r: Vec<u8>)
    ensures
        inflated(r@) == Some(buf@),
{
    let mut enc = libflate::gzip::Encoder::new(Vec::new()).expect("gzip header write to a vector");
    std::io::Write::write_all(&mut enc, buf.as_slice()).expect("gzip write to a vector");
    enc.finish().into_result().expect("gzip finish to a vector")
}

/// Relies on libflate's `gzip::Decoder`: inflation is a function of
/// the input bytes alone, failing exactly on input that is not a valid
/// stream.
#[verifier::external_body]
fn gzip_inflate(buf: &Vec<u8>) -> (r: Option<Vec<u8>>)
    ensures
        r matches Some(p) ==> inflated(buf@) == Some(p@),
        r is None ==> inflated(buf@) is None,
{
    let mut dec = match libflate::gzip::Decoder::new(buf.as_slice()) {
        Ok(d) => d,
        Err(_) => return None,
    };
    let mut out = Vec::new();
    match std::io::Read::read_to_end(&mut dec, &mut out) {
        Ok(_) => Some(out),
        Err(_) => None,
    }
}

/// Compresses a buffer. Always succeeds, and the result inflates back
/// to exactly `buf`.
pub fn compress_buffer(buf: &Vec<u8>) -> (r: Result<Vec<u8>, Error>)
    ensures
        r matches Ok(c) && inflated(c@) == Some(buf@),
{
    Ok(gzip_compress(buf))
}

/// Inflates a buffer, succeeding exactly on valid compressed streams
/// and returning exactly what the stream holds.
pub fn inflate_buffer(buf: &Vec<u8>) -> (r: Result<Vec<u8>, Error>)
    ensures
        r matches Ok(p) ==> inflated(buf@) == Some(p@),
        r matches Err(e) ==> e == Error::InflateFail && inflated(buf@) is None,
        inflated(buf@) matches Some(p) ==> r matches Ok(q) && q@ == p,
{
    match gzip_inflate(buf) {
        Some(p) => Ok(p),
        None => Err(Error::InflateFail),
    }
}

} // verus!
