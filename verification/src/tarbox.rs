//! The tarbox container format: a fixed header carrying the nonce and
//! salt, a terminator byte, and the encrypted payload.

use vstd::prelude::*;

pub mod attributes;
pub mod decoder;
pub mod encoder;
pub mod errors;
pub mod secret;

pub use attributes::Attributes;
pub use decoder::Decoder;
pub use encoder::Encoder;
pub use secret::{TarboxSecret, TarboxSecretBuilder};

use crate::tarbox::errors::TarboxError;
use crate::tarbox::secret::{NONCEBYTES, SALTBYTES};
use crate::util::copy_bytes;

verus! {

/// First byte of the magic pair identifying the format family.
pub const TARBOX_MAGIC_0: u8 = 0x7a;

/// Second byte of the magic pair identifying the format family.
pub const TARBOX_MAGIC_1: u8 = 0xb0;

/// Total width of a header: magic, version, attribute block, terminator.
pub const HEADER_LEN: usize = NONCEBYTES + SALTBYTES + 4;

/// The byte string a container starts with.
pub open spec fn spec_magic() -> Seq<u8> {
    seq![TARBOX_MAGIC_0, TARBOX_MAGIC_1]
}

/// The container a header with the given attributes and the given
/// payload encode to, byte-exact.
pub open spec fn encode_spec(nonce: Seq<u8>, salt: Seq<u8>, payload: Seq<u8>) -> Seq<u8> {
    spec_magic() + seq![attributes::VERSION] + nonce + salt + seq![0u8] + payload
}

/// Whether a buffer is a well-formed container of the version this
/// build implements.
pub open spec fn decode_ok(buf: Seq<u8>) -> bool {
    &&& buf.len() >= HEADER_LEN
    &&& buf[0] == TARBOX_MAGIC_0
    &&& buf[1] == TARBOX_MAGIC_1
    &&& buf[2] == attributes::VERSION
    &&& buf[HEADER_LEN - 1] == 0u8
}

/// The nonce stored in a well-formed container.
pub open spec fn decoded_nonce(buf: Seq<u8>) -> Seq<u8> {
    buf.subrange(3, 3 + NONCEBYTES as int)
}

/// The salt stored in a well-formed container.
pub open spec fn decoded_salt(buf: Seq<u8>) -> Seq<u8> {
    buf.subrange(3 + NONCEBYTES as int, 3 + NONCEBYTES as int + SALTBYTES as int)
}

/// The encrypted payload of a well-formed container: everything after
/// the header.
pub open spec fn decoded_payload(buf: Seq<u8>) -> Seq<u8> {
    buf.subrange(HEADER_LEN as int, buf.len() as int)
}

/// The error decoding reports for a buffer that is not a well-formed
/// container, stage by stage: truncation before the magic, a magic
/// mismatch, truncation before the version, a version mismatch,
/// truncation before the end of the header, a bad terminator byte.
pub open spec fn decode_err(buf: Seq<u8>) -> TarboxError {
    if buf.len() < 2 {
        TarboxError::SourceTooSmall(HEADER_LEN, buf.len() as usize)
    } else if buf[0] != TARBOX_MAGIC_0 || buf[1] != TARBOX_MAGIC_1 {
        TarboxError::HeaderMismatch(TARBOX_MAGIC_0, TARBOX_MAGIC_1, buf[0], buf[1])
    } else if buf.len() < 3 {
        TarboxError::SourceTooSmall(HEADER_LEN, buf.len() as usize)
    } else if buf[2] != attributes::VERSION {
        TarboxError::VersionMismatch(attributes::VERSION, buf[2])
    } else if buf.len() < HEADER_LEN {
        TarboxError::SourceTooSmall(HEADER_LEN, buf.len() as usize)
    } else {
        TarboxError::ExpectedNullByte(buf[HEADER_LEN - 1])
    }
}

/// Encoding then decoding a header is the identity: for all attributes
/// of the fixed widths and all payloads, including the empty one, the
/// encoded container is well formed and decodes to exactly the
/// attributes and payload that went in.
pub proof fn lemma_header_round_trip(nonce: Seq<u8>, salt: Seq<u8>, payload: Seq<u8>)
    requires
        nonce.len() == NONCEBYTES,
        salt.len() == SALTBYTES,
    ensures
        decode_ok(encode_spec(nonce, salt, payload)),
        decoded_nonce(encode_spec(nonce, salt, payload)) == nonce,
        decoded_salt(encode_spec(nonce, salt, payload)) == salt,
        decoded_payload(encode_spec(nonce, salt, payload)) == payload,
{
    let buf = encode_spec(nonce, salt, payload);
    assert(buf.len() == HEADER_LEN + payload.len());
    assert(buf[HEADER_LEN - 1] == 0u8);
    assert(decoded_nonce(buf) =~= nonce);
    assert(decoded_salt(buf) =~= salt);
    assert(decoded_payload(buf) =~= payload);
}

/// The complement: a well-formed container is exactly the encoding of
/// what it decodes to, so the framing has no slack bytes.
pub proof fn lemma_container_reencode(buf: Seq<u8>)
    requires
        decode_ok(buf),
    ensures
        encode_spec(decoded_nonce(buf), decoded_salt(buf), decoded_payload(buf)) == buf,
{
    assert(encode_spec(decoded_nonce(buf), decoded_salt(buf), decoded_payload(buf)) =~= buf);
}

/// A container whose magic pair is altered is rejected with a magic
/// error, and one with the right magic but an unsupported version byte
/// with a version error — in both cases before the attribute block or
/// the terminator is even looked at, whatever those bytes hold.
pub proof fn lemma_magic_version_rejection(buf: Seq<u8>)
    requires
        buf.len() >= 3,
    ensures
        (buf[0] != TARBOX_MAGIC_0 || buf[1] != TARBOX_MAGIC_1) ==> !decode_ok(buf) && decode_err(
            buf,
        ) matches TarboxError::HeaderMismatch(_, _, _, _),
        (buf[0] == TARBOX_MAGIC_0 && buf[1] == TARBOX_MAGIC_1 && buf[2] != attributes::VERSION)
            ==> !decode_ok(buf) && decode_err(buf) matches TarboxError::VersionMismatch(_, _),
{
}

/// Truncating a well-formed container anywhere inside its header
/// leaves a buffer that decoding rejects, with a size error, for every
/// truncation length from zero up to one byte short of the header.
pub proof fn lemma_truncation_rejected(container: Seq<u8>, n: int)
    requires
        decode_ok(container),
        0 <= n < HEADER_LEN,
    ensures
        !decode_ok(container.take(n)),
        decode_err(container.take(n)) matches TarboxError::SourceTooSmall(_, _),
{
}

/// Wraps a payload in a tarbox header carrying the secret's nonce and
/// salt.
pub fn wrap_buffer(buf: &Vec<u8>, secret: &TarboxSecret) -> (r: Result<Vec<u8>, TarboxError>)
    requires
        secret.wf(),
    ensures
        r matches Ok(v) && v@ == encode_spec(secret@.nonce, secret@.salt, buf@),
{
    let mut enc = Encoder::new(Attributes::from_secret(secret));
    let _ = enc.write(buf.as_slice());
    Ok(enc.finish())
}

/// Parses a container: returns the payload it wraps and the attributes
/// stored in its header, or the framing error the buffer earns.
pub fn unwrap_buffer(buf: &Vec<u8>) -> (r: Result<(Vec<u8>, Attributes), TarboxError>)
    ensures
        decode_ok(buf@) ==> (r matches Ok(p)
            && p.0@ == decoded_payload(buf@)
            && p.1@.nonce == decoded_nonce(buf@)
            && p.1@.salt == decoded_salt(buf@)
            && p.1.wf()),
        !decode_ok(buf@) ==> r == Err::<(Vec<u8>, Attributes), TarboxError>(decode_err(buf@)),
{
    let mut dec = match Decoder::new(copy_bytes(buf)) {
        Ok(d) => d,
        Err(e) => return Err(e),
    };
    let body = dec.read_to_end();
    Ok((body, dec.attributes_into()))
}

} // verus!
