//! Seals a byte buffer into an encrypted, compressed, self-describing
//! container ("tarbox") protected by a password, and unseals such a
//! container back to the original bytes given the same password.
//!
//! The container layout is, byte-exact:
//! `MAGIC (2 bytes) | VERSION (1 byte) | nonce | salt | 0x00 | ciphertext`.
//!
//! Sealing runs compression, authenticated encryption and framing in
//! that fixed order; unsealing reverses it exactly. Archiving a file
//! tree to bytes and all file handling stay outside this crate.

use vstd::prelude::*;

pub mod crypt;
pub mod errors;
pub mod flate;
pub mod tarbox;
mod util;

use crate::crypt::opened_box;
use crate::errors::{Error, SecretField};
use crate::flate::inflated;
use crate::tarbox::secret::{derived_key, TarboxSecret, TarboxSecretBuilder};
use crate::util::{copy_bytes, vec_subrange};

verus! {

/// What unsealing a container with a password returns: the header is
/// decoded, the key is derived from the password and the stored salt,
/// the payload is opened under that key and the stored nonce, and the
/// result is inflated. `None` wherever any stage rejects its input.
pub open spec fn unseal_spec(container: Seq<u8>, password: Seq<char>) -> Option<Seq<u8>> {
    if tarbox::decode_ok(container) {
        match opened_box(
            tarbox::decoded_payload(container),
            tarbox::decoded_nonce(container),
            derived_key(password, tarbox::decoded_salt(container)),
        ) {
            Some(compressed) => inflated(compressed),
            None => None,
        }
    } else {
        None
    }
}

/// Seals a buffer under a password: mints a fresh secret (random nonce
/// and salt), compresses, encrypts, frames. Returns the container and
/// the secret; the container's header carries exactly the secret's
/// nonce and salt, and unsealing it with the same password yields
/// exactly `buf` back. Fails only if the key-derivation primitive
/// fails.
pub fn seal_buffer(buf: &Vec<u8>, password: String) -> (r: Result<(Vec<u8>, TarboxSecret), Error>)
    ensures
        r matches Ok(p) ==> p.1@.password == password@ && p.1.wf() && unseal_spec(
            p.0@,
            password@,
        ) == Some(buf@) && tarbox::decoded_nonce(p.0@) == p.1@.nonce && tarbox::decoded_salt(p.0@)
            == p.1@.salt,
        r matches Err(e) ==> e == Error::KdfFail,
{
    let secret = TarboxSecret::generate(password);

    // Compression has no error case: compress_buffer's contract rules
    // the Err arm out.
    let compressed = match flate::compress_buffer(buf) {
        Ok(c) => c,
        Err(e) => {
            proof {
                assert(false);
            }
            return Err(e);
        },
    };
    let ciphertext = match crypt::encrypt_buffer(&compressed, &secret) {
        Ok(c) => c,
        Err(e) => return Err(e),
    };
    // Framing has no error case: wrap_buffer's contract rules the
    // Err arm out.
    let container = match tarbox::wrap_buffer(&ciphertext, &secret) {
        Ok(v) => v,
        Err(_) => {
            proof {
                assert(false);
            }
            return Err(Error::KdfFail);
        },
    };
    proof {
        tarbox::lemma_header_round_trip(secret@.nonce, secret@.salt, ciphertext@);
    }
    Ok((container, secret))
}

/// Unseals a container with a builder already holding the password:
/// decodes the header, rebuilds the secret from the password and the
/// stored nonce and salt, decrypts, inflates. Whatever it returns is
/// exactly what the container holds; it fails on a malformed
/// container, a missing password, a wrong password or tampered data,
/// or a KDF failure, and never returns a wrong buffer.
pub fn unseal_buffer(buf: &Vec<u8>, sb: TarboxSecretBuilder) -> (r: Result<Vec<u8>, Error>)
    requires
        sb.wf(),
    ensures
        r matches Ok(p) ==> (sb@.password matches Some(pw) && unseal_spec(buf@, pw) == Some(p@)),
        !tarbox::decode_ok(buf@) ==> r == Err::<Vec<u8>, Error>(
            Error::Tarbox(tarbox::decode_err(buf@)),
        ),
        tarbox::decode_ok(buf@) && sb@.password is None ==> r == Err::<Vec<u8>, Error>(
            Error::MissingField(SecretField::Password),
        ),
        sb@.password matches Some(pw) ==> (unseal_spec(buf@, pw) matches Some(p) ==> ((r matches
            Ok(q)
            && q@ == p) || r == Err::<Vec<u8>, Error>(Error::KdfFail))),
        tarbox::decode_ok(buf@) && sb@.password is Some ==> (r is Ok || r == Err::<Vec<u8>, Error>(
            Error::KdfFail,
        ) || r == Err::<Vec<u8>, Error>(Error::SecretBoxOpenFail) || r == Err::<Vec<u8>, Error>(
            Error::InflateFail,
        )),
{
    let (ciphertext, attrs) = match tarbox::unwrap_buffer(buf) {
        Ok(t) => t,
        Err(e) => return Err(Error::Tarbox(e)),
    };

    let secret = match sb.nonce(copy_bytes(attrs.nonce())).salt(copy_bytes(attrs.salt())).build() {
        Ok(s) => s,
        Err(e) => return Err(e),
    };

    let compressed = match crypt::decrypt_buffer(&ciphertext, &secret) {
        Ok(c) => c,
        Err(e) => return Err(e),
    };
    flate::inflate_buffer(&compressed)
}

/// The path separator byte, `/`.
pub const SEP: u8 = 0x2f;

/// The base name of a path: everything after the last separator.
pub open spec fn basename_of(p: Seq<u8>) -> Seq<u8>
    decreases p.len(),
{
    if p.len() == 0 {
        p
    } else if p.last() == SEP {
        Seq::empty()
    } else {
        basename_of(p.drop_last()).push(p.last())
    }
}

/// The suffix appended to a sealed file's name: `.tarbox`.
pub open spec fn spec_suffix() -> Seq<u8> {
    seq![0x2eu8, 0x74u8, 0x61u8, 0x72u8, 0x62u8, 0x6fu8, 0x78u8]
}

/// What joining a file name onto a directory path yields: the two with
/// a separator between them, unless the directory is empty or already
/// ends in one.
pub open spec fn joined(dir: Seq<u8>, name: Seq<u8>) -> Seq<u8> {
    if dir.len() == 0 {
        name
    } else if dir.last() == SEP {
        dir + name
    } else {
        dir + seq![SEP] + name
    }
}

/// A suffix of `p` that starts right after a separator (or at the
/// start) and holds no separator is the base name of `p`.
proof fn lemma_basename_at_cut(p: Seq<u8>, cut: int)
    requires
        0 <= cut <= p.len(),
        forall|j: int| cut <= j < p.len() ==> p[j] != SEP,
        cut > 0 ==> p[cut - 1] == SEP,
    ensures
        basename_of(p) == p.subrange(cut, p.len() as int),
    decreases p.len(),
{
    if p.len() == 0 {
        assert(basename_of(p) =~= p.subrange(0, 0));
    } else if cut == p.len() {
        assert(p.last() == SEP);
        assert(basename_of(p) =~= p.subrange(cut, p.len() as int));
    } else {
        assert(p.last() != SEP);
        lemma_basename_at_cut(p.drop_last(), cut);
        assert(p.subrange(cut, p.len() as int) =~= p.drop_last().subrange(
            cut,
            p.len() - 1,
        ).push(p.last()));
    }
}

/// The file name a sealed container gets: the source's base name with
/// the format suffix appended.
pub fn build_output_file_name(path: &Vec<u8>) -> (r: Vec<u8>)
    ensures
        r@ == basename_of(path@) + spec_suffix(),
{
    let mut cut: usize = path.len();
    while cut > 0 && path[cut - 1] != SEP
        invariant
            cut <= path@.len(),
            forall|j: int| cut <= j < path@.len() ==> path@[j] != SEP,
        decreases cut,
    {
        cut = cut - 1;
    }
    proof {
        lemma_basename_at_cut(path@, cut as int);
    }
    let mut out = vec_subrange(path, cut, path.len());
    let suffix: [u8; 7] = [0x2e, 0x74, 0x61, 0x72, 0x62, 0x6f, 0x78];
    crate::util::append_bytes(&mut out, suffix.as_slice());
    proof {
        assert(suffix@ =~= spec_suffix());
    }
    out
}

/// The full path a sealed container is written to: the derived file
/// name inside `output` where `output` is a directory, and `output`
/// verbatim where it names a file.
pub fn build_output_path(input: &Vec<u8>, output: &Vec<u8>, output_is_dir: bool) -> (r: Vec<u8>)
    ensures
        output_is_dir ==> r@ == joined(output@, basename_of(input@) + spec_suffix()),
        !output_is_dir ==> r@ == output@,
{
    if !output_is_dir {
        return copy_bytes(output);
    }
    let name = build_output_file_name(input);
    let mut out = copy_bytes(output);
    if out.len() > 0 && out[out.len() - 1] != SEP {
        out.push(SEP);
    }
    crate::util::append_bytes(&mut out, name.as_slice());
    out
}

} // verus!
