//! Authenticated encryption of a payload under a secret: the sole
//! integrity check in the system. Decryption fails on a wrong password
//! and on any corruption of the ciphertext alike.

use vstd::prelude::*;
use crate::errors::Error;
use crate::tarbox::secret::{derived_key, TarboxSecret, KEYBYTES, NONCEBYTES};
use sodiumoxide::crypto::secretbox;

verus! {

/// The ciphertext the authenticated cipher produces from a message, a
/// nonce and a key. The cipher is deterministic, so the result is a
/// function of the three inputs alone.
pub uninterp spec fn sealed_box(message: Seq<u8>, nonce: Seq<u8>, key: Seq<u8>) -> Seq<u8>;

/// What authenticated decryption returns for a ciphertext, a nonce and
/// a key: the message, or nothing if authentication fails. Also a
/// function of its three inputs alone.
pub uninterp spec fn opened_box(ciphertext: Seq<u8>, nonce: Seq<u8>, key: Seq<u8>) -> Option<
    Seq<u8>,
>;

/// Relies on sodiumoxide's `secretbox::seal` (xsalsa20poly1305):
/// deterministic in message, nonce and key, and `secretbox::open`
/// applied to its output under the same nonce and key returns the
/// message.
#[verifier::external_body]
fn secretbox_seal(message: &Vec<u8>, nonce: &Vec<u8>, key: &Vec<u8>) -> (r: Vec<u8>)
    requires
        nonce@.len() == NONCEBYTES,
        key@.len() == KEYBYTES,
    ensures
        r@ == sealed_box(message@, nonce@, key@),
        opened_box(r@, nonce@, key@) == Some(message@),
{
    let n = secretbox::Nonce::from_slice(nonce.as_slice()).unwrap();
    let k = secretbox::Key::from_slice(key.as_slice()).unwrap();
    secretbox::seal(message.as_slice(), &n, &k)
}

/// Relies on sodiumoxide's `secretbox::open` (xsalsa20poly1305): it
/// verifies and decrypts, returning nothing exactly when the
/// ciphertext does not authenticate under the nonce and key.
#[verifier::external_body]
fn secretbox_open(ciphertext: &Vec<u8>, nonce: &Vec<u8>, key: &Vec<u8>) -> (r: Option<Vec<u8>>)
    requires
        nonce@.len() == NONCEBYTES,
        key@.len() == KEYBYTES,
    ensures
        r matches Some(p) ==> opened_box(ciphertext@, nonce@, key@) == Some(p@),
        r is None ==> opened_box(ciphertext@, nonce@, key@) is None,
{
    let n = secretbox::Nonce::from_slice(nonce.as_slice()).unwrap();
    let k = secretbox::Key::from_slice(key.as_slice()).unwrap();
    secretbox::open(ciphertext.as_slice(), &n, &k).ok()
}

/// Encrypts and authenticates `buf` under the secret's derived key and
/// nonce. Fails only if the key-derivation primitive fails.
pub fn encrypt_buffer(buf: &Vec<u8>, secret: &TarboxSecret) -> (r: Result<Vec<u8>, Error>)
    requires
        secret.wf(),
    ensures
        r matches Ok(c) ==> {
            let key = derived_key(secret@.password, secret@.salt);
            c@ == sealed_box(buf@, secret@.nonce, key) && opened_box(c@, secret@.nonce, key)
                == Some(buf@)
        },
        r matches Err(e) ==> e == Error::KdfFail,
{
    let key = match secret.key() {
        Some(k) => k,
        None => return Err(Error::KdfFail),
    };
    Ok(secretbox_seal(buf, secret.nonce(), &key))
}

/// Verifies and decrypts `buf` under the secret's derived key and
/// nonce. A wrong password and a tampered or truncated ciphertext are
/// reported as the same authentication failure.
pub fn decrypt_buffer(buf: &Vec<u8>, secret: &TarboxSecret) -> (r: Result<Vec<u8>, Error>)
    requires
        secret.wf(),
    ensures
        r matches Ok(p) ==> opened_box(
            buf@,
            secret@.nonce,
            derived_key(secret@.password, secret@.salt),
        ) == Some(p@),
        r matches Err(e) ==> e == Error::KdfFail || (e == Error::SecretBoxOpenFail && opened_box(
            buf@,
            secret@.nonce,
            derived_key(secret@.password, secret@.salt),
        ) is None),
{
    let key = match secret.key() {
        Some(k) => k,
        None => return Err(Error::KdfFail),
    };
    match secretbox_open(buf, secret.nonce(), &key) {
        Some(p) => Ok(p),
        None => Err(Error::SecretBoxOpenFail),
    }
}

} // verus!
