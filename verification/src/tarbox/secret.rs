//! The secret protecting one container: a password, the nonce the
//! payload is encrypted under, and the salt the key is derived with.
//! The key itself is a pure function of password and salt and is never
//! stored; the nonce and salt are drawn fresh for every seal.

use vstd::prelude::*;
use crate::errors::{Error, SecretField};
use sodiumoxide::crypto::pwhash;
use sodiumoxide::crypto::secretbox;

verus! {

/// Width in bytes of a nonce.
pub const NONCEBYTES: usize = 24;

/// Width in bytes of a key-derivation salt.
pub const SALTBYTES: usize = 32;

/// Width in bytes of a derived symmetric key.
pub const KEYBYTES: usize = 32;

/// The key the password-based KDF derives from a password and a salt,
/// at this library's fixed cost parameters. The KDF is deterministic,
/// so the result is a function of the two inputs alone.
pub uninterp spec fn derived_key(password: Seq<char>, salt: Seq<u8>) -> Seq<u8>;

/// The base64 encoding (standard alphabet, padded) of a byte string.
pub uninterp spec fn b64_of(bytes: Seq<u8>) -> Seq<char>;

/// What base64 decoding returns for a string: the decoded bytes, or
/// nothing if the string is not a valid encoding. A function of the
/// string alone.
pub uninterp spec fn b64_decoded(s: Seq<char>) -> Option<Seq<u8>>;

/// Relies on sodiumoxide's `secretbox::gen_nonce`: a nonce of
/// `NONCEBYTES` bytes from the system's random source.
#[verifier::external_body]
fn gen_nonce_bytes() -> (r: Vec<u8>)
    ensures
        r@.len() == NONCEBYTES,
{
    secretbox::gen_nonce().0.to_vec()
}

/// Relies on sodiumoxide's `pwhash::gen_salt`: a salt of `SALTBYTES`
/// bytes from the system's random source.
#[verifier::external_body]
fn gen_salt_bytes() -> (r: Vec<u8>)
    ensures
        r@.len() == SALTBYTES,
{
    pwhash::gen_salt().0.to_vec()
}

/// Relies on sodiumoxide's `pwhash::derive_key` (scrypt) at the
/// interactive cost parameters: deterministic in the password and the
/// salt, filling a buffer of `KEYBYTES` bytes; it fails only if the
/// primitive itself fails.
#[verifier::external_body]
fn derive_key_bytes(password: &str, salt: &Vec<u8>) -> (r: Option<Vec<u8>>)
    requires
        salt@.len() == SALTBYTES,
    ensures
        r matches Some(k) ==> k@.len() == KEYBYTES && k@ == derived_key(password@, salt@),
{
    let s = pwhash::Salt::from_slice(salt.as_slice())?;
    let mut key = vec![0u8; KEYBYTES];
    let (ops, mem) = (pwhash::OPSLIMIT_INTERACTIVE, pwhash::MEMLIMIT_INTERACTIVE);
    pwhash::derive_key(key.as_mut_slice(), password.as_bytes(), &s, ops, mem).ok()?;
    Some(key)
}

/// Relies on `base64::encode`: the standard encoding is a function of
/// the input bytes alone, and `base64::decode` maps it back to exactly
/// those bytes.
#[verifier::external_body]
fn b64_encode(bytes: &Vec<u8>) -> (r: String)
    ensures
        r@ == b64_of(bytes@),
        b64_decoded(r@) == Some(bytes@),
{
    base64::encode(bytes.as_slice())
}

/// Relies on `base64::decode`: decoding is a function of the input
/// string alone, failing exactly on strings that are not valid
/// encodings.
#[verifier::external_body]
fn b64_decode(s: &str) -> (r: Option<Vec<u8>>)
    ensures
        r matches Some(v) ==> b64_decoded(s@) == Some(v@),
        r is None ==> b64_decoded(s@) is None,
{
    base64::decode(s).ok()
}

/// Decodes a base64-encoded nonce; the decoded bytes must have exactly
/// the fixed nonce width.
pub fn decode_nonce(nonce: String) -> (r: Option<Vec<u8>>)
    ensures
        r matches Some(v) ==> v@.len() == NONCEBYTES && b64_decoded(nonce@) == Some(v@),
        b64_decoded(nonce@) matches Some(b) ==> (b.len() == NONCEBYTES ==> (r matches Some(v)
            && v@ == b)),
{
    match b64_decode(nonce.as_str()) {
        Some(bytes) => {
            if bytes.len() == NONCEBYTES {
                Some(bytes)
            } else {
                None
            }
        },
        None => None,
    }
}

/// Decodes a base64-encoded salt; the decoded bytes must have exactly
/// the fixed salt width.
pub fn decode_salt(salt: String) -> (r: Option<Vec<u8>>)
    ensures
        r matches Some(v) ==> v@.len() == SALTBYTES && b64_decoded(salt@) == Some(v@),
        b64_decoded(salt@) matches Some(b) ==> (b.len() == SALTBYTES ==> (r matches Some(v)
            && v@ == b)),
{
    match b64_decode(salt.as_str()) {
        Some(bytes) => {
            if bytes.len() == SALTBYTES {
                Some(bytes)
            } else {
                None
            }
        },
        None => None,
    }
}

/// Everything needed to encrypt or decrypt one container.
#[derive(Clone, Debug)]
pub struct TarboxSecret {
    password: String,
    nonce: Vec<u8>,
    salt: Vec<u8>,
}

/// The mathematical content of a [`TarboxSecret`].
pub struct TarboxSecretView {
    pub password: Seq<char>,
    pub nonce: Seq<u8>,
    pub salt: Seq<u8>,
}

impl View for TarboxSecret {
    type V = TarboxSecretView;

    closed spec fn view(&self) -> TarboxSecretView {
        TarboxSecretView { password: self.password@, nonce: self.nonce@, salt: self.salt@ }
    }
}

impl TarboxSecret {
    /// The nonce and the salt have the widths the format fixes.
    pub open spec fn wf(&self) -> bool {
        self@.nonce.len() == NONCEBYTES && self@.salt.len() == SALTBYTES
    }

    /// A brand-new secret for sealing one container: the caller's
    /// password, and a fresh random nonce and salt.
    pub fn generate(password: String) -> (s: TarboxSecret)
        ensures
            s@.password == password@,
            s.wf(),
    {
        TarboxSecret { password, nonce: gen_nonce_bytes(), salt: gen_salt_bytes() }
    }

    /// Derives the symmetric key from the password and the salt. The
    /// result is a pure function of those two inputs; `None` only if
    /// the KDF primitive itself fails.
    pub fn key(&self) -> (r: Option<Vec<u8>>)
        requires
            self.wf(),
        ensures
            r matches Some(k) ==> k@.len() == KEYBYTES
                && k@ == derived_key(self@.password, self@.salt),
    {
        derive_key_bytes(self.password.as_str(), &self.salt)
    }

    pub fn password(&self) -> (r: &String)
        ensures
            r@ == self@.password,
    {
        &self.password
    }

    pub fn nonce(&self) -> (r: &Vec<u8>)
        ensures
            r@ == self@.nonce,
    {
        &self.nonce
    }

    pub fn salt(&self) -> (r: &Vec<u8>)
        ensures
            r@ == self@.salt,
    {
        &self.salt
    }

    /// The nonce, base64-encoded for display or transport; decoding the
    /// result gives the nonce back.
    pub fn encoded_nonce(&self) -> (r: String)
        ensures
            r@ == b64_of(self@.nonce),
            b64_decoded(r@) == Some(self@.nonce),
    {
        b64_encode(&self.nonce)
    }

    /// The salt, base64-encoded for display or transport; decoding the
    /// result gives the salt back.
    pub fn encoded_salt(&self) -> (r: String)
        ensures
            r@ == b64_of(self@.salt),
            b64_decoded(r@) == Some(self@.salt),
    {
        b64_encode(&self.salt)
    }
}

/// The mathematical content of a [`TarboxSecretBuilder`].
pub struct TarboxSecretBuilderView {
    pub password: Option<Seq<char>>,
    pub nonce: Option<Seq<u8>>,
    pub salt: Option<Seq<u8>>,
}

/// Collects the three fields of a secret one by one; building checks
/// that none is missing. Used during unseal, where the nonce and salt
/// come out of the container header.
#[derive(Clone, Debug)]
pub struct TarboxSecretBuilder {
    password: Option<String>,
    nonce: Option<Vec<u8>>,
    salt: Option<Vec<u8>>,
}

impl View for TarboxSecretBuilder {
    type V = TarboxSecretBuilderView;

    closed spec fn view(&self) -> TarboxSecretBuilderView {
        TarboxSecretBuilderView {
            password: match self.password {
                Some(p) => Some(p@),
                None => None,
            },
            nonce: match self.nonce {
                Some(n) => Some(n@),
                None => None,
            },
            salt: match self.salt {
                Some(s) => Some(s@),
                None => None,
            },
        }
    }
}

impl TarboxSecretBuilder {
    /// Whatever is already set has the width the format fixes.
    pub open spec fn wf(&self) -> bool {
        &&& (self@.nonce matches Some(n) ==> n.len() == NONCEBYTES)
        &&& (self@.salt matches Some(s) ==> s.len() == SALTBYTES)
    }

    pub fn new() -> (r: TarboxSecretBuilder)
        ensures
            r@.password is None,
            r@.nonce is None,
            r@.salt is None,
            r.wf(),
    {
        TarboxSecretBuilder { password: None, nonce: None, salt: None }
    }

    pub fn password(self, value: String) -> (r: TarboxSecretBuilder)
        requires
            self.wf(),
        ensures
            r@.password == Some(value@),
            r@.nonce == self@.nonce,
            r@.salt == self@.salt,
            r.wf(),
    {
        TarboxSecretBuilder { password: Some(value), nonce: self.nonce, salt: self.salt }
    }

    pub fn nonce(self, value: Vec<u8>) -> (r: TarboxSecretBuilder)
        requires
            self.wf(),
            value@.len() == NONCEBYTES,
        ensures
            r@.password == self@.password,
            r@.nonce == Some(value@),
            r@.salt == self@.salt,
            r.wf(),
    {
        TarboxSecretBuilder { password: self.password, nonce: Some(value), salt: self.salt }
    }

    pub fn salt(self, value: Vec<u8>) -> (r: TarboxSecretBuilder)
        requires
            self.wf(),
            value@.len() == SALTBYTES,
        ensures
            r@.password == self@.password,
            r@.nonce == self@.nonce,
            r@.salt == Some(value@),
            r.wf(),
    {
        TarboxSecretBuilder { password: self.password, nonce: self.nonce, salt: Some(value) }
    }

    /// Builds the secret, failing on the first missing field; no
    /// partially built secret is ever observable.
    pub fn build(self) -> (r: Result<TarboxSecret, Error>)
        requires
            self.wf(),
        ensures
            self@.password is None ==> r == Err::<TarboxSecret, Error>(
                Error::MissingField(SecretField::Password)),
            self@.password is Some && self@.nonce is None ==> r == Err::<TarboxSecret, Error>(
                Error::MissingField(SecretField::Nonce)),
            self@.password is Some && self@.nonce is Some && self@.salt is None ==> r
                == Err::<TarboxSecret, Error>(Error::MissingField(SecretField::Salt)),
            self@.password is Some && self@.nonce is Some && self@.salt is Some ==> (r matches
                Ok(s)
                && Some(s@.password) == self@.password
                && Some(s@.nonce) == self@.nonce
                && Some(s@.salt) == self@.salt
                && s.wf()),
    {
        let password = match self.password {
            Some(p) => p,
            None => return Err(Error::MissingField(SecretField::Password)),
        };
        let nonce = match self.nonce {
            Some(n) => n,
            None => return Err(Error::MissingField(SecretField::Nonce)),
        };
        let salt = match self.salt {
            Some(s) => s,
            None => return Err(Error::MissingField(SecretField::Salt)),
        };
        Ok(TarboxSecret { password, nonce, salt })
    }
}

} // verus!
