//! The attribute block of a container header: the nonce and the
//! key-derivation salt, stored raw, one after the other.

use vstd::prelude::*;
use crate::tarbox::errors::TarboxError;
use crate::tarbox::secret::{TarboxSecret, NONCEBYTES, SALTBYTES};
use crate::util::{copy_bytes, vec_subrange};

verus! {

/// The attribute layout version this build implements.
pub const VERSION: u8 = 0x1;

/// The metadata persisted in a container header: the nonce the payload
/// was encrypted under and the salt its key was derived with.
#[derive(Clone, Debug)]
pub struct Attributes {
    nonce: Vec<u8>,
    salt: Vec<u8>,
}

/// The mathematical content of an [`Attributes`] value.
pub struct AttributesView {
    pub nonce: Seq<u8>,
    pub salt: Seq<u8>,
}

impl View for Attributes {
    type V = AttributesView;

    closed spec fn view(&self) -> AttributesView {
        AttributesView { nonce: self.nonce@, salt: self.salt@ }
    }
}

impl Attributes {
    /// Both byte strings have exactly the width the format fixes.
    pub open spec fn wf(&self) -> bool {
        self@.nonce.len() == NONCEBYTES && self@.salt.len() == SALTBYTES
    }

    pub fn new(crypto_nonce: Vec<u8>, kdf_salt: Vec<u8>) -> (r: Attributes)
        requires
            crypto_nonce@.len() == NONCEBYTES,
            kdf_salt@.len() == SALTBYTES,
        ensures
            r@.nonce == crypto_nonce@,
            r@.salt == kdf_salt@,
            r.wf(),
    {
        Attributes { nonce: crypto_nonce, salt: kdf_salt }
    }

    /// Attributes holding all-zero bytes, of the fixed widths.
    pub fn empty() -> (r: Attributes)
        ensures
            r@.nonce == Seq::new(NONCEBYTES as nat, |i: int| 0u8),
            r@.salt == Seq::new(SALTBYTES as nat, |i: int| 0u8),
            r.wf(),
    {
        let nonce: Vec<u8> = vec![0u8; NONCEBYTES];
        let salt: Vec<u8> = vec![0u8; SALTBYTES];
        proof {
            assert(nonce@ =~= Seq::new(NONCEBYTES as nat, |i: int| 0u8));
            assert(salt@ =~= Seq::new(SALTBYTES as nat, |i: int| 0u8));
        }
        Attributes { nonce, salt }
    }

    pub fn version() -> (v: u8)
        ensures
            v == VERSION,
    {
        VERSION
    }

    /// The fixed width of the attribute block inside a header.
    pub fn attr_block_size() -> (n: usize)
        ensures
            n == NONCEBYTES + SALTBYTES,
    {
        NONCEBYTES + SALTBYTES
    }

    pub fn nonce(&self) -> (r: &Vec<u8>)
        ensures
            r@ == self@.nonce,
    {
        &self.nonce
    }

    pub fn salt(&self) -> (r: &Vec<u8>)
        ensures
            r@ == self@.salt,
    {
        &self.salt
    }

    /// Parses an attribute block: the nonce, then the salt. A source of
    /// any width other than the fixed one is malformed.
    pub fn from_bytes(source: Vec<u8>) -> (r: Result<Attributes, TarboxError>)
        ensures
            source@.len() == NONCEBYTES + SALTBYTES ==> (r matches Ok(a)
                && a@.nonce == source@.subrange(0, NONCEBYTES as int)
                && a@.salt == source@.subrange(NONCEBYTES as int, (NONCEBYTES + SALTBYTES) as int)
                && a.wf()),
            source@.len() > NONCEBYTES + SALTBYTES ==> r == Err::<Attributes, TarboxError>(
                TarboxError::SourceTooLarge(
                    (NONCEBYTES + SALTBYTES) as usize,
                    source@.len() as usize,
                ),
            ),
            source@.len() < NONCEBYTES + SALTBYTES ==> r == Err::<Attributes, TarboxError>(
                TarboxError::SourceTooSmall(
                    (NONCEBYTES + SALTBYTES) as usize,
                    source@.len() as usize,
                ),
            ),
    {
        let expected: usize = NONCEBYTES + SALTBYTES;
        let actual: usize = source.len();
        if actual > expected {
            return Err(TarboxError::SourceTooLarge(expected, actual));
        }
        if actual < expected {
            return Err(TarboxError::SourceTooSmall(expected, actual));
        }

        let nonce = vec_subrange(&source, 0, NONCEBYTES);
        let salt = vec_subrange(&source, NONCEBYTES, expected);
        Ok(Attributes::new(nonce, salt))
    }

    /// Serializes the attribute block: the nonce, then the salt.
    pub fn to_bytes(&self) -> (r: Result<Vec<u8>, TarboxError>)
        ensures
            r matches Ok(b) && b@ == self@.nonce + self@.salt,
    {
        let mut b: Vec<u8> = Vec::new();
        crate::util::append_bytes(&mut b, self.nonce.as_slice());
        crate::util::append_bytes(&mut b, self.salt.as_slice());
        proof {
            assert(b@ =~= self@.nonce + self@.salt);
        }
        Ok(b)
    }

    /// The attributes a secret would write into a header: its nonce and
    /// its salt.
    pub fn from_secret(s: &TarboxSecret) -> (r: Attributes)
        requires
            s.wf(),
        ensures
            r@.nonce == s@.nonce,
            r@.salt == s@.salt,
            r.wf(),
    {
        Attributes { nonce: copy_bytes(s.nonce()), salt: copy_bytes(s.salt()) }
    }
}

} // verus!
