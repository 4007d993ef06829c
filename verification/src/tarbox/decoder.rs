//! Parse side of the container codec: one linear pass over an
//! in-memory buffer, checking magic, version, attribute width and the
//! terminator byte, in that order, never reading out of bounds.

use vstd::prelude::*;
use crate::tarbox::attributes::{Attributes, AttributesView};
use crate::tarbox::errors::TarboxError;
use crate::tarbox::secret::{NONCEBYTES, SALTBYTES};
use crate::tarbox::{
    decode_err, decode_ok, decoded_nonce, decoded_payload, decoded_salt, HEADER_LEN,
    TARBOX_MAGIC_0, TARBOX_MAGIC_1,
};
use crate::util::{copy_bytes, vec_subrange};

verus! {

/// Holds what a well-formed container was parsed into: the wrapped
/// payload and the header's attributes.
#[derive(Clone, Debug)]
pub struct Decoder {
    inner: Vec<u8>,
    attrs: Attributes,
}

/// The mathematical content of a [`Decoder`].
pub struct DecoderView {
    pub inner: Seq<u8>,
    pub attrs: AttributesView,
}

impl View for Decoder {
    type V = DecoderView;

    closed spec fn view(&self) -> DecoderView {
        DecoderView { inner: self.inner@, attrs: self.attrs@ }
    }
}

impl Decoder {
    /// Parses a container buffer. Succeeds exactly on well-formed
    /// containers; a buffer shorter than any field it has to read next
    /// fails cleanly with a size error, a wrong magic or version or
    /// terminator byte with the matching error.
    pub fn new(inner: Vec<u8>) -> (r: Result<Decoder, TarboxError>)
        ensures
            decode_ok(inner@) ==> (r matches Ok(d)
                && d@.inner == decoded_payload(inner@)
                && d@.attrs.nonce == decoded_nonce(inner@)
                && d@.attrs.salt == decoded_salt(inner@)
                && d@.attrs.nonce.len() == NONCEBYTES
                && d@.attrs.salt.len() == SALTBYTES),
            !decode_ok(inner@) ==> r == Err::<Decoder, TarboxError>(decode_err(inner@)),
    {
        let len = inner.len();
        if len < 2 {
            return Err(TarboxError::SourceTooSmall(HEADER_LEN, len));
        }
        if inner[0] != TARBOX_MAGIC_0 || inner[1] != TARBOX_MAGIC_1 {
            return Err(TarboxError::HeaderMismatch(
                TARBOX_MAGIC_0,
                TARBOX_MAGIC_1,
                inner[0],
                inner[1],
            ));
        }
        if len < 3 {
            return Err(TarboxError::SourceTooSmall(HEADER_LEN, len));
        }
        if inner[2] != Attributes::version() {
            return Err(TarboxError::VersionMismatch(Attributes::version(), inner[2]));
        }
        if len < HEADER_LEN {
            return Err(TarboxError::SourceTooSmall(HEADER_LEN, len));
        }
        let terminator = inner[HEADER_LEN - 1];
        if terminator != 0 {
            return Err(TarboxError::ExpectedNullByte(terminator));
        }

        // The slice has exactly the fixed attribute width, so
        // from_bytes's contract rules the Err arm out.
        let attrs_data = vec_subrange(&inner, 3, 3 + Attributes::attr_block_size());
        let attrs = match Attributes::from_bytes(attrs_data) {
            Ok(a) => a,
            Err(e) => {
                proof {
                    assert(false);
                }
                return Err(e);
            },
        };
        let payload = vec_subrange(&inner, HEADER_LEN, len);
        proof {
            assert(attrs@.nonce =~= decoded_nonce(inner@));
            assert(attrs@.salt =~= decoded_salt(inner@));
        }
        Ok(Decoder { inner: payload, attrs })
    }

    pub fn attributes(&self) -> (r: &Attributes)
        ensures
            r@ == self@.attrs,
    {
        &self.attrs
    }

    /// Surrenders the header's attributes.
    pub fn attributes_into(self) -> (r: Attributes)
        ensures
            r@ == self@.attrs,
    {
        self.attrs
    }

    /// Takes the wrapped payload out, leaving the decoder empty.
    pub fn read_to_end(&mut self) -> (out: Vec<u8>)
        ensures
            out@ == old(self)@.inner,
            final(self)@.inner == Seq::<u8>::empty(),
            final(self)@.attrs == old(self)@.attrs,
    {
        let out = copy_bytes(&self.inner);
        self.inner.clear();
        out
    }
}

} // verus!
