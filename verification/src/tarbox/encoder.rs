//! Construction side of the container codec: collects payload bytes,
//! then emits the header and the payload as one contiguous buffer.

use vstd::prelude::*;
use crate::tarbox::attributes::{Attributes, AttributesView};
use crate::tarbox::{encode_spec, TARBOX_MAGIC_0, TARBOX_MAGIC_1};
use crate::tarbox::secret::{NONCEBYTES, SALTBYTES};
use crate::util::append_bytes;

verus! {

/// Accumulates the ciphertext to frame, together with the attributes
/// that will stand in the header.
#[derive(Clone, Debug)]
pub struct Encoder {
    inner: Vec<u8>,
    attributes: Attributes,
}

/// The mathematical content of an [`Encoder`].
pub struct EncoderView {
    pub inner: Seq<u8>,
    pub attributes: AttributesView,
}

impl View for Encoder {
    type V = EncoderView;

    closed spec fn view(&self) -> EncoderView {
        EncoderView { inner: self.inner@, attributes: self.attributes@ }
    }
}

impl Encoder {
    /// The held attributes have the widths the format fixes.
    pub open spec fn wf(&self) -> bool {
        self@.attributes.nonce.len() == NONCEBYTES && self@.attributes.salt.len() == SALTBYTES
    }

    /// A fresh encoder holding the given attributes and no payload yet.
    pub fn new(attrs: Attributes) -> (r: Encoder)
        requires
            attrs.wf(),
        ensures
            r@.inner == Seq::<u8>::empty(),
            r@.attributes == attrs@,
            r.wf(),
    {
        Encoder { inner: Vec::new(), attributes: attrs }
    }

    /// Surrenders the held attributes.
    pub fn attributes(self) -> (r: Attributes)
        ensures
            r@ == self@.attributes,
    {
        self.attributes
    }

    /// Appends payload bytes; writes may be split however the caller
    /// likes, order is kept.
    pub fn write(&mut self, buf: &[u8]) -> (n: usize)
        ensures
            final(self)@.inner == old(self)@.inner + buf@,
            final(self)@.attributes == old(self)@.attributes,
            n == buf@.len(),
    {
        let n = buf.len();
        append_bytes(&mut self.inner, buf);
        n
    }

    /// Emits the finished container: magic, version, attribute block,
    /// terminator, payload. Terminal; the encoder is consumed.
    pub fn finish(self) -> (out: Vec<u8>)
        requires
            self.wf(),
        ensures
            out@ == encode_spec(self@.attributes.nonce, self@.attributes.salt, self@.inner),
    {
        let mut out: Vec<u8> = Vec::new();
        out.push(TARBOX_MAGIC_0);
        out.push(TARBOX_MAGIC_1);
        out.push(Attributes::version());

        // Serializing attributes has no error case: to_bytes's
        // contract rules the Err arm out.
        let attrs_data = match self.attributes.to_bytes() {
            Ok(b) => b,
            Err(_) => {
                proof {
                    assert(false);
                }
                Vec::new()
            },
        };
        append_bytes(&mut out, attrs_data.as_slice());
        out.push(0u8);
        append_bytes(&mut out, self.inner.as_slice());
        proof {
            assert(out@ =~= encode_spec(
                self@.attributes.nonce,
                self@.attributes.salt,
                self@.inner,
            ));
        }
        out
    }
}

} // verus!
