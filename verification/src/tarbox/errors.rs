//! Errors raised while encoding or decoding a tarbox container.

use vstd::prelude::*;

verus! {

/// A failure to parse (or build) a tarbox container.
#[derive(Clone, Debug, PartialEq, Eq)]
pub enum TarboxError {
    /// The byte closing the header was not the expected `0x00`;
    /// carries the byte that was found.
    ExpectedNullByte(u8),
    /// The first two bytes did not match the tarbox magic;
    /// carries the expected pair, then the actual pair.
    HeaderMismatch(u8, u8, u8, u8),
    /// An attribute block was wider than the fixed width;
    /// carries the expected and the actual width.
    SourceTooLarge(usize, usize),
    /// A buffer was too short to hold what had to be read next;
    /// carries the least acceptable width and the actual width.
    SourceTooSmall(usize, usize),
    /// The version byte named an attribute layout this build does not
    /// implement; carries the supported and the actual version.
    VersionMismatch(u8, u8),
}

} // verus!
