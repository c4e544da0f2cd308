use vstd::prelude::*;

verus! {

/// The ways a byte-view operation can fail.
///
/// Every fallible operation reports through this type: opening or mapping a
/// file can fail with [`Error::Io`], and a sub-range request whose end lies
/// past the underlying bytes fails with [`Error::OutOfRange`]. Transformation
/// functions handed to the backing combinator carry their own failure type,
/// which is propagated unchanged.
#[derive(Debug, Clone, Copy, PartialEq, Eq, Structural)]
pub enum Error {
    /// A file could not be opened or mapped.
    Io,
    /// A requested sub-range lies outside the underlying bytes.
    OutOfRange,
}

} // verus!
