use vstd::prelude::*;
use vstd::slice::slice_subrange;

use std::borrow::Cow;

use crate::error::Error;

verus! {

/// A read-only memory mapping declared for the verifier; values of it are
/// opaque and are read only through [`mmap_as_slice`].
#[verifier::external_type_specification]
#[verifier::external_body]
pub struct ExMmap(memmap::Mmap);

/// The bytes that a memory mapping exposes. A mapping is immutable for its
/// whole lifetime, so its contents are a function of the value alone.
pub uninterp spec fn mmap_bytes(m: memmap::Mmap) -> Seq<u8>;

/// Relies on memmap's `Deref<Target = [u8]>` impl for `Mmap`: a mapped
/// region reads as an ordinary immutable byte slice covering the whole
/// mapping.
#[verifier::external_body]
fn mmap_as_slice(m: &memmap::Mmap) -> (r: &[u8])
    ensures
        r@ == mmap_bytes(*m),
{
    m
}

/// Gives access to bytes loaded from somewhere.
///
/// This type can be used to uniformly access bytes that were created
/// either from mapping in a path, a vector or a borrowed slice.
pub enum ByteView<'a> {
    /// An owned or borrowed contiguous buffer.
    Buf(Cow<'a, [u8]>),
    /// A read-only mapping of a whole file.
    Mmap(memmap::Mmap),
}

impl<'a> View for ByteView<'a> {
    type V = Seq<u8>;

    closed spec fn view(&self) -> Seq<u8> {
        match self {
            ByteView::Buf(cow) => cow@,
            ByteView::Mmap(m) => mmap_bytes(*m),
        }
    }
}

/// The mathematical result of a bounds-checked sub-range read of `len` bytes
/// at offset `start` out of `bytes`: the requested window when it lies within
/// the bytes, and an out-of-range failure otherwise.
pub open spec fn sub_range(bytes: Seq<u8>, start: usize, len: usize) -> Result<Seq<u8>, Error> {
    if start + len <= bytes.len() {
        Ok(bytes.subrange(start as int, start + len))
    } else {
        Err(Error::OutOfRange)
    }
}

impl<'a> ByteView<'a> {
    /// Constructs a byte view from a cow.
    pub fn from_cow(cow: Cow<'a, [u8]>) -> (r: ByteView<'a>)
        ensures
            r@ == cow@,
    {
        ByteView::Buf(cow)
    }

    /// Constructs a byte view from a borrowed byte slice.
    pub fn from_slice(buffer: &'a [u8]) -> (r: ByteView<'a>)
        ensures
            r@ == buffer@,
    {
        ByteView::from_cow(Cow::Borrowed(buffer))
    }

    /// Constructs a byte view from an owned vector.
    pub fn from_vec(buffer: Vec<u8>) -> (r: ByteView<'static>)
        ensures
            r@ == buffer@,
    {
        ByteView::from_cow(Cow::Owned(buffer))
    }

    /// A safe way to get a subslice from the byte view: fails with an
    /// out-of-range error whenever `start + len` (computed without
    /// wrapping) exceeds the total length, and returns exactly the bytes
    /// `start .. start + len` otherwise.
    pub fn get_data(&self, start: usize, len: usize) -> (r: Result<&[u8], Error>)
        ensures
            start + len <= self@.len() ==> (r matches Ok(s) && s@ == self@.subrange(
                start as int,
                start + len,
            )),
            start + len > self@.len() ==> r == Err::<&[u8], Error>(Error::OutOfRange),
            r matches Ok(s) ==> sub_range(self@, start, len) == Ok::<Seq<u8>, Error>(s@),
            r matches Err(e) ==> sub_range(self@, start, len) == Err::<Seq<u8>, Error>(e),
    {
        let buffer = self.buffer();
        if start > buffer.len() || len > buffer.len() - start {
            Err(Error::OutOfRange)
        } else {
            Ok(slice_subrange(buffer, start, start + len))
        }
    }

    /// The whole object seen as one byte slice.
    pub fn as_slice(&self) -> (r: &[u8])
        ensures
            r@ == self@,
    {
        self.buffer()
    }

    fn buffer(&self) -> (r: &[u8])
        ensures
            r@ == self@,
    {
        match self {
            ByteView::Buf(Cow::Borrowed(buffer)) => buffer,
            ByteView::Buf(Cow::Owned(buffer)) => buffer.as_slice(),
            ByteView::Mmap(m) => mmap_as_slice(m),
        }
    }
}

/// Byte views over equal byte sequences behave identically under sub-range
/// reads: the outcome of a read depends on the byte contents alone, never on
/// the source the bytes came from.
pub proof fn lemma_equal_bytes_equal_reads(b1: Seq<u8>, b2: Seq<u8>, start: usize, len: usize)
    requires
        b1 == b2,
    ensures
        sub_range(b1, start, len) == sub_range(b2, start, len),
{
}

/// A zero-length read at the very end of the bytes is within bounds: it
/// succeeds and returns the empty sequence.
pub proof fn lemma_empty_tail_read(bytes: Seq<u8>, start: usize)
    requires
        start == bytes.len(),
    ensures
        sub_range(bytes, start, 0) == Ok::<Seq<u8>, Error>(Seq::<u8>::empty()),
{
    assert(bytes.subrange(start as int, start as int) =~= Seq::<u8>::empty());
}

} // verus!
