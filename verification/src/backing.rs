use vstd::prelude::*;

use crate::view::ByteView;

verus! {

/// Holds whenever `f` can be called on any slice holding exactly `bytes`.
pub open spec fn transform_callable_on<T, E, F: FnOnce(&[u8]) -> Result<T, E>>(
    f: F,
    bytes: Seq<u8>,
) -> bool {
    forall|s: &[u8]| s@ == bytes ==> #[trigger] call_requires(f, (s,))
}

/// Holds when some call of `f` on a slice holding exactly `bytes` may return
/// `out`.
pub open spec fn transform_may_return<T, E, F: FnOnce(&[u8]) -> Result<T, E>>(
    f: F,
    bytes: Seq<u8>,
    out: Result<T, E>,
) -> bool {
    exists|s: &[u8]| s@ == bytes && #[trigger] call_ensures(f, (s,), out)
}

/// Packages a [`ByteView`] together with a value computed from its bytes, so
/// that the bytes and the derived value are stored as one unit, queried
/// together, and dropped together.
pub struct ByteViewBacking<'a, T> {
    view: ByteView<'a>,
    value: T,
}

impl<'a, T> ByteViewBacking<'a, T> {
    /// The bytes the unit is backed by.
    pub closed spec fn bytes(&self) -> Seq<u8> {
        self.view@
    }

    /// The value that was derived from the bytes.
    pub closed spec fn value(&self) -> T {
        self.value
    }

    /// Takes ownership of `byteview` and calls `f` exactly once on its byte
    /// slice. On success the bytes and the produced value are returned as one
    /// unit; a failure of `f` is propagated unchanged and no unit exists.
    pub fn new<E, F: FnOnce(&[u8]) -> Result<T, E>>(byteview: ByteView<'a>, f: F) -> (r: Result<
        ByteViewBacking<'a, T>,
        E,
    >)
        requires
            transform_callable_on(f, byteview@),
        ensures
            r matches Ok(backing) ==> backing.bytes() == byteview@ && transform_may_return(
                f,
                byteview@,
                Ok::<T, E>(backing.value()),
            ),
            r matches Err(e) ==> transform_may_return(f, byteview@, Err::<T, E>(e)),
    {
        let result = f(byteview.as_slice());
        match result {
            Ok(value) => Ok(ByteViewBacking { view: byteview, value }),
            Err(e) => Err(e),
        }
    }

    /// The raw bytes the unit was built over.
    pub fn as_bytes(&self) -> (r: &[u8])
        ensures
            r@ == self.bytes(),
    {
        self.view.as_slice()
    }

    /// A reference to the derived value.
    pub fn get_value(&self) -> (r: &T)
        ensures
            *r == self.value(),
    {
        &self.value
    }
}

} // verus!
