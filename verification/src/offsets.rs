//! Offset primitives: builder-local coordinates of objects already written
//! into the growing buffer, and the type-level markers that keep an offset
//! for one type from being read as an offset for another.

use core::marker::PhantomData;
use vstd::prelude::*;

verus! {

/// Capability of a value to serialize itself as a scalar into the growing
/// buffer. The byte-level writer is an outside collaborator of this layer;
/// the capability only fixes which scalar type the buffer sees (`Output`).
pub trait Push {
    type Output;
}

impl Push for u8 {
    type Output = u8;
}

impl Push for u16 {
    type Output = u16;
}

impl Push for u32 {
    type Output = u32;
}

/// A work-in-progress offset: the builder-local coordinate of an object of
/// type `T` that has been fully written into the growing buffer. It is not
/// the final on-buffer encoding; it becomes a resolved forward offset only
/// when a field write consumes it. Until then it is a plain copyable
/// coordinate, valid only for the current write session. The type parameter
/// is load-bearing: an offset for `T` must never be read as one for `U`.
// The fields are public so that the solver knows that equality of
// coordinates implies equality of offsets of the same type.
pub struct WIPOffset<T>(pub u32, pub PhantomData<T>);

impl<T> WIPOffset<T> {
    /// The buffer coordinate this offset stands for.
    pub open spec fn spec_value(self) -> u32 {
        self.0
    }

    pub fn new(value: u32) -> (r: Self)
        ensures
            r.spec_value() == value,
    {
        WIPOffset(value, PhantomData)
    }

    /// Reads the coordinate back; no side effect.
    pub fn value(&self) -> (r: u32)
        ensures
            r == self.spec_value(),
    {
        self.0
    }

    /// The offset for `U` that stands at the same coordinate: what `cast`
    /// returns.
    pub open spec fn spec_cast<U>(self) -> WIPOffset<U> {
        WIPOffset(self.0, PhantomData)
    }

    /// Reinterprets this offset as an offset for `U`, keeping the
    /// coordinate. Used where a variant payload's offset becomes the
    /// payload offset of the union it belongs to.
    pub fn cast<U>(self) -> (r: WIPOffset<U>)
        ensures
            r == self.spec_cast::<U>(),
            r.spec_value() == self.spec_value(),
    {
        WIPOffset(self.0, PhantomData)
    }
}

/// Type-level marker for a homogeneous vector of `T` elements written into
/// the buffer. An offset typed `WIPOffset<Vector<T>>` points at such a
/// vector; the element bytes themselves are owned by the buffer for the
/// lifetime of the write session.
pub struct Vector<'a, T>(PhantomData<&'a T>);

/// Type-level marker for the resolved forward-offset encoding of a written
/// `T`: the on-buffer relative offset a consumer reads, as opposed to the
/// builder-local coordinate a `WIPOffset<T>` holds.
pub struct ForwardsUOffset<T>(PhantomData<T>);

impl<T> Clone for WIPOffset<T> {
    fn clone(&self) -> (r: Self)
        ensures
            r == *self,
    {
        WIPOffset(self.0, PhantomData)
    }
}

impl<T> Copy for WIPOffset<T> {

}

} // verus!
