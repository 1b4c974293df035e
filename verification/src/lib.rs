//! Write-only views of mutable references.
//!
//! Many functions take a mutable reference that they only ever write to.
//! This crate lets such a function say so in its signature:
//!
//! - The [`WriteRef`] trait provides a single method, [`write`](WriteRef::write),
//!   which replaces the referenced value. It is implemented only for `&mut T`.
//!   By taking a generic parameter with the `WriteRef` bound, a function lets
//!   callers pass a plain mutable reference while guaranteeing that it can only
//!   overwrite the referent, never read it.
//! - The [`WriteSlice`] trait works the same way for slices: its single method
//!   [`write_elem`](WriteSlice::write_elem) replaces one element. It is
//!   implemented only for `&mut [T]`.
//!
//! Both traits are sealed, so no other type can pose as a write-only handle.

use vstd::prelude::*;

mod sealed;

verus! {

/// Represents a write-only reference.
///
/// This trait is implemented for all `&mut T` and for nothing else (it is
/// sealed). To guarantee that a function only writes to a reference, use this
/// trait as a generic bound.
///
/// In specifications, [`stored`](WriteRef::stored) is the value the referenced
/// location holds at the moment the handle is inspected; it is a ghost
/// observer only, with no executable counterpart.
pub trait WriteRef: Sized + sealed::Sealed {
    /// The inner type.
    type To;

    /// The value the referenced location currently holds.
    spec fn stored(self) -> Self::To;

    /// Write a value of type `To` to this reference.
    ///
    /// The previous content of the location is discarded; afterwards the
    /// location holds exactly the written value.
    fn write(&mut self, t: Self::To)
        ensures
            (*final(self)).stored() == t,
    ;
}

/// The sole implementation of `WriteRef`.
impl<'a, T: 'a> WriteRef for &'a mut T {
    type To = T;

    open spec fn stored(self) -> T {
        *self
    }

    fn write(&mut self, t: T)
        // Writing through the handle never redirects the borrow: the value the
        // location settles to once the handle expires is the same prophecy
        // before and after the call. This speaks of `final` of the concrete
        // reference, so it stands on the impl rather than on the trait.
        ensures
            *final(*final(self)) == *final(*old(self)),
    {
        **self = t;
    }
}

/// Represents a write-only slice.
///
/// This trait is implemented for all `&mut [T]` and for nothing else (it is
/// sealed). To guarantee that a function only writes to a slice, use this
/// trait as a generic bound.
pub trait WriteSlice: Sized + sealed::SealedSlice {
    /// The elements of the write-only slice.
    type Of;

    /// The elements the referenced slice currently holds.
    spec fn stored_elems(self) -> Seq<Self::Of>;

    /// Write to an element of the slice.
    ///
    /// The index must be in bounds; an out-of-range index is a caller bug and
    /// aborts the program rather than succeeding silently.
    fn write_elem(&mut self, idx: usize, t: Self::Of)
        requires
            idx < (*old(self)).stored_elems().len(),
        ensures
            (*final(self)).stored_elems() == (*old(self)).stored_elems().update(idx as int, t),
    ;
}

/// The sole implementation of `WriteSlice`.
impl<'a, T: 'a> WriteSlice for &'a mut [T] {
    type Of = T;

    open spec fn stored_elems(self) -> Seq<T> {
        self@
    }

    fn write_elem(&mut self, idx: usize, t: T)
        // As for `write`: the slice the borrow settles to is the same prophecy
        // before and after the call.
        ensures
            final(*final(self))@ == final(*old(self))@,
    {
        self[idx] = t;
    }
}

/// Replace the value behind `dest` with `value`, through a write-only handle.
///
/// Every exclusive mutable reference converts into a write-only handle, so
/// this never fails, and afterwards the referenced location holds exactly
/// `value`, whatever it held before.
pub fn fill<T: 'static>(mut dest: &mut T, value: T)
    ensures
        *final(dest) == value,
{
    dest.write(value);
}

/// Copy every element of `input` into the front of `output`, through a
/// write-only handle over `output`.
///
/// Afterwards the first `input.len()` elements of `output` equal `input`,
/// element by element; the remaining elements and the length are unchanged.
pub fn copy_buffer<T: Copy + 'static>(input: &[T], mut output: &mut [T])
    requires
        input@.len() <= old(output)@.len(),
    ensures
        final(output)@.len() == old(output)@.len(),
        forall|j: int| 0 <= j < input@.len() ==> final(output)@[j] == input@[j],
        forall|j: int| input@.len() <= j < old(output)@.len() ==> final(output)@[j] == old(output)@[j],
{
    let ghost orig = output;
    let mut i: usize = 0;
    while i < input.len()
        invariant
            i <= input@.len() <= output@.len(),
            output@.len() == orig@.len(),
            final(output)@ == final(orig)@,
            forall|j: int| 0 <= j < i ==> output@[j] == input@[j],
            forall|j: int| i <= j < output@.len() ==> output@[j] == orig@[j],
        decreases input@.len() - i,
    {
        output.write_elem(i, input[i]);
        i += 1;
    }
}

/// Overwrite law: two sequential writes through a handle leave the location
/// holding exactly the second value; the first value is not observable
/// afterwards, through the handle or through the original storage.
pub fn last_write_wins<T: 'static>(mut dest: &mut T, first: T, second: T)
    ensures
        *final(dest) == second,
{
    dest.write(first);
    dest.write(second);
}

} // verus!
