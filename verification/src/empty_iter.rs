use core::marker::PhantomData;
use vstd::prelude::*;

verus! {

/// A stateless sequence producer that never yields a value.
///
/// It is generic over the element type `T` yet never holds, produces or
/// destroys a `T`, so its only field is a zero-sized marker, covariant in
/// `T`, and the type declares no destructor of its own. A producer like
/// this must not be conflated with a type that really owns and drops its
/// element (as [`crate::boks::Boks`] does): assigning its covariant
/// "no value" result into a slot typed for a shorter-lived element can
/// otherwise appear to extend the lifetime of an unrelated live borrow.
pub struct EmptyIterator<T> {
    _t: PhantomData<T>,
}

impl<T> EmptyIterator<T> {
    /// The one value of this stateless type.
    pub closed spec fn spec_default() -> Self {
        EmptyIterator { _t: PhantomData }
    }

    /// Produces the next element of the sequence: there never is one.
    pub fn next(&mut self) -> (r: Option<T>)
        ensures
            r is None,
            *final(self) == *old(self),
    {
        None
    }
}

impl<T> Default for EmptyIterator<T> {
    /// Produces the producer in its (only) starting state.
    fn default() -> (r: Self)
        ensures
            r == EmptyIterator::<T>::spec_default(),
    {
        EmptyIterator { _t: PhantomData }
    }
}

} // verus!
