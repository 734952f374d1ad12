use vstd::prelude::*;

verus! {

/// Exclusive owner of exactly one heap-allocated value of type `T`.
///
/// The owner holds a single non-null address of a live, fully-initialized
/// `T` from construction until destruction, and releases the allocation
/// exactly once, when the owner itself is destroyed or reassigned. That
/// bookkeeping — together with covariance in `T` and a destructor that never
/// reads through a possibly-dangling `T` — is carried by the standard heap
/// box in the private field, so no part of this type needs its own unsafe
/// address arithmetic. What a caller can observe is the owned value, and the
/// contracts below pin it down.
pub struct Boks<T> {
    p: Box<T>,
}

impl<T> Boks<T> {
    /// The owned value: the mathematical model of the box.
    pub closed spec fn value(&self) -> T {
        *self.p
    }

    /// Moves `t` onto a fresh heap allocation and returns its sole owner.
    ///
    /// Allocation failure is fatal, as for the standard heap box; the caller
    /// never observes a failed construction.
    pub fn ny(t: T) -> (r: Self)
        ensures
            r.value() == t,
    {
        Boks { p: Box::new(t) }
    }

    /// Shared dereference: a read-only view of the owned value.
    pub fn read(&self) -> (r: &T)
        ensures
            *r == self.value(),
    {
        &*self.p
    }

    /// Exclusive dereference: a mutable view of the owned value.
    ///
    /// The view starts at the currently owned value, and whatever the caller
    /// leaves in it is the value the box owns once the borrow ends.
    pub fn write(&mut self) -> (r: &mut T)
        ensures
            *r == old(self).value(),
            final(self).value() == *final(r),
    {
        &mut *self.p
    }
}

/// A single-field wrapper around an owned value.
///
/// It stands in for element types whose borrowed data is allowed to end at
/// the very point the enclosing [`Boks`] is destroyed: placing an `Oisann`
/// over a short-lived exclusive borrow inside a `Boks` must be accepted,
/// because the box's destructor only releases its own allocation and
/// delegates to the element's destruction, and never reads the wrapped value.
pub struct Oisann<T>(pub T);

} // verus!
