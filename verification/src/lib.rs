//! `EmptyBox`: a statically checked two-state handle for moving values out of
//! and back into a `Box`.
//!
//! A `Box<T>` is the *occupied* state: it owns one valid value of type `T`.
//! An `EmptyBox<T>` is the distinct *emptied* state: a handle from which the
//! value has been moved out, so it offers no way to read, copy or drop a `T`.
//! `EmptyBox::take` converts occupied to emptied and hands the contained value
//! to the caller; `EmptyBox::put` consumes a new value and converts back to
//! occupied. Both operations are total: they cannot fail on any well-typed
//! input, and misuse (reading an emptied slot, destroying a value twice) is a
//! compile error rather than a runtime condition.
//!
//! This formulation is built entirely from safe, verified moves, so the
//! emptied state retains no heap allocation: `put` allocates a fresh box
//! rather than reusing the address the value was taken from. Value semantics
//! and destruction semantics are preserved exactly; address reuse is the one
//! guarantee deliberately traded away for a statically memory-safe body.

use vstd::prelude::*;

verus! {

/// The emptied state of a box: a handle standing for a `Box<T>` whose value
/// has been moved out by [`EmptyBox::take`].
///
/// An `EmptyBox<T>` contains no `T` at all, so dropping it, with or without a
/// prior [`EmptyBox::put`], never runs `T`'s destructor: the value extracted
/// by `take` is destroyed exactly once, by whoever owns it. The field is
/// private, so the only way to obtain an `EmptyBox` is through `take`, and
/// the only ways to dispose of one are `put` and dropping it.
pub struct EmptyBox<T> {
    marker: core::marker::PhantomData<T>,
}

impl<T> EmptyBox<T> {
    /// Move the value out of the box, returning it together with the
    /// emptied handle that stands for the now-vacant slot.
    ///
    /// Total: succeeds on every input, and the returned value is exactly the
    /// box's former contents, now owned by the caller.
    pub fn take(bx: Box<T>) -> (r: (T, EmptyBox<T>))
        ensures
            r.0 == bx,
    {
        let t = *bx;
        (t, EmptyBox { marker: core::marker::PhantomData })
    }

    /// Consume the emptied handle and a new value, returning an occupied box
    /// that holds exactly that value.
    ///
    /// Total: succeeds on every input. The result behaves in every way like a
    /// freshly built `Box` containing `t`, including dropping `t` exactly
    /// once when the box is dropped. No destructor runs for the value that
    /// was taken out earlier: this handle does not contain it.
    pub fn put(self, t: T) -> (r: Box<T>)
        ensures
            *r == t,
    {
        Box::new(t)
    }
}

} // verus!
