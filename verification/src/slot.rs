//! The shared write-once slot primitive.
//!
//! A [`Slot`] is the sole piece of state of every container in this crate:
//! a location that is either empty or owns one heap-allocated value. A slot
//! is created empty, is filled at most once, and never returns to the empty
//! state while it is alive. Encapsulating the owning storage here keeps the
//! "fill at most once, reclaim at most once" discipline in a single place;
//! the containers only delegate to these operations.

use vstd::prelude::*;

verus! {

/// A write-once owning slot: empty, or the owner of one boxed value.
///
/// The abstract state (the view) is an `Option<T>`: `None` while the slot
/// is empty, `Some(v)` once it has been filled with `v`.
pub(crate) struct Slot<T> {
    inner: Option<Box<T>>,
}

impl<T> View for Slot<T> {
    type V = Option<T>;

    closed spec fn view(&self) -> Option<T> {
        match self.inner {
            Some(b) => Some(*b),
            None => None,
        }
    }
}

impl<T> Slot<T> {
    /// Create an empty slot. No heap allocation takes place.
    pub(crate) fn empty() -> (s: Self)
        ensures
            s@ is None,
    {
        Slot { inner: None }
    }

    /// The single permitted transition: fill an empty slot with `val`,
    /// moving the value onto the heap. The slot must still be empty.
    pub(crate) fn fill(&mut self, val: T)
        requires
            old(self)@ is None,
        ensures
            final(self)@ == Some(val),
    {
        self.inner = Some(Box::new(val));
    }

    /// Snapshot of the slot's state: `true` exactly when it is filled.
    pub(crate) fn is_filled(&self) -> (r: bool)
        ensures
            r == (self@ is Some),
    {
        self.inner.is_some()
    }

    /// Borrow the contained value. The slot must be filled.
    pub(crate) fn borrow(&self) -> (r: &T)
        requires
            self@ is Some,
        ensures
            *r == self@->0,
    {
        &**self.inner.as_ref().unwrap()
    }

    /// Borrow the contained value if there is one.
    pub(crate) fn try_borrow(&self) -> (r: Option<&T>)
        ensures
            r is Some <==> self@ is Some,
            r matches Some(t) ==> *t == self@->0,
    {
        match &self.inner {
            Some(b) => Some(&**b),
            None => None,
        }
    }

    /// Consume the slot and move the contained value out, if any. The
    /// heap allocation is released; the value itself is handed to the
    /// caller instead of being destroyed with the slot.
    pub(crate) fn extract(self) -> (r: Option<T>)
        ensures
            r == self@,
    {
        match self.inner {
            Some(b) => Some(*b),
            None => None,
        }
    }
}

} // verus!
