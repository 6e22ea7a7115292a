//! The strict container, [`FreezeBox`].

use crate::slot::Slot;
use vstd::prelude::*;

verus! {

/// `FreezeBox` is a lazily-initialized container with strict read access.
///
/// A `FreezeBox<T>` has exactly two abstract states, reflected in its view
/// `self@: Option<T>`:
/// * uninitialized (`self@ is None`): reading is not allowed,
/// * initialized (`self@ == Some(v)`): [`deref`](FreezeBox::deref) yields
///   a reference to `v`.
///
/// The container is upgraded to the initialized state by the one permitted
/// call to [`lazy_init`](FreezeBox::lazy_init); the value can never be
/// replaced or removed afterwards, except by consuming the whole container
/// with [`into_inner`](FreezeBox::into_inner). Reading an uninitialized
/// `FreezeBox` is a caller error, not a data condition, so
/// [`deref`](FreezeBox::deref) requires the container to be initialized
/// instead of reporting absence.
pub struct FreezeBox<T> {
    slot: Slot<T>,
}

impl<T> View for FreezeBox<T> {
    type V = Option<T>;

    closed spec fn view(&self) -> Option<T> {
        self.slot@
    }
}

impl<T> FreezeBox<T> {
    /// Whether the container is in its initialized state.
    pub open spec fn is_init(self) -> bool {
        self@ is Some
    }

    /// The contained value, meaningful once the container is initialized.
    pub open spec fn value(self) -> T
        recommends
            self.is_init(),
    {
        self@->0
    }

    /// Create a new `FreezeBox` with optional initialization.
    ///
    /// Given `Some(v)`, this is create-empty followed immediately by a
    /// successful initializing write of `v`; given `None`, it is the same
    /// as [`FreezeBox::default`].
    pub fn new(val: Option<T>) -> (r: Self)
        ensures
            r@ == val,
    {
        match val {
            None => Self::const_default(),
            Some(v) => {
                let mut fb = Self::const_default();
                fb.lazy_init(v);
                fb
            },
        }
    }

    /// Create a new, uninitialized `FreezeBox`.
    ///
    /// This is the same as [`FreezeBox::default`]. It performs no heap
    /// allocation and runs no code beyond building the empty value, which
    /// suits process-wide singleton containers that are shared first and
    /// initialized later.
    pub fn const_default() -> (r: Self)
        ensures
            r@ is None,
    {
        FreezeBox { slot: Slot::empty() }
    }

    /// Initialize a `FreezeBox`.
    ///
    /// This is the single permitted empty-to-filled transition: it moves
    /// `val` onto the heap and fills the container's slot with it. The
    /// container must not already be initialized; a second initialization
    /// of the same container is a caller error and is excluded by the
    /// precondition.
    pub fn lazy_init(&mut self, val: T)
        requires
            !old(self).is_init(),
        ensures
            final(self)@ == Some(val),
            crate::protocol::write_step(old(self)@, final(self)@, val),
    {
        self.slot.fill(val);
    }

    /// Get a reference to the contained value.
    ///
    /// The reference is valid for as long as the caller borrows the
    /// container; the container retains ownership of the value. Reading an
    /// uninitialized `FreezeBox` is a logic bug at the read site, so the
    /// container must be initialized.
    pub fn deref(&self) -> (r: &T)
        requires
            self.is_init(),
        ensures
            *r == self.value(),
    {
        self.slot.borrow()
    }

    /// Test whether a `FreezeBox` is initialized: a non-blocking snapshot
    /// that reflects the true state of the container at the time of the
    /// call. A `true` result lets a caller avoid a forbidden strict read.
    pub fn is_initialized(&self) -> (r: bool)
        ensures
            r == self.is_init(),
    {
        self.slot.is_filled()
    }

    /// Consume the `FreezeBox` and return its contents.
    ///
    /// Returns `Some` of the written value if the container was
    /// initialized, and `None` otherwise. Ownership of the value moves to
    /// the caller, and the container's own teardown no longer sees it, so
    /// the value is not destroyed a second time.
    pub fn into_inner(self) -> (r: Option<T>)
        ensures
            r == self@,
    {
        self.slot.extract()
    }
}

/// Strict read after a successful write: once the initializing write has
/// fired on a `FreezeBox`, the strict read's precondition holds from then
/// on, and the value [`FreezeBox::deref`] is specified to return is
/// exactly the written one — a strict read after a successful write never
/// fails and never observes anything but the written value.
pub proof fn lemma_strict_read_after_write<T>(pre: FreezeBox<T>, post: FreezeBox<T>, val: T)
    requires
        crate::protocol::write_step(pre@, post@, val),
    ensures
        post.is_init(),
        post.value() == val,
{
}

impl<T> Default for FreezeBox<T> {
    /// Create a new, uninitialized `FreezeBox`.
    fn default() -> (r: Self)
        ensures
            r@ is None,
    {
        Self::const_default()
    }
}

} // verus!
