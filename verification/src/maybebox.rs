//! The tolerant container, [`MaybeBox`].

use crate::slot::Slot;
use vstd::prelude::*;

verus! {

/// `MaybeBox` is a lazily-initialized container with optional read access.
///
/// A `MaybeBox<T>` has exactly two abstract states, reflected in its view
/// `self@: Option<T>`:
/// * uninitialized (`self@ is None`): it does not contain a `T`, and
///   [`get`](MaybeBox::get) returns `None`,
/// * initialized (`self@ == Some(v)`): it does contain a `T`, and
///   [`get`](MaybeBox::get) returns `Some` of a reference to `v`.
///
/// The container is upgraded to the initialized state by the one permitted
/// call to [`lazy_init`](MaybeBox::lazy_init); the value can never be
/// replaced or removed afterwards, except by consuming the whole container
/// with [`into_inner`](MaybeBox::into_inner). Unlike [`FreezeBox`], an
/// empty `MaybeBox` is an ordinary, expected state at the read site:
/// absence is reported as `None`, never treated as an error.
///
/// [`FreezeBox`]: crate::FreezeBox
pub struct MaybeBox<T> {
    slot: Slot<T>,
}

impl<T> View for MaybeBox<T> {
    type V = Option<T>;

    closed spec fn view(&self) -> Option<T> {
        self.slot@
    }
}

impl<T> MaybeBox<T> {
    /// Whether the container is in its initialized state.
    pub open spec fn is_init(self) -> bool {
        self@ is Some
    }

    /// The contained value, meaningful once the container is initialized.
    pub open spec fn value(self) -> T
        recommends
            self.is_init(),
    {
        self@->0
    }

    /// Create a new `MaybeBox` with optional initialization.
    ///
    /// Given `Some(v)`, this is create-empty followed immediately by a
    /// successful initializing write of `v`; given `None`, it is the same
    /// as [`MaybeBox::default`].
    pub fn new(val: Option<T>) -> (r: Self)
        ensures
            r@ == val,
    {
        match val {
            None => Self::const_default(),
            Some(v) => {
                let mut mb = Self::const_default();
                mb.lazy_init(v);
                mb
            },
        }
    }

    /// Create a new, uninitialized `MaybeBox`.
    ///
    /// This is the same as [`MaybeBox::default`]. It performs no heap
    /// allocation and runs no code beyond building the empty value, which
    /// suits process-wide singleton containers that are shared first and
    /// initialized later.
    pub fn const_default() -> (r: Self)
        ensures
            r@ is None,
    {
        MaybeBox { slot: Slot::empty() }
    }

    /// Initialize a `MaybeBox`.
    ///
    /// This is the single permitted empty-to-filled transition: it moves
    /// `val` onto the heap and fills the container's slot with it. The
    /// container must not already be initialized; a second initialization
    /// of the same container is a caller error and is excluded by the
    /// precondition.
    pub fn lazy_init(&mut self, val: T)
        requires
            !old(self).is_init(),
        ensures
            final(self)@ == Some(val),
            crate::protocol::write_step(old(self)@, final(self)@, val),
    {
        self.slot.fill(val);
    }

    /// Try to get a reference to the data in the `MaybeBox`.
    ///
    /// Returns `Some` of a reference to the contained value if the
    /// container is initialized, and `None` otherwise.
    pub fn get(&self) -> (r: Option<&T>)
        ensures
            r is Some <==> self.is_init(),
            r matches Some(t) ==> *t == self.value(),
    {
        self.slot.try_borrow()
    }

    /// Test whether a `MaybeBox` is initialized: a non-blocking snapshot
    /// that reflects the true state of the container at the time of the
    /// call.
    pub fn is_initialized(&self) -> (r: bool)
        ensures
            r == self.is_init(),
    {
        self.slot.is_filled()
    }

    /// Consume the `MaybeBox` and return its contents.
    ///
    /// Returns `Some` of the written value if the container was
    /// initialized, and `None` otherwise. Ownership of the value moves to
    /// the caller, and the container's own teardown no longer sees it, so
    /// the value is not destroyed a second time.
    pub fn into_inner(self) -> (r: Option<T>)
        ensures
            r == self@,
    {
        self.slot.extract()
    }
}

/// Tolerant query around the write: before any write a `MaybeBox` is
/// uninitialized, so [`MaybeBox::get`] is specified to report absence;
/// once the initializing write has fired, the container is initialized
/// and the query is specified to report presence of exactly the written
/// value.
pub proof fn lemma_query_after_write<T>(pre: MaybeBox<T>, post: MaybeBox<T>, val: T)
    requires
        crate::protocol::write_step(pre@, post@, val),
    ensures
        !pre.is_init(),
        post.is_init(),
        post.value() == val,
{
}

impl<T: core::ops::Deref> MaybeBox<T> {
    /// Try to get the `Deref::Target` for the data in the `MaybeBox`.
    ///
    /// This is helpful when the caller wants the borrowed view of the
    /// contained value that `T` itself exposes: on a `MaybeBox<String>`,
    /// for example, it returns an `Option<&str>`. An empty container still
    /// cleanly reports absence as `None`; otherwise the result is what
    /// dereferencing the contained value yields.
    pub fn get_as_deref(&self) -> (r: Option<&T::Target>)
        ensures
            r is Some <==> self.is_init(),
            r matches Some(t) ==> T::deref.ensures((&self.value(),), t),
    {
        match self.slot.try_borrow() {
            Some(t) => Some(t.deref()),
            None => None,
        }
    }
}

impl<T> Default for MaybeBox<T> {
    /// Create a new, uninitialized `MaybeBox`.
    fn default() -> (r: Self)
        ensures
            r@ is None,
    {
        Self::const_default()
    }
}

} // verus!
