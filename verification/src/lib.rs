//! Lazily-initialized, write-once containers.
//!
//! This crate offers two container types built on one shared primitive, a
//! write-once slot that is either empty or owns a single heap-allocated
//! value:
//!
//! * [`FreezeBox`]: a strict container. Reading assumes the value is
//!   present; reading an empty `FreezeBox` is a caller error, excluded by
//!   the read's precondition.
//! * [`MaybeBox`]: a tolerant container. Reading returns an optional
//!   reference, and absence is an ordinary, expected outcome.
//!
//! Both containers admit exactly one initializing write over their whole
//! lifetime. Every operation carries a contract over the container's
//! abstract state, an `Option` of the element type, and the one-shot
//! write protocol itself is stated and proved in [`protocol`].

mod freezebox;
mod maybebox;
pub mod protocol;
mod slot;

pub use freezebox::FreezeBox;
pub use maybebox::MaybeBox;
