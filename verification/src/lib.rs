//! Forbid chosen values from staying alive across a suspension point.
//!
//! Two pieces work together. The [`Anchored`] wrapper marks a value that must
//! not survive into the state of a suspended computation; the marker trait
//! [`Unanchored`] names the capability that such a state must have. A
//! source-to-source step (the signature transform in [`transform`]) takes an
//! asynchronous function and emits, next to it, a never-called verification
//! function whose only purpose is to make the host compiler evaluate the
//! capability for that function's generated state.
//!
//! The check the emitted code triggers follows lexical scope, not ownership:
//! a wrapped value whose scope closes before the suspension point passes,
//! while one that is merely dropped before it still fails. That imprecision
//! comes with the host compiler's inference and is part of the contract, not
//! something the transform tries to repair.

pub mod anchored;
pub mod parse;
pub mod render;
pub mod sig;
pub mod transform;

pub use crate::anchored::Anchored;
pub use crate::anchored::Unanchored;
