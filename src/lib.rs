//! Composable bit reinterpretation of fixed-width integers.
//!
//! A chain ([`Bb`]) starts at an integer [`Kind`] and is extended one operation
//! at a time: sign changes, truncation and extension. Each step is checked
//! against the kind produced by the previous one when the chain is built, so
//! applying a well-built chain to a value of its starting kind never fails.
//! Every step maps a value to the value of the new kind that has the same low
//! bits ([`kind::wrap`]).

pub mod kind;
pub mod value;
pub mod error;
pub mod ops;
pub mod chain;
pub mod laws;

pub use chain::Bb;
pub use error::CastError;
pub use kind::{Kind, Width};
pub use ops::{
    AppliedTo, CastSigned, CastUnsigned, Extend128, Extend16, Extend32, Extend64, Identity,
    MkSigned, MkUnsigned, SignFlip, Truncate16, Truncate32, Truncate64, Truncate8,
};
pub use value::Value;
