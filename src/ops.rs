use vstd::prelude::*;
use crate::error::CastError;
use crate::kind::{Kind, Width, truncate_to, extend_to};
use crate::value::Value;

verus! {

/// An operation of a chain. Whether it applies, and the kind it produces,
/// depend on the input kind alone; its value is always the value of the
/// output kind with the same low bits as its input.
pub trait AppliedTo {
    /// The kind produced from an input of kind `k`, or `None` where the
    /// operation does not apply to `k`.
    spec fn target(&self, k: Kind) -> Option<Kind>;

    /// The kind produced from an input of kind `k`, if the operation applies.
    fn resolve(&self, k: Kind) -> (r: Option<Kind>)
        ensures
            r == self.target(k),
    ;

    /// This operation alone, applied to `v`.
    fn apply(&self, v: Value) -> (r: Result<Value, CastError>)
        ensures
            match self.target(v.kind()) {
                Some(k) => r == Ok::<Value, CastError>(v.reinterpret_spec(k)),
                None => r == Err::<Value, CastError>(CastError::InapplicableOperation),
            },
    {
        match self.resolve(v.kind_of()) {
            Some(k) => Ok(v.reinterpret(k)),
            None => Err(CastError::InapplicableOperation),
        }
    }
}

/// A type with a signed counterpart of the same width.
pub trait MkSigned: Sized {
    spec fn signed_spec(self) -> Self;

    /// The signed counterpart; a signed input is returned as it is.
    fn cast_signed(self) -> (r: Self)
        ensures
            r == self.signed_spec(),
    ;
}

/// A type with an unsigned counterpart of the same width.
pub trait MkUnsigned: Sized {
    spec fn unsigned_spec(self) -> Self;

    /// The unsigned counterpart; an unsigned input is returned as it is.
    fn cast_unsigned(self) -> (r: Self)
        ensures
            r == self.unsigned_spec(),
    ;
}

impl MkSigned for Kind {
    open spec fn signed_spec(self) -> Kind {
        self.with_sign(true)
    }

    fn cast_signed(self) -> (r: Kind) {
        Kind { signed: true, width: self.width }
    }
}

impl MkUnsigned for Kind {
    open spec fn unsigned_spec(self) -> Kind {
        self.with_sign(false)
    }

    fn cast_unsigned(self) -> (r: Kind) {
        Kind { signed: false, width: self.width }
    }
}

impl MkSigned for Value {
    open spec fn signed_spec(self) -> Value {
        self.reinterpret_spec(self.kind().with_sign(true))
    }

    fn cast_signed(self) -> (r: Value) {
        self.reinterpret(self.kind_of().cast_signed())
    }
}

impl MkUnsigned for Value {
    open spec fn unsigned_spec(self) -> Value {
        self.reinterpret_spec(self.kind().with_sign(false))
    }

    fn cast_unsigned(self) -> (r: Value) {
        self.reinterpret(self.kind_of().cast_unsigned())
    }
}

/// Leaves kind and value as they are.
#[derive(Clone, Copy, Debug)]
pub struct Identity;

/// Reads the same bits under the opposite signedness.
#[derive(Clone, Copy, Debug)]
pub struct SignFlip;

/// Reads the same bits as signed; no change on a signed kind.
#[derive(Clone, Copy, Debug)]
pub struct CastSigned;

/// Reads the same bits as unsigned; no change on an unsigned kind.
#[derive(Clone, Copy, Debug)]
pub struct CastUnsigned;

/// Keeps the low 8 bits; applies to wider kinds.
#[derive(Clone, Copy, Debug)]
pub struct Truncate8;

/// Keeps the low 16 bits; applies to wider kinds.
#[derive(Clone, Copy, Debug)]
pub struct Truncate16;

/// Keeps the low 32 bits; applies to wider kinds.
#[derive(Clone, Copy, Debug)]
pub struct Truncate32;

/// Keeps the low 64 bits; applies to wider kinds.
#[derive(Clone, Copy, Debug)]
pub struct Truncate64;

/// Sign or zero extends to 16 bits; applies to narrower kinds.
#[derive(Clone, Copy, Debug)]
pub struct Extend16;

/// Sign or zero extends to 32 bits; applies to narrower kinds.
#[derive(Clone, Copy, Debug)]
pub struct Extend32;

/// Sign or zero extends to 64 bits; applies to narrower kinds.
#[derive(Clone, Copy, Debug)]
pub struct Extend64;

/// Sign or zero extends to 128 bits; applies to narrower kinds.
#[derive(Clone, Copy, Debug)]
pub struct Extend128;

impl AppliedTo for Identity {
    open spec fn target(&self, k: Kind) -> Option<Kind> {
        Some(k)
    }

    fn resolve(&self, k: Kind) -> (r: Option<Kind>) {
        Some(k)
    }
}

impl AppliedTo for SignFlip {
    open spec fn target(&self, k: Kind) -> Option<Kind> {
        Some(k.flip_spec())
    }

    fn resolve(&self, k: Kind) -> (r: Option<Kind>) {
        Some(k.flipped())
    }
}

impl AppliedTo for CastSigned {
    open spec fn target(&self, k: Kind) -> Option<Kind> {
        Some(k.signed_spec())
    }

    fn resolve(&self, k: Kind) -> (r: Option<Kind>) {
        Some(k.cast_signed())
    }
}

impl AppliedTo for CastUnsigned {
    open spec fn target(&self, k: Kind) -> Option<Kind> {
        Some(k.unsigned_spec())
    }

    fn resolve(&self, k: Kind) -> (r: Option<Kind>) {
        Some(k.cast_unsigned())
    }
}

impl AppliedTo for Truncate8 {
    open spec fn target(&self, k: Kind) -> Option<Kind> {
        truncate_to(k, Width::W8)
    }

    fn resolve(&self, k: Kind) -> (r: Option<Kind>) {
        k.truncated(Width::W8)
    }
}

impl AppliedTo for Truncate16 {
    open spec fn target(&self, k: Kind) -> Option<Kind> {
        truncate_to(k, Width::W16)
    }

    fn resolve(&self, k: Kind) -> (r: Option<Kind>) {
        k.truncated(Width::W16)
    }
}

impl AppliedTo for Truncate32 {
    open spec fn target(&self, k: Kind) -> Option<Kind> {
        truncate_to(k, Width::W32)
    }

    fn resolve(&self, k: Kind) -> (r: Option<Kind>) {
        k.truncated(Width::W32)
    }
}

impl AppliedTo for Truncate64 {
    open spec fn target(&self, k: Kind) -> Option<Kind> {
        truncate_to(k, Width::W64)
    }

    fn resolve(&self, k: Kind) -> (r: Option<Kind>) {
        k.truncated(Width::W64)
    }
}

impl AppliedTo for Extend16 {
    open spec fn target(&self, k: Kind) -> Option<Kind> {
        extend_to(k, Width::W16)
    }

    fn resolve(&self, k: Kind) -> (r: Option<Kind>) {
        k.extended(Width::W16)
    }
}

impl AppliedTo for Extend32 {
    open spec fn target(&self, k: Kind) -> Option<Kind> {
        extend_to(k, Width::W32)
    }

    fn resolve(&self, k: Kind) -> (r: Option<Kind>) {
        k.extended(Width::W32)
    }
}

impl AppliedTo for Extend64 {
    open spec fn target(&self, k: Kind) -> Option<Kind> {
        extend_to(k, Width::W64)
    }

    fn resolve(&self, k: Kind) -> (r: Option<Kind>) {
        k.extended(Width::W64)
    }
}

impl AppliedTo for Extend128 {
    open spec fn target(&self, k: Kind) -> Option<Kind> {
        extend_to(k, Width::W128)
    }

    fn resolve(&self, k: Kind) -> (r: Option<Kind>) {
        k.extended(Width::W128)
    }
}

} // verus!
