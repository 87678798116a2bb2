use vstd::arithmetic::div_mod::{lemma_mod_multiples_vanish, lemma_small_mod};
use vstd::prelude::*;

verus! {

/// Bit width of a supported integer kind.
#[derive(Clone, Copy, Debug, PartialEq, Eq, Structural)]
pub enum Width {
    W8,
    W16,
    W32,
    W64,
    W128,
}

impl Width {
    /// Number of bits.
    pub open spec fn nbits(self) -> nat {
        match self {
            Width::W8 => 8,
            Width::W16 => 16,
            Width::W32 => 32,
            Width::W64 => 64,
            Width::W128 => 128,
        }
    }

    /// `2^nbits`: the number of distinct bit patterns of this width.
    pub open spec fn modulus(self) -> int {
        match self {
            Width::W8 => 0x100,
            Width::W16 => 0x1_0000,
            Width::W32 => 0x1_0000_0000,
            Width::W64 => 0x1_0000_0000_0000_0000,
            Width::W128 => u128::MAX as int + 1,
        }
    }

    /// Number of bits.
    pub fn bits(self) -> (r: u32)
        ensures
            r == self.nbits(),
    {
        match self {
            Width::W8 => 8,
            Width::W16 => 16,
            Width::W32 => 32,
            Width::W64 => 64,
            Width::W128 => 128,
        }
    }
}

/// One of the ten integer kinds: a signedness and a width.
#[derive(Clone, Copy, Debug, PartialEq, Eq, Structural)]
pub struct Kind {
    pub signed: bool,
    pub width: Width,
}

impl Kind {
    /// Smallest value of this kind.
    pub open spec fn min(self) -> int {
        if self.signed {
            -(self.width.modulus() / 2)
        } else {
            0
        }
    }

    /// Largest value of this kind.
    pub open spec fn max(self) -> int {
        if self.signed {
            self.width.modulus() / 2 - 1
        } else {
            self.width.modulus() - 1
        }
    }

    /// `x` is representable in this kind.
    pub open spec fn contains(self, x: int) -> bool {
        self.min() <= x <= self.max()
    }

    /// The kind of the same width with the opposite signedness.
    pub open spec fn flip_spec(self) -> Kind {
        Kind { signed: !self.signed, width: self.width }
    }

    /// The kind of the same width with the given signedness.
    pub open spec fn with_sign(self, signed: bool) -> Kind {
        Kind { signed, width: self.width }
    }

    pub fn new(signed: bool, width: Width) -> (r: Kind)
        ensures
            r == (Kind { signed, width }),
    {
        Kind { signed, width }
    }

    /// The kind of the same width with the opposite signedness.
    pub fn flipped(self) -> (r: Kind)
        ensures
            r == self.flip_spec(),
    {
        Kind { signed: !self.signed, width: self.width }
    }

    /// Truncation to `w`, which keeps the signedness; `None` unless `w` is
    /// strictly narrower than this kind.
    pub fn truncated(self, w: Width) -> (r: Option<Kind>)
        ensures
            r == truncate_to(self, w),
    {
        if w.bits() < self.width.bits() {
            Some(Kind { signed: self.signed, width: w })
        } else {
            None
        }
    }

    /// Extension to `w`, which keeps the signedness; `None` unless `w` is
    /// strictly wider than this kind.
    pub fn extended(self, w: Width) -> (r: Option<Kind>)
        ensures
            r == extend_to(self, w),
    {
        if w.bits() > self.width.bits() {
            Some(Kind { signed: self.signed, width: w })
        } else {
            None
        }
    }
}

/// Output kind of truncating a `k` to width `w`, where that applies.
pub open spec fn truncate_to(k: Kind, w: Width) -> Option<Kind> {
    if w.nbits() < k.width.nbits() {
        Some(Kind { signed: k.signed, width: w })
    } else {
        None
    }
}

/// Output kind of extending a `k` to width `w`, where that applies.
pub open spec fn extend_to(k: Kind, w: Width) -> Option<Kind> {
    if w.nbits() > k.width.nbits() {
        Some(Kind { signed: k.signed, width: w })
    } else {
        None
    }
}

/// The value of kind `k` whose bit pattern is the low bits of the two's
/// complement pattern of `x`: the low bits read as unsigned, or as two's
/// complement where `k` is signed.
pub open spec fn wrap(k: Kind, x: int) -> int {
    let m = k.width.modulus();
    let p = x % m;
    if k.signed && p >= m / 2 {
        p - m
    } else {
        p
    }
}

/// `wrap` yields a value of the kind.
pub proof fn lemma_wrap_contains(k: Kind, x: int)
    ensures
        k.contains(wrap(k, x)),
{
}

/// A value already representable in `k` is left as it is.
pub proof fn lemma_wrap_of_contained(k: Kind, x: int)
    requires
        k.contains(x),
    ensures
        wrap(k, x) == x,
{
    let m = k.width.modulus();
    if x >= 0 {
        lemma_small_mod(x as nat, m as nat);
    } else {
        lemma_mod_multiples_vanish(1, x, m);
        lemma_small_mod((m + x) as nat, m as nat);
    }
}

/// Only the low bits matter: reinterpreting first under a kind of the same
/// width changes nothing.
pub proof fn lemma_wrap_same_width(j: Kind, k: Kind, x: int)
    requires
        j.width == k.width,
    ensures
        wrap(k, wrap(j, x)) == wrap(k, x),
{
}

} // verus!
