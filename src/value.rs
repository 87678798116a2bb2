use vstd::arithmetic::div_mod::{lemma_mod_mod, lemma_mod_multiples_vanish, lemma_small_mod};
use vstd::prelude::*;
use crate::kind::{Kind, Width, wrap, lemma_wrap_contains};

verus! {

/// An integer of one of the ten kinds.
#[derive(Clone, Copy, Debug, PartialEq, Eq, Structural)]
pub enum Value {
    I8(i8),
    U8(u8),
    I16(i16),
    U16(u16),
    I32(i32),
    U32(u32),
    I64(i64),
    U64(u64),
    I128(i128),
    U128(u128),
}

/// `2^128`, the number of 128-bit patterns.
pub open spec fn modulus128() -> int {
    u128::MAX as int + 1
}

impl Value {
    /// The kind of this value.
    pub open spec fn kind(self) -> Kind {
        match self {
            Value::I8(_) => Kind { signed: true, width: Width::W8 },
            Value::U8(_) => Kind { signed: false, width: Width::W8 },
            Value::I16(_) => Kind { signed: true, width: Width::W16 },
            Value::U16(_) => Kind { signed: false, width: Width::W16 },
            Value::I32(_) => Kind { signed: true, width: Width::W32 },
            Value::U32(_) => Kind { signed: false, width: Width::W32 },
            Value::I64(_) => Kind { signed: true, width: Width::W64 },
            Value::U64(_) => Kind { signed: false, width: Width::W64 },
            Value::I128(_) => Kind { signed: true, width: Width::W128 },
            Value::U128(_) => Kind { signed: false, width: Width::W128 },
        }
    }

    /// The integer this value stands for.
    pub open spec fn num(self) -> int {
        match self {
            Value::I8(x) => x as int,
            Value::U8(x) => x as int,
            Value::I16(x) => x as int,
            Value::U16(x) => x as int,
            Value::I32(x) => x as int,
            Value::U32(x) => x as int,
            Value::I64(x) => x as int,
            Value::U64(x) => x as int,
            Value::I128(x) => x as int,
            Value::U128(x) => x as int,
        }
    }

    /// The value of kind `k` that stands for `x`; meaningful where
    /// `k.contains(x)`.
    pub open spec fn of(k: Kind, x: int) -> Value {
        match (k.signed, k.width) {
            (true, Width::W8) => Value::I8(x as i8),
            (false, Width::W8) => Value::U8(x as u8),
            (true, Width::W16) => Value::I16(x as i16),
            (false, Width::W16) => Value::U16(x as u16),
            (true, Width::W32) => Value::I32(x as i32),
            (false, Width::W32) => Value::U32(x as u32),
            (true, Width::W64) => Value::I64(x as i64),
            (false, Width::W64) => Value::U64(x as u64),
            (true, Width::W128) => Value::I128(x as i128),
            (false, Width::W128) => Value::U128(x as u128),
        }
    }

    /// The value of kind `k` with the same low bits as this one.
    pub open spec fn reinterpret_spec(self, k: Kind) -> Value {
        Value::of(k, wrap(k, self.num()))
    }

    /// The kind of this value.
    pub fn kind_of(&self) -> (r: Kind)
        ensures
            r == self.kind(),
    {
        match self {
            Value::I8(_) => Kind { signed: true, width: Width::W8 },
            Value::U8(_) => Kind { signed: false, width: Width::W8 },
            Value::I16(_) => Kind { signed: true, width: Width::W16 },
            Value::U16(_) => Kind { signed: false, width: Width::W16 },
            Value::I32(_) => Kind { signed: true, width: Width::W32 },
            Value::U32(_) => Kind { signed: false, width: Width::W32 },
            Value::I64(_) => Kind { signed: true, width: Width::W64 },
            Value::U64(_) => Kind { signed: false, width: Width::W64 },
            Value::I128(_) => Kind { signed: true, width: Width::W128 },
            Value::U128(_) => Kind { signed: false, width: Width::W128 },
        }
    }

    /// The 128-bit two's complement pattern of this value.
    fn pattern(&self) -> (p: u128)
        ensures
            p as int == self.num() % modulus128(),
    {
        match *self {
            Value::I8(x) => pattern_of_signed(x as i128),
            Value::U8(x) => pattern_of_unsigned(x as u128),
            Value::I16(x) => pattern_of_signed(x as i128),
            Value::U16(x) => pattern_of_unsigned(x as u128),
            Value::I32(x) => pattern_of_signed(x as i128),
            Value::U32(x) => pattern_of_unsigned(x as u128),
            Value::I64(x) => pattern_of_signed(x as i128),
            Value::U64(x) => pattern_of_unsigned(x as u128),
            Value::I128(x) => pattern_of_signed(x),
            Value::U128(x) => pattern_of_unsigned(x),
        }
    }

    /// The value of kind `k` with the same low bits as this one: truncation,
    /// sign or zero extension, or a change of signedness, as the two kinds
    /// call for.
    pub fn reinterpret(&self, k: Kind) -> (r: Value)
        ensures
            r == self.reinterpret_spec(k),
            r.kind() == k,
            r.num() == wrap(k, self.num()),
    {
        let p = self.pattern();
        proof {
            lemma_wrap_low_bits(k, self.num());
        }
        from_pattern(p, k)
    }
}

/// Reading a value back from its kind and integer gives the value itself.
pub proof fn lemma_value_of(v: Value)
    ensures
        v.kind().contains(v.num()),
        Value::of(v.kind(), v.num()) == v,
{
}

/// The value built from a representable integer has that kind and integer.
pub proof fn lemma_of_value(k: Kind, x: int)
    requires
        k.contains(x),
    ensures
        Value::of(k, x).kind() == k,
        Value::of(k, x).num() == x,
{
}

/// Reinterpretation yields a value of the target kind that stands for `wrap`.
pub proof fn lemma_reinterpret(v: Value, k: Kind)
    ensures
        v.reinterpret_spec(k).kind() == k,
        v.reinterpret_spec(k).num() == wrap(k, v.num()),
{
    lemma_wrap_contains(k, v.num());
    lemma_of_value(k, wrap(k, v.num()));
}

/// `wrap` depends on the low 128 bits alone.
proof fn lemma_wrap_low_bits(k: Kind, x: int)
    ensures
        wrap(k, x % modulus128()) == wrap(k, x),
{
    let m = k.width.modulus();
    let q: int = match k.width {
        Width::W8 => 0x100_0000_0000_0000_0000_0000_0000_0000,
        Width::W16 => 0x1_0000_0000_0000_0000_0000_0000_0000,
        Width::W32 => 0x1_0000_0000_0000_0000_0000_0000,
        Width::W64 => 0x1_0000_0000_0000_0000,
        Width::W128 => 1,
    };
    assert(m * q == modulus128());
    lemma_mod_mod(x, m, q);
}

fn pattern_of_unsigned(x: u128) -> (p: u128)
    ensures
        p as int == x as int % modulus128(),
{
    proof {
        lemma_small_mod(x as nat, modulus128() as nat);
    }
    x
}

fn pattern_of_signed(x: i128) -> (p: u128)
    ensures
        p as int == x as int % modulus128(),
{
    if x >= 0 {
        proof {
            lemma_small_mod(x as nat, modulus128() as nat);
        }
        x as u128
    } else {
        let neg = (-(x + 1)) as u128;
        proof {
            lemma_mod_multiples_vanish(1, x as int, modulus128());
            lemma_small_mod((modulus128() + x) as nat, modulus128() as nat);
        }
        u128::MAX - neg
    }
}

/// The value of kind `k` whose low bits are those of `p`.
fn from_pattern(p: u128, k: Kind) -> (r: Value)
    ensures
        r == Value::of(k, wrap(k, p as int)),
        r.kind() == k,
        r.num() == wrap(k, p as int),
{
    proof {
        lemma_small_mod(p as nat, modulus128() as nat);
    }
    let (low, top): (u128, u128) = match k.width {
        Width::W8 => (p % 0x100, 0xff),
        Width::W16 => (p % 0x1_0000, 0xffff),
        Width::W32 => (p % 0x1_0000_0000, 0xffff_ffff),
        Width::W64 => (p % 0x1_0000_0000_0000_0000, 0xffff_ffff_ffff_ffff),
        Width::W128 => (p, u128::MAX),
    };
    assert(low as int == p as int % k.width.modulus());
    assert(top as int == k.width.modulus() - 1);
    proof {
        lemma_wrap_contains(k, p as int);
    }
    if k.signed {
        let s: i128 = if low <= top / 2 {
            low as i128
        } else {
            -((top - low) as i128) - 1
        };
        assert(s as int == wrap(k, p as int));
        match k.width {
            Width::W8 => Value::I8(s as i8),
            Width::W16 => Value::I16(s as i16),
            Width::W32 => Value::I32(s as i32),
            Width::W64 => Value::I64(s as i64),
            Width::W128 => Value::I128(s),
        }
    } else {
        match k.width {
            Width::W8 => Value::U8(low as u8),
            Width::W16 => Value::U16(low as u16),
            Width::W32 => Value::U32(low as u32),
            Width::W64 => Value::U64(low as u64),
            Width::W128 => Value::U128(low),
        }
    }
}

} // verus!
