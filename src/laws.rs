use vstd::prelude::*;
use crate::chain::cast_along;
use crate::kind::{Kind, Width, truncate_to, extend_to, wrap, lemma_wrap_of_contained, lemma_wrap_same_width};
use crate::ops::{AppliedTo, Identity, SignFlip};
use crate::value::{Value, lemma_value_of, lemma_reinterpret};

verus! {

/// Unfolds a chain of one kind.
proof fn lemma_along_one(v: Value, a: Kind)
    ensures
        cast_along(v, seq![a]) == v.reinterpret_spec(a),
{
    assert(seq![a].drop_last() =~= Seq::<Kind>::empty());
    assert(cast_along(v, Seq::<Kind>::empty()) == v);
}

/// Unfolds a chain of two kinds.
proof fn lemma_along_two(v: Value, a: Kind, b: Kind)
    ensures
        cast_along(v, seq![a, b]) == v.reinterpret_spec(a).reinterpret_spec(b),
{
    assert(seq![a, b].drop_last() =~= seq![a]);
    lemma_along_one(v, a);
}

/// Identity: the chain made of `Identity` alone returns every value as it is.
pub proof fn law_identity(v: Value)
    ensures
        Identity.target(v.kind()) == Some(v.kind()),
        cast_along(v, seq![v.kind()]) == v,
{
    lemma_along_one(v, v.kind());
    lemma_value_of(v);
    lemma_wrap_of_contained(v.kind(), v.num());
}

/// Flipping the signedness twice gives back both the kind and the value.
pub proof fn law_double_sign_flip(v: Value)
    ensures
        ({
            let k1 = SignFlip.target(v.kind())->Some_0;
            let k2 = SignFlip.target(k1)->Some_0;
            &&& SignFlip.target(v.kind()) is Some
            &&& SignFlip.target(k1) is Some
            &&& k2 == v.kind()
            &&& cast_along(v, seq![k1, k2]) == v
        }),
{
    let k = v.kind();
    let k1 = k.flip_spec();
    lemma_along_two(v, k1, k);
    lemma_reinterpret(v, k1);
    lemma_wrap_same_width(k1, k, v.num());
    lemma_value_of(v);
    lemma_wrap_of_contained(k, v.num());
}

/// Truncating to a width twice in a row is rejected: after the first
/// truncation the width is no longer strictly greater than the target.
pub proof fn law_truncate_twice_rejected(k: Kind, w: Width)
    requires
        truncate_to(k, w) is Some,
    ensures
        truncate_to(truncate_to(k, w)->Some_0, w) is None,
{
}

/// Extending and then truncating back to the original width returns every
/// value as it was, zero extension and sign extension alike.
pub proof fn law_extend_then_truncate(v: Value, w: Width)
    requires
        w.nbits() > v.kind().width.nbits(),
    ensures
        ({
            let k1 = extend_to(v.kind(), w)->Some_0;
            &&& extend_to(v.kind(), w) is Some
            &&& truncate_to(k1, v.kind().width) == Some(v.kind())
            &&& cast_along(v, seq![k1, v.kind()]) == v
        }),
{
    let k = v.kind();
    let k1 = extend_to(k, w)->Some_0;
    law_extension_keeps_value(v, w);
    lemma_along_two(v, k1, k);
    lemma_reinterpret(v, k1);
    lemma_value_of(v);
    lemma_wrap_of_contained(k, v.num());
}

/// Extension keeps the integer a value stands for: a signed value is sign
/// extended, an unsigned one zero extended.
pub proof fn law_extension_keeps_value(v: Value, w: Width)
    requires
        w.nbits() > v.kind().width.nbits(),
    ensures
        ({
            let k1 = extend_to(v.kind(), w)->Some_0;
            &&& cast_along(v, seq![k1]).kind() == k1
            &&& cast_along(v, seq![k1]).num() == v.num()
        }),
{
    let k = v.kind();
    let k1 = extend_to(k, w)->Some_0;
    lemma_along_one(v, k1);
    lemma_reinterpret(v, k1);
    lemma_value_of(v);
    assert(k1.contains(v.num()));
    lemma_wrap_of_contained(k1, v.num());
}

} // verus!
