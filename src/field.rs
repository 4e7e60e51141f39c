//! The scalar field of BN254 and the multiplication relation over it.
use vstd::prelude::*;

verus! {

/// The order `r` of the scalar field of BN254, a prime of 254 bits.
pub open spec fn field_modulus() -> int {
    21888242871839275222246405745257275088548364400416034343698204186575808495617int
}

/// The canonical representative in `[0, r)` of an integer.
pub open spec fn reduce(x: int) -> int {
    x % field_modulus()
}

/// The relation that the circuit encodes: `a * b == c` in the field.
pub open spec fn product_holds(a: int, b: int, c: int) -> bool {
    reduce(a * b) == reduce(c)
}

/// Every product of two 32-bit values lies below the field's order, so it is
/// its own representative.
pub proof fn lemma_small_product_is_reduced(a: u32, b: u32)
    ensures
        reduce(a as int * b as int) == a as int * b as int,
        reduce(a as int) == a as int,
{
    assert(a as int * b as int <= 0xffff_ffffint * 0xffff_ffffint) by (nonlinear_arith)
        requires a as int <= 0xffff_ffffint, b as int <= 0xffff_ffffint, 0 <= a, 0 <= b;
    assert(0 <= a as int * b as int) by (nonlinear_arith)
        requires 0 <= a, 0 <= b;
    vstd::arithmetic::div_mod::lemma_small_mod((a as int * b as int) as nat, field_modulus() as nat);
    vstd::arithmetic::div_mod::lemma_small_mod(a as nat, field_modulus() as nat);
}

/// Whether `a * b == c` holds in the field, for values given as 32-bit
/// integers.
pub fn is_satisfied(a: u32, b: u32, c: u32) -> (r: bool)
    ensures
        r == product_holds(a as int, b as int, c as int),
{
    proof {
        lemma_small_product_is_reduced(a, b);
        lemma_small_product_is_reduced(c, 1);
        assert((a as u64) * (b as u64) <= 0xffff_ffff_ffff_ffffu64) by (nonlinear_arith)
            requires a <= 0xffff_ffffu32, b <= 0xffff_ffffu32;
    }
    (a as u64) * (b as u64) == c as u64
}

} // verus!
