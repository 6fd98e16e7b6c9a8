//! The model field that this layer computes over: integers modulo the
//! Mersenne prime `2^61 - 1`, together with the custom-gate polynomial
//! and the algebra that relates it to field addition and multiplication.

use vstd::prelude::*;
use vstd::arithmetic::div_mod::{
    lemma_mod_equivalence, lemma_mod_multiples_vanish, lemma_mod_self_0,
    lemma_mod_sub_multiples_vanish, lemma_small_mod,
};
use vstd::arithmetic::mul::lemma_mul_upper_bound;

verus! {

/// The prime modulus of the model field: the Mersenne prime `2^61 - 1`.
pub const MODULUS: u64 = 2305843009213693951;

/// The modulus as a mathematical integer, for use in specifications.
pub open spec fn modulus() -> int {
    MODULUS as int
}

/// A field element, held as its reduced representative.
#[derive(Clone, Copy, PartialEq, Eq, Structural, Debug)]
pub struct Fe {
    pub v: u64,
}

impl Fe {
    /// A field element is well-formed when its representative is reduced.
    pub open spec fn wf(self) -> bool {
        self.v < MODULUS
    }
}

/// Field addition on representatives.
pub open spec fn fadd(a: int, b: int) -> int {
    (a + b) % modulus()
}

/// Field multiplication on representatives.
pub open spec fn fmul(a: int, b: int) -> int {
    (a * b) % modulus()
}

/// Field negation on representatives.
pub open spec fn fneg(a: int) -> int {
    (modulus() - a) % modulus()
}

/// The custom-gate polynomial of the layer, evaluated on one row's
/// selector values `sl, sr, sm, so` and advice values `l, r, o`, reduced
/// modulo the field modulus.  A row is in order exactly when this is zero.
pub open spec fn gate_eval(sl: int, sr: int, sm: int, so: int, l: int, r: int, o: int) -> int {
    (sl * l + sr * r + sm * (l * r) + so * o) % modulus()
}

/// Reduce an arbitrary machine word into the field.
pub fn fe_from(x: u64) -> (r: Fe)
    ensures
        r.wf(),
        r.v == x as int % modulus(),
{
    Fe { v: x % MODULUS }
}

/// Add two field elements.
pub fn fe_add(a: Fe, b: Fe) -> (r: Fe)
    requires
        a.wf(),
        b.wf(),
    ensures
        r.wf(),
        r.v == fadd(a.v as int, b.v as int),
{
    let s: u64 = a.v + b.v;
    if s >= MODULUS {
        proof {
            lemma_mod_sub_multiples_vanish(s as int, modulus());
            lemma_small_mod((s - MODULUS) as nat, MODULUS as nat);
        }
        Fe { v: s - MODULUS }
    } else {
        proof {
            lemma_small_mod(s as nat, MODULUS as nat);
        }
        Fe { v: s }
    }
}

/// Multiply two field elements.
pub fn fe_mul(a: Fe, b: Fe) -> (r: Fe)
    requires
        a.wf(),
        b.wf(),
    ensures
        r.wf(),
        r.v == fmul(a.v as int, b.v as int),
{
    proof {
        lemma_mul_upper_bound(a.v as int, modulus() - 1, b.v as int, modulus() - 1);
        assert((modulus() - 1) * (modulus() - 1) < u128::MAX) by (nonlinear_arith);
    }
    let prod: u128 = (a.v as u128) * (b.v as u128);
    let rem: u128 = prod % (MODULUS as u128);
    Fe { v: rem as u64 }
}

/// Negate a field element.
pub fn fe_neg(a: Fe) -> (r: Fe)
    requires
        a.wf(),
    ensures
        r.wf(),
        r.v == fneg(a.v as int),
{
    if a.v == 0 {
        proof {
            lemma_mod_self_0(modulus());
        }
        Fe { v: 0 }
    } else {
        proof {
            lemma_small_mod((MODULUS - a.v) as nat, MODULUS as nat);
        }
        Fe { v: MODULUS - a.v }
    }
}

/// A reduced residue `o` is the reduction of `a` exactly when `a - o`
/// vanishes modulo the field modulus.
pub proof fn lemma_mod_cancel(a: int, o: int)
    requires
        0 <= o < modulus(),
    ensures
        ((a - o) % modulus() == 0) <==> (o == a % modulus()),
{
    lemma_mod_equivalence(a, o, modulus());
    lemma_small_mod(o as nat, MODULUS as nat);
}

/// With the addition selector pattern `sl = sr = 1, sm = 0, so = -1`, the
/// gate identity holds exactly when `o` is the field sum of `l` and `r`.
pub proof fn lemma_add_gate(l: int, r: int, o: int)
    requires
        0 <= l < modulus(),
        0 <= r < modulus(),
        0 <= o < modulus(),
    ensures
        gate_eval(1, 1, 0, modulus() - 1, l, r, o) == 0 <==> o == fadd(l, r),
{
    let m = modulus();
    assert(1 * l + 1 * r + 0 * (l * r) + (m - 1) * o == m * o + (l + r - o)) by (nonlinear_arith);
    lemma_mod_multiples_vanish(o, l + r - o, m);
    lemma_mod_cancel(l + r, o);
}

/// With the multiplication selector pattern `sl = sr = 0, sm = 1, so = -1`,
/// its custom-gate identity holds exactly when `o` is the field product of `l`
/// and `r`.
pub proof fn lemma_mul_gate(l: int, r: int, o: int)
    requires
        0 <= l < modulus(),
        0 <= r < modulus(),
        0 <= o < modulus(),
    ensures
        gate_eval(0, 0, 1, modulus() - 1, l, r, o) == 0 <==> o == fmul(l, r),
{
    let m = modulus();
    assert(0 * l + 0 * r + 1 * (l * r) + (m - 1) * o == m * o + (l * r - o)) by (nonlinear_arith);
    lemma_mod_multiples_vanish(o, l * r - o, m);
    lemma_mod_cancel(l * r, o);
}

} // verus!
