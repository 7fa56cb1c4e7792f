//! The arithmetic of the library as mathematics on natural numbers.
//!
//! `range` is the number of values of the storage width (256 for `u8`) and `m`
//! the modulus. The functions say what each operation yields on the canonical
//! representatives; the lemmas relate them to ordinary arithmetic modulo `m`.

use vstd::arithmetic::div_mod::{
    lemma_add_mod_noop_right, lemma_mod_add_multiples_vanish, lemma_mod_decreases,
    lemma_mod_equivalence, lemma_mod_twice, lemma_mul_mod_noop_general, lemma_small_mod,
    lemma_sub_mod_noop,
};
use vstd::prelude::*;

verus! {

/// The canonical representative of `x` modulo `m`.
pub open spec fn reduce(x: nat, m: nat) -> nat {
    x % m
}

/// The sum of `a` and `b`, truncated to the storage width, then reduced.
pub open spec fn add_mod(a: nat, b: nat, range: nat, m: nat) -> nat {
    ((a + b) % range) % m
}

/// The product of `a` and `b`, truncated to the storage width, then reduced.
pub open spec fn mul_mod(a: nat, b: nat, range: nat, m: nat) -> nat {
    ((a * b) % range) % m
}

/// The difference of `a` and `b` modulo `m`: the one value in `[0, m)` that
/// differs from `a - b` by a multiple of `m`.
pub open spec fn sub_mod(a: nat, b: nat, m: nat) -> nat {
    ((a - b) % (m as int)) as nat
}

/// What truncation to a width of `range` values takes away from `x`: the
/// multiple of `range` by which `x` exceeds its remainder.
pub open spec fn lost(x: nat, range: nat) -> nat {
    (x - x % range) as nat
}

/// A number below twice `range` wraps around at most once.
pub proof fn lemma_wrap_once(s: nat, range: nat)
    requires
        range >= 1,
        s < 2 * range,
    ensures
        s % range == if s >= range {
            s - range
        } else {
            s as int
        },
{
    if s >= range {
        lemma_small_mod((s - range) as nat, range);
        lemma_mod_add_multiples_vanish(s - range, range as int);
    } else {
        lemma_small_mod(s, range);
    }
}

/// A reduced value is canonical, and a canonical value is its own reduction.
pub proof fn lemma_reduce(x: nat, m: nat)
    requires
        m >= 1,
    ensures
        reduce(x, m) < m,
        x < m ==> reduce(x, m) == x,
        reduce(reduce(x, m), m) == reduce(x, m),
{
    lemma_mod_twice(x as int, m as int);
    if x < m {
        lemma_small_mod(x, m);
    }
}

/// Where the sum fits the storage width, addition is addition modulo `m`.
pub proof fn lemma_add_mod_exact(a: nat, b: nat, range: nat, m: nat)
    requires
        m >= 1,
        a + b < range,
    ensures
        add_mod(a, b, range, m) == (a + b) % m,
        add_mod(a, b, range, m) < m,
{
    lemma_small_mod(a + b, range);
}

/// Where the product fits the storage width, multiplication is multiplication
/// modulo `m`.
pub proof fn lemma_mul_mod_exact(a: nat, b: nat, range: nat, m: nat)
    requires
        m >= 1,
        a * b < range,
    ensures
        mul_mod(a, b, range, m) == (a * b) % m,
        mul_mod(a, b, range, m) < m,
{
    lemma_small_mod(a * b, range);
}

/// Two numbers that fall short of one total by `l1` and by `l2` are congruent
/// exactly where `l1` and `l2` are.
proof fn lemma_congruent_shortfalls(t: int, l1: int, l2: int, m: int)
    requires
        m > 0,
    ensures
        (t - l1) % m == (t - l2) % m <==> l1 % m == l2 % m,
{
    lemma_mod_equivalence(t - l1, t - l2, m);
    lemma_mod_equivalence(l2, l1, m);
}

/// Nothing is lost of a number that fits the width, and what is lost never
/// exceeds the number.
pub proof fn lemma_lost(x: nat, range: nat)
    requires
        range >= 1,
    ensures
        x % range + lost(x, range) == x,
        x < range ==> lost(x, range) == 0,
{
    lemma_mod_decreases(x, range);
    if x < range {
        lemma_small_mod(x, range);
    }
}

/// Where sums associate: exactly where the two sums on either side lose the
/// same to truncation, up to a multiple of `m`.
pub proof fn lemma_add_mod_associative_iff(a: nat, b: nat, c: nat, range: nat, m: nat)
    requires
        m >= 1,
        range >= 1,
    ensures
        add_mod(add_mod(a, b, range, m), c, range, m) == add_mod(
            a,
            add_mod(b, c, range, m),
            range,
            m,
        ) <==> (lost(a + b, range) + lost(add_mod(a, b, range, m) + c, range)) % m == (lost(
            b + c,
            range,
        ) + lost(a + add_mod(b, c, range, m), range)) % m,
{
    let mi = m as int;
    let ab = add_mod(a, b, range, m);
    let bc = add_mod(b, c, range, m);
    let l1 = lost(a + b, range) as int;
    let l2 = lost(ab + c, range) as int;
    let l3 = lost(b + c, range) as int;
    let l4 = lost(a + bc, range) as int;
    lemma_lost(a + b, range);
    lemma_lost(ab + c, range);
    lemma_lost(b + c, range);
    lemma_lost(a + bc, range);
    assert(add_mod(ab, c, range, m) == (a + b + c - (l1 + l2)) % mi) by {
        lemma_add_mod_noop_right(c - l2, a + b - l1, mi);
    }
    assert(add_mod(a, bc, range, m) == (a + b + c - (l3 + l4)) % mi) by {
        lemma_add_mod_noop_right(a - l4, b + c - l3, mi);
    }
    lemma_congruent_shortfalls((a + b + c) as int, l1 + l2, l3 + l4, mi);
}

/// Where products associate: exactly where the two products on either side
/// lose the same to truncation, up to a multiple of `m`. What the inner
/// product loses counts once for each unit of the outer factor.
pub proof fn lemma_mul_mod_associative_iff(a: nat, b: nat, c: nat, range: nat, m: nat)
    requires
        m >= 1,
        range >= 1,
    ensures
        mul_mod(mul_mod(a, b, range, m), c, range, m) == mul_mod(
            a,
            mul_mod(b, c, range, m),
            range,
            m,
        ) <==> (lost(a * b, range) * c + lost(mul_mod(a, b, range, m) * c, range)) % m == (a
            * lost(b * c, range) + lost(a * mul_mod(b, c, range, m), range)) % m,
{
    let mi = m as int;
    let ab = mul_mod(a, b, range, m);
    let bc = mul_mod(b, c, range, m);
    let l1 = lost(a * b, range) as int;
    let l2 = lost(ab * c, range) as int;
    let l3 = lost(b * c, range) as int;
    let l4 = lost(a * bc, range) as int;
    let abc = a * b * c;
    lemma_lost(a * b, range);
    lemma_lost(ab * c, range);
    lemma_lost(b * c, range);
    lemma_lost(a * bc, range);
    assert(mul_mod(ab, c, range, m) == (abc - (l1 * c + l2)) % mi) by {
        let kept = a * b - l1;
        assert(ab == kept % mi);
        lemma_mul_mod_noop_general(kept, c as int, mi);
        lemma_add_mod_noop_right(-l2, (ab * c) as int, mi);
        lemma_add_mod_noop_right(-l2, kept * c, mi);
        assert(kept * c == abc - l1 * c) by (nonlinear_arith)
            requires
                kept == a * b - l1,
                abc == a * b * c,
        ;
    }
    assert(mul_mod(a, bc, range, m) == (abc - (a * l3 + l4)) % mi) by {
        let kept = b * c - l3;
        assert(bc == kept % mi);
        lemma_mul_mod_noop_general(a as int, kept, mi);
        lemma_add_mod_noop_right(-l4, (a * bc) as int, mi);
        lemma_add_mod_noop_right(-l4, a * kept, mi);
        assert(a * kept == abc - a * l3) by (nonlinear_arith)
            requires
                kept == b * c - l3,
                abc == a * b * c,
        ;
    }
    lemma_congruent_shortfalls(abc as int, l1 * c + l2, a * l3 + l4, mi);
}

/// Adding zero or multiplying by one, reduced, leaves a canonical value as it
/// is.
pub proof fn lemma_identities(a: nat, range: nat, m: nat)
    requires
        1 <= m < range,
        a < m,
    ensures
        add_mod(a, 0, range, m) == a,
        add_mod(0, a, range, m) == a,
        mul_mod(a, reduce(1, m), range, m) == a,
        mul_mod(reduce(1, m), a, range, m) == a,
{
    let one = reduce(1, m);
    lemma_small_mod(a, range);
    lemma_small_mod(a, m);
    if m > 1 {
        lemma_small_mod(1, m);
    }
    assert(a * one == a && one * a == a) by (nonlinear_arith)
        requires
            one == 1 || (one == 0 && a == 0),
    ;
}

/// Taking `b` away from a sum with `b` that fits the storage width gives the
/// other summand back.
pub proof fn lemma_sum_then_difference(a: nat, b: nat, range: nat, m: nat)
    requires
        a < m,
        b < m,
        a + b < range,
    ensures
        sub_mod(add_mod(a, b, range, m), b, m) == a,
{
    lemma_add_mod_exact(a, b, range, m);
    lemma_sub_mod_noop((a + b) as int, b as int, m as int);
    lemma_small_mod(b, m);
    lemma_small_mod(a, m);
}

/// The difference modulo `m` of two canonical values, by cases: no borrow
/// where `a >= b`, one added modulus where `a < b`.
pub proof fn lemma_sub_mod_cases(a: nat, b: nat, m: nat)
    requires
        a < m,
        b < m,
    ensures
        sub_mod(a, b, m) < m,
        a >= b ==> sub_mod(a, b, m) == a - b,
        a < b ==> sub_mod(a, b, m) == m - (b - a),
{
    let d: int = a - b;
    let mi: int = m as int;
    if a >= b {
        lemma_small_mod((a - b) as nat, m);
    } else {
        lemma_small_mod((d + mi) as nat, m);
        assert((d + mi) % mi == d % mi) by {
            lemma_mod_add_multiples_vanish(d, mi);
        }
    }
}

} // verus!
