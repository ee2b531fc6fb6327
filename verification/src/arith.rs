//! Number theory shared by the frame-rate and dimension types: the greatest
//! common divisor, its executable forms and the facts about fractions that
//! the rest of the crate relies on.

use vstd::arithmetic::div_mod::*;
use vstd::arithmetic::mul::*;
use vstd::prelude::*;

verus! {

/// The greatest common divisor of two numbers (Euclid's algorithm).
pub open spec fn gcd(a: nat, b: nat) -> nat
    decreases b,
{
    if b == 0 {
        a
    } else {
        gcd(b, a % b)
    }
}

/// `d` divides `a`.
pub open spec fn divides(d: nat, a: nat) -> bool {
    d > 0 && a % d == 0
}

/// A positive fraction `num/den` in lowest terms.
pub open spec fn is_simplified(num: nat, den: nat) -> bool {
    num > 0 && den > 0 && gcd(num, den) == 1
}

/// The smallest integer that is at least `x / d`.
pub open spec fn div_ceil(x: nat, d: nat) -> nat
    recommends
        d > 0,
{
    if x % d == 0 {
        x / d
    } else {
        x / d + 1
    }
}

/// `gcd(a, b)` is positive when either argument is.
pub proof fn lemma_gcd_pos(a: nat, b: nat)
    requires
        a > 0 || b > 0,
    ensures
        gcd(a, b) > 0,
    decreases b,
{
    if b != 0 {
        lemma_gcd_pos(b, a % b);
    }
}

/// `gcd(a, b)` divides both `a` and `b`.
pub proof fn lemma_gcd_divides(a: nat, b: nat)
    requires
        a > 0 || b > 0,
    ensures
        divides(gcd(a, b), a),
        divides(gcd(a, b), b),
    decreases b,
{
    lemma_gcd_pos(a, b);
    let g = gcd(a, b);
    if b == 0 {
        lemma_mod_self_0(a as int);
    } else {
        lemma_gcd_divides(b, a % b);
        // a == (a / b) * b + a % b, and g divides both b and a % b.
        lemma_fundamental_div_mod(a as int, b as int);
        let q = a / b;
        let r = a % b;
        assert(g == gcd(b, r));
        assert(b % g == 0 && r % g == 0);
        assert((b * q) % g == 0) by {
            lemma_mul_mod_noop_left(b as int, q as int, g as int);
            lemma_mul_basics(q as int);
            lemma_small_mod(0, g);
        }
        assert((b * q + r) % g == 0) by {
            lemma_add_mod_noop((b * q) as int, r as int, g as int);
            lemma_small_mod(0, g);
        }
        assert(a == b * q + r);
    }
}

/// Every common divisor of `a` and `b` divides `gcd(a, b)`.
pub proof fn lemma_common_divisor_divides_gcd(a: nat, b: nat, d: nat)
    requires
        divides(d, a),
        divides(d, b),
    ensures
        gcd(a, b) % d == 0,
    decreases b,
{
    if b != 0 {
        let q = a / b;
        let r = a % b;
        lemma_fundamental_div_mod(a as int, b as int);
        assert((b * q) % d == 0) by {
            lemma_mul_mod_noop_left(b as int, q as int, d as int);
        }
        assert(r % d == 0) by {
            lemma_sub_mod_noop(a as int, (b * q) as int, d as int);
        }
        lemma_common_divisor_divides_gcd(b, r, d);
    }
}

/// `gcd` is symmetric.
pub proof fn lemma_gcd_comm(a: nat, b: nat)
    requires
        a > 0 || b > 0,
    ensures
        gcd(a, b) == gcd(b, a),
{
    lemma_gcd_pos(a, b);
    lemma_gcd_pos(b, a);
    lemma_gcd_divides(a, b);
    lemma_gcd_divides(b, a);
    lemma_common_divisor_divides_gcd(a, b, gcd(b, a));
    lemma_common_divisor_divides_gcd(b, a, gcd(a, b));
    lemma_mod_le(gcd(a, b), gcd(b, a));
    lemma_mod_le(gcd(b, a), gcd(a, b));
}

/// A positive multiple of `d` is at least `d`.
pub proof fn lemma_mod_le(n: nat, d: nat)
    requires
        n > 0,
        d > 0,
        n % d == 0,
    ensures
        d <= n,
{
    lemma_fundamental_div_mod(n as int, d as int);
    if n / d == 0 {
        assert(n == d * (n / d));
        lemma_mul_basics(d as int);
    } else {
        lemma_mul_inequality(1, (n / d) as int, d as int);
        lemma_mul_is_commutative(d as int, (n / d) as int);
    }
}

/// `a == g * (a / g)` when `g` divides `a`.
pub proof fn lemma_exact_div(a: nat, g: nat)
    requires
        divides(g, a),
    ensures
        a == g * (a / g),
        a / g <= a,
        a > 0 ==> a / g > 0,
{
    lemma_fundamental_div_mod(a as int, g as int);
    lemma_div_is_ordered_by_denominator(a as int, 1, g as int);
    if a > 0 && a / g == 0 {
        lemma_mul_basics(g as int);
    }
}

/// Dividing both parts of a positive fraction by their gcd leaves a fraction
/// in lowest terms.
pub proof fn lemma_reduced_is_simplified(a: nat, b: nat)
    requires
        a > 0,
        b > 0,
    ensures
        gcd(a, b) > 0,
        is_simplified(a / gcd(a, b), b / gcd(a, b)),
{
    let g = gcd(a, b);
    lemma_gcd_pos(a, b);
    lemma_gcd_divides(a, b);
    lemma_exact_div(a, g);
    lemma_exact_div(b, g);
    let a2 = a / g;
    let b2 = b / g;
    let c = gcd(a2, b2);
    lemma_gcd_pos(a2, b2);
    lemma_gcd_divides(a2, b2);
    // c * g divides both a and b, so it divides g.
    lemma_exact_div(a2, c);
    lemma_exact_div(b2, c);
    lemma_mul_strictly_positive(c as int, g as int);
    let cg = c * g;
    assert(a == cg * (a2 / c)) by {
        lemma_mul_is_associative(g as int, c as int, (a2 / c) as int);
        lemma_mul_is_commutative(g as int, c as int);
    }
    assert(b == cg * (b2 / c)) by {
        lemma_mul_is_associative(g as int, c as int, (b2 / c) as int);
        lemma_mul_is_commutative(g as int, c as int);
    }
    assert(a % cg == 0) by {
        lemma_mod_multiples_basic((a2 / c) as int, cg as int);
        lemma_mul_is_commutative(cg as int, (a2 / c) as int);
    }
    assert(b % cg == 0) by {
        lemma_mod_multiples_basic((b2 / c) as int, cg as int);
        lemma_mul_is_commutative(cg as int, (b2 / c) as int);
    }
    lemma_common_divisor_divides_gcd(a, b, cg);
    lemma_mod_le(g, cg);
    if c > 1 {
        lemma_mul_strict_inequality(1, c as int, g as int);
    }
}

/// `x / d >= s` exactly when `x >= s * d`.
pub proof fn lemma_div_ge_iff(x: nat, d: nat, s: nat)
    requires
        d > 0,
    ensures
        (x / d >= s) <==> (x >= s * d),
{
    lemma_fundamental_div_mod(x as int, d as int);
    lemma_mod_bound(x as int, d as int);
    if x / d >= s {
        lemma_mul_inequality(s as int, (x / d) as int, d as int);
        lemma_mul_is_commutative(d as int, (x / d) as int);
    }
    if x >= s * d {
        lemma_div_is_ordered((s * d) as int, x as int, d as int);
        lemma_div_by_multiple(s as int, d as int);
    }
}

/// `div_ceil(x, d) <= t` exactly when `x <= t * d`.
pub proof fn lemma_div_ceil_le_iff(x: nat, d: nat, t: nat)
    requires
        d > 0,
    ensures
        (div_ceil(x, d) <= t) <==> (x <= t * d),
{
    lemma_fundamental_div_mod(x as int, d as int);
    lemma_mod_bound(x as int, d as int);
    let q = x / d;
    let r = x % d;
    assert(x == d * q + r);
    if r == 0 {
        if q <= t {
            lemma_mul_inequality(q as int, t as int, d as int);
            lemma_mul_is_commutative(d as int, q as int);
        } else {
            lemma_mul_inequality((t + 1) as int, q as int, d as int);
            lemma_mul_is_distributive_add_other_way(d as int, t as int, 1);
            lemma_mul_is_commutative(d as int, q as int);
        }
    } else {
        if q + 1 <= t {
            lemma_mul_inequality((q + 1) as int, t as int, d as int);
            lemma_mul_is_distributive_add_other_way(d as int, q as int, 1);
            lemma_mul_is_commutative(d as int, q as int);
        } else {
            lemma_mul_inequality(t as int, q as int, d as int);
            lemma_mul_is_commutative(d as int, q as int);
        }
    }
}

/// Scaling the numerator and denominator by the same positive factor does not
/// change a floor division.
pub proof fn lemma_div_scaled(x: nat, y: nat, g: nat)
    requires
        y > 0,
        g > 0,
    ensures
        (x * g) / (y * g) == x / y,
{
    lemma_div_multiples_vanish_quotient(g as int, x as int, y as int);
    lemma_mul_is_commutative(g as int, x as int);
    lemma_mul_is_commutative(g as int, y as int);
}

/// The remainder of `k * a` by `k * b` is `k` times the remainder of `a` by
/// `b`.
pub proof fn lemma_mod_scaled(a: nat, b: nat, k: nat)
    requires
        b > 0,
        k > 0,
    ensures
        (k * a) % (k * b) == k * (a % b),
        (k * a) / (k * b) == a / b,
{
    lemma_fundamental_div_mod(a as int, b as int);
    lemma_mod_bound(a as int, b as int);
    let q = a / b;
    let r = a % b;
    lemma_mul_strictly_positive(k as int, b as int);
    assert(k * a == (k * b) * q + k * r) by {
        lemma_mul_is_distributive_add(k as int, (b * q) as int, r as int);
        lemma_mul_is_associative(k as int, b as int, q as int);
    }
    assert(k * r < k * b) by {
        lemma_mul_strict_inequality(r as int, b as int, k as int);
        lemma_mul_is_commutative(r as int, k as int);
        lemma_mul_is_commutative(b as int, k as int);
    }
    lemma_fundamental_div_mod_converse((k * a) as int, (k * b) as int, q as int, (k * r) as int);
}

/// `gcd(k * a, k * b) == k * gcd(a, b)`.
pub proof fn lemma_gcd_scaled(a: nat, b: nat, k: nat)
    requires
        k > 0,
    ensures
        gcd(k * a, k * b) == k * gcd(a, b),
    decreases b,
{
    if b == 0 {
        lemma_mul_basics(k as int);
    } else {
        lemma_mul_strictly_positive(k as int, b as int);
        lemma_mod_scaled(a, b, k);
        lemma_gcd_scaled(b, a % b, k);
    }
}

/// If `a` divides `c * b` and `gcd(a, b) == 1`, then `a` divides `c`.
pub proof fn lemma_coprime_divides(a: nat, b: nat, c: nat)
    requires
        a > 0,
        c > 0,
        gcd(a, b) == 1,
        (c * b) % a == 0,
    ensures
        c % a == 0,
{
    lemma_gcd_scaled(a, b, c);
    lemma_mul_basics(c as int);
    assert((c * a) % a == 0) by {
        lemma_mod_multiples_basic(c as int, a as int);
    }
    lemma_mul_strictly_positive(c as int, a as int);
    lemma_common_divisor_divides_gcd(c * a, c * b, a);
}

/// Two fractions in lowest terms that denote the same number are written
/// the same way.
pub proof fn lemma_equal_fractions_in_lowest_terms(a: nat, b: nat, c: nat, d: nat)
    requires
        is_simplified(a, b),
        is_simplified(c, d),
        a * d == c * b,
    ensures
        a == c,
        b == d,
{
    assert((c * b) % a == 0) by {
        lemma_mod_multiples_basic(d as int, a as int);
        lemma_mul_is_commutative(a as int, d as int);
    }
    lemma_coprime_divides(a, b, c);
    assert((a * d) % c == 0) by {
        lemma_mod_multiples_basic(b as int, c as int);
        lemma_mul_is_commutative(c as int, b as int);
    }
    lemma_coprime_divides(c, d, a);
    lemma_mod_le(c, a);
    lemma_mod_le(a, c);
    assert(a * d == a * b);
    lemma_mul_equality_converse(a as int, d as int, b as int);
}

/// Euclid's algorithm on `u32`.
pub fn gcd_u32(a: u32, b: u32) -> (r: u32)
    ensures
        r == gcd(a as nat, b as nat),
{
    let mut a = a;
    let mut b = b;
    let ghost a0 = a as nat;
    let ghost b0 = b as nat;
    while b != 0
        invariant
            gcd(a as nat, b as nat) == gcd(a0, b0),
        decreases b,
    {
        let r = a % b;
        a = b;
        b = r;
    }
    a
}

/// Euclid's algorithm on `u64`.
pub fn gcd_u64(a: u64, b: u64) -> (r: u64)
    ensures
        r == gcd(a as nat, b as nat),
{
    let mut a = a;
    let mut b = b;
    let ghost a0 = a as nat;
    let ghost b0 = b as nat;
    while b != 0
        invariant
            gcd(a as nat, b as nat) == gcd(a0, b0),
        decreases b,
    {
        let r = a % b;
        a = b;
        b = r;
    }
    a
}

/// Euclid's algorithm on `usize`.
pub fn gcd_usize(a: usize, b: usize) -> (r: usize)
    ensures
        r == gcd(a as nat, b as nat),
{
    let mut a = a;
    let mut b = b;
    let ghost a0 = a as nat;
    let ghost b0 = b as nat;
    while b != 0
        invariant
            gcd(a as nat, b as nat) == gcd(a0, b0),
        decreases b,
    {
        let r = a % b;
        a = b;
        b = r;
    }
    a
}

} // verus!
