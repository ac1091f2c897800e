//! Primes, products of factor lists, and the divisibility facts that trial
//! division rests on.

use vstd::prelude::*;

verus! {

/// `p` is a prime: at least two, and no number in `2..p` divides it.
pub open spec fn is_prime(p: int) -> bool {
    &&& p >= 2
    &&& forall|k: int| 2 <= k < p ==> #[trigger] (p % k) != 0
}

/// The product of the numbers in `s` (one for the empty list).
pub open spec fn product(s: Seq<u64>) -> int
    decreases s.len(),
{
    if s.len() == 0 {
        1
    } else {
        product(s.drop_last()) * s.last()
    }
}

/// No entry of `s` is larger than a later one.
pub open spec fn is_nondecreasing(s: Seq<u64>) -> bool {
    forall|i: int, j: int| 0 <= i <= j < s.len() ==> s[i] <= s[j]
}

/// Every entry of `s` is prime.
pub open spec fn all_prime(s: Seq<u64>) -> bool {
    forall|i: int| 0 <= i < s.len() ==> is_prime(#[trigger] s[i] as int)
}

/// `s` is the prime factorisation of `n`: primes, smallest first, repeated
/// by multiplicity, whose product is `n`.
pub open spec fn is_prime_factorization(s: Seq<u64>, n: int) -> bool {
    &&& product(s) == n
    &&& all_prime(s)
    &&& is_nondecreasing(s)
}

/// No number in `2..bound` divides `n`.
pub open spec fn no_divisor_below(n: int, bound: int) -> bool {
    forall|k: int| 2 <= k < bound ==> #[trigger] (n % k) != 0
}

/// Appending `x` multiplies the product by `x`.
pub proof fn lemma_product_push(s: Seq<u64>, x: u64)
    ensures
        product(s.push(x)) == product(s) * x,
{
    assert(s.push(x).drop_last() =~= s);
}

/// A multiple of `k` leaves no remainder on division by `k`.
pub proof fn lemma_multiple_mod(k: int, q: int)
    requires
        k > 0,
    ensures
        (k * q) % k == 0,
{
    assert(k * q == q * k + 0) by (nonlinear_arith);
    vstd::arithmetic::div_mod::lemma_fundamental_div_mod_converse_mod(k * q, k, q, 0);
}

/// Divisibility is transitive: `c` divides `b` and `b` divides `a`, so `c`
/// divides `a`.
pub proof fn lemma_divides_trans(a: int, b: int, c: int)
    requires
        b > 0,
        c > 0,
        a % b == 0,
        b % c == 0,
    ensures
        a % c == 0,
{
    vstd::arithmetic::div_mod::lemma_fundamental_div_mod(a, b);
    vstd::arithmetic::div_mod::lemma_fundamental_div_mod(b, c);
    let qa = a / b;
    let qb = b / c;
    assert(a == b * qa);
    assert(b == c * qb);
    assert(a == c * (qb * qa)) by (nonlinear_arith)
        requires
            a == b * qa,
            b == c * qb,
    ;
    lemma_multiple_mod(c, qb * qa);
}

/// Dividing out `d` from `n` leaves a quotient whose divisors divide `n`.
pub proof fn lemma_divisor_of_quotient(n: int, d: int, k: int)
    requires
        n > 0,
        d > 0,
        k > 0,
        n % d == 0,
        (n / d) % k == 0,
    ensures
        n % k == 0,
        n / d > 0,
{
    vstd::arithmetic::div_mod::lemma_fundamental_div_mod(n, d);
    let q = n / d;
    assert(n == d * q);
    assert(q > 0) by (nonlinear_arith)
        requires
            n == d * q,
            n > 0,
            d > 0,
    ;
    assert(n % q == 0) by {
        assert(n == q * d) by (nonlinear_arith)
            requires
                n == d * q,
        ;
        lemma_multiple_mod(q, d);
    }
    lemma_divides_trans(n, q, k);
}

/// Dividing `n` by a divisor `d` of at least two gives a smaller positive
/// quotient, and the product with the quotient is `n` again.
pub proof fn lemma_quotient(n: int, d: int)
    requires
        n > 0,
        d >= 2,
        n % d == 0,
    ensures
        0 < n / d < n,
        d * (n / d) == n,
{
    vstd::arithmetic::div_mod::lemma_fundamental_div_mod(n, d);
    let q = n / d;
    assert(0 < q < n) by (nonlinear_arith)
        requires
            n == d * q,
            n > 0,
            d >= 2,
    ;
}

/// The smallest divisor of `n` above one is prime.
pub proof fn lemma_smallest_divisor_is_prime(n: int, d: int)
    requires
        d >= 2,
        n > 0,
        n % d == 0,
        no_divisor_below(n, d),
    ensures
        is_prime(d),
{
    assert forall|k: int| 2 <= k < d implies #[trigger] (d % k) != 0 by {
        if d % k == 0 {
            lemma_divides_trans(n, d, k);
            assert(n % k == 0);
        }
    }
}

/// A number above one with no divisor below `d`, where `d * d` exceeds it,
/// is prime.
pub proof fn lemma_no_small_divisor_is_prime(n: int, d: int)
    requires
        n >= 2,
        d >= 2,
        d * d > n,
        no_divisor_below(n, d),
    ensures
        is_prime(n),
{
    assert forall|k: int| 2 <= k < n implies #[trigger] (n % k) != 0 by {
        if n % k == 0 {
            vstd::arithmetic::div_mod::lemma_fundamental_div_mod(n, k);
            let q = n / k;
            assert(n == k * q);
            assert(q >= 2) by (nonlinear_arith)
                requires
                    n == k * q,
                    k < n,
                    k >= 2,
            ;
            assert(n % q == 0) by {
                assert(n == q * k) by (nonlinear_arith)
                    requires
                        n == k * q,
                ;
                lemma_multiple_mod(q, k);
            }
            assert(n % k == 0);
            assert(k >= d);
            assert(q >= d);
            assert(false) by (nonlinear_arith)
                requires
                    n == k * q,
                    k >= d,
                    q >= d,
                    d >= 2,
                    d * d > n,
            ;
        }
    }
}

/// An even number that divides `n` makes `n` even.
pub proof fn lemma_even_divisor(n: int, e: int)
    requires
        e >= 2,
        e % 2 == 0,
        n % e == 0,
    ensures
        n % 2 == 0,
{
    lemma_divides_trans(n, e, 2);
}

/// What trial division keeps true: the factors found times what is left is
/// the original number, the factors are primes in order and at most `top`,
/// nothing below `d` divides what is left, and past 2 only odd candidates
/// are tried on an odd remainder.
pub open spec fn trial_division_state(
    orig: int,
    factors: Seq<u64>,
    n: int,
    d: int,
    top: int,
) -> bool {
    &&& orig == product(factors) * n
    &&& all_prime(factors)
    &&& is_nondecreasing(factors)
    &&& (forall|i: int| 0 <= i < factors.len() ==> #[trigger] factors[i] <= top)
    &&& no_divisor_below(n, d)
    &&& (d == 2 || (d % 2 == 1 && n % 2 != 0))
}

/// A candidate whose square is at most 2^62 is at most 2^31.
pub proof fn lemma_candidate_bound(d: int, n: int)
    requires
        d >= 2,
        d * d <= n,
        n <= 0x4000_0000_0000_0000,
    ensures
        d <= 0x8000_0000,
{
    assert(d <= 0x8000_0000) by (nonlinear_arith)
        requires
            d * d <= n,
            n <= 0x4000_0000_0000_0000,
            d >= 2,
    ;
}

/// Dividing the candidate `d` out of what is left records one more prime
/// factor and keeps the state.
pub proof fn lemma_divide_out(orig: int, factors: Seq<u64>, n: u64, d: u64)
    requires
        d >= 2,
        n >= 1,
        n % d == 0,
        trial_division_state(orig, factors, n as int, d as int, d as int),
    ensures
        1 <= n / d < n,
        trial_division_state(orig, factors.push(d), (n / d) as int, d as int, d as int),
{
    lemma_smallest_divisor_is_prime(n as int, d as int);
    lemma_quotient(n as int, d as int);
    lemma_product_push(factors, d);
    let f = factors.push(d);
    assert(all_prime(f)) by {
        assert forall|i: int| 0 <= i < f.len() implies is_prime(#[trigger] f[i] as int) by {
            if i < factors.len() {
                assert(f[i] == factors[i]);
            }
        }
    }
    assert(is_nondecreasing(f));
    assert forall|k: int| 2 <= k < d implies #[trigger] ((n / d) as int % k) != 0 by {
        if (n / d) as int % k == 0 {
            lemma_divisor_of_quotient(n as int, d as int, k);
        }
    }
    if d != 2 && (n / d) % 2 == 0 {
        lemma_divisor_of_quotient(n as int, d as int, 2);
    }
    let q = (n / d) as int;
    let p = product(factors);
    assert(p * d * q == p * (d * q)) by (nonlinear_arith);
}

/// The candidate after `d`: 3 after 2, then every second number.
pub open spec fn next_candidate(d: int) -> int {
    if d == 2 {
        3
    } else {
        d + 2
    }
}

/// Once `d` no longer divides what is left, the next candidate may be
/// tried: nothing below it divides what is left.
pub proof fn lemma_advance_candidate(orig: int, factors: Seq<u64>, n: int, d: int)
    requires
        d >= 2,
        n >= 1,
        n % d != 0,
        trial_division_state(orig, factors, n, d, d),
    ensures
        trial_division_state(orig, factors, n, next_candidate(d), next_candidate(d) - 1),
{
    if d == 2 {
        assert(no_divisor_below(n, 3));
    } else {
        assert forall|k: int| 2 <= k < d + 2 implies #[trigger] (n % k) != 0 by {
            if k == d + 1 && n % k == 0 {
                lemma_even_divisor(n, k);
            }
        }
    }
}

/// When the candidate's square exceeds what is left, what is left (if more
/// than one) is the last prime factor, and the factorisation is complete.
pub proof fn lemma_last_factor(orig: int, factors: Seq<u64>, n: u64, d: int)
    requires
        d >= 2,
        n >= 1,
        d * d > n,
        trial_division_state(orig, factors, n as int, d, d - 1),
    ensures
        n > 1 ==> is_prime_factorization(factors.push(n), orig),
        n == 1 ==> is_prime_factorization(factors, orig),
{
    if n > 1 {
        lemma_no_small_divisor_is_prime(n as int, d);
        lemma_product_push(factors, n);
        if (n as int) < d {
            assert(n as int % n as int == 0);
        }
        let f = factors.push(n);
        assert(all_prime(f)) by {
            assert forall|i: int| 0 <= i < f.len() implies is_prime(#[trigger] f[i] as int) by {
                if i < factors.len() {
                    assert(f[i] == factors[i]);
                }
            }
        }
        assert(is_nondecreasing(f));
    } else {
        assert(product(factors) * 1 == product(factors));
    }
}

} // verus!
