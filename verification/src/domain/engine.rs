//! The engine: each calculation checked against its limits and run.

use vstd::prelude::*;

use crate::domain::bignum::{big_add, big_one, big_to_decimal, big_value, big_zero};
use crate::domain::calculation::{CalculationResult, FibonacciInput, MatrixShape, PrimeFactorsInput, SleepInput};
use crate::domain::primes::{
    is_prime_factorization, lemma_advance_candidate, lemma_candidate_bound, lemma_divide_out,
    lemma_last_factor, trial_division_state,
};
use crate::error::{is_bad_request, AppError, AppResult};
use crate::text::{decimal, join, owned, usize_decimal};

verus! {

/// The largest index of a Fibonacci number that is computed.
pub const MAX_FIB_N: u64 = 200_000;

/// The largest number whose prime factors are computed (2 to the 62nd).
pub const MAX_PRIME_N: u64 = 0x4000_0000_0000_0000;

/// The `n`-th Fibonacci number: 0, 1, 1, 2, 3, 5, ...
pub open spec fn fib(n: nat) -> nat
    decreases n,
{
    if n == 0 {
        0
    } else if n == 1 {
        1
    } else {
        fib((n - 2) as nat) + fib((n - 1) as nat)
    }
}

/// The Fibonacci numbers start with 0 and 1, and each later one is the sum
/// of the two before it.
pub proof fn lemma_fib_recurrence(n: nat)
    ensures
        fib(0) == 0,
        fib(1) == 1,
        fib(n + 2) == fib(n) + fib(n + 1),
{
    assert(fib(n + 2) == fib(n) + fib(n + 1));
}

/// The `input.n`-th Fibonacci number as a decimal numeral, computed exactly
/// with arbitrary-precision integers.
#[verifier::spinoff_prover]
pub fn fibonacci(input: FibonacciInput) -> (res: AppResult<CalculationResult>)
    ensures
        input.n > MAX_FIB_N ==> is_bad_request(res, "fibonacci n must be <= 200000"@),
        input.n <= MAX_FIB_N ==> (res matches Ok(CalculationResult::Fibonacci { number })
            && number@ == decimal(fib(input.n as nat))),
{
    if input.n > MAX_FIB_N {
        return Err(AppError::BadRequest(owned("fibonacci n must be <= 200000")));
    }
    let mut a = big_zero();
    let mut b = big_one();
    let mut i: u64 = 0;
    while i < input.n
        invariant
            i <= input.n,
            big_value(a) == fib(i as nat),
            big_value(b) == fib(i as nat + 1),
        decreases input.n - i,
    {
        let next = big_add(&a, &b);
        a = b;
        b = next;
        i = i + 1;
    }
    Ok(CalculationResult::Fibonacci { number: big_to_decimal(&a) })
}

/// The largest number of rows or columns of a matrix in a product.
pub const MAX_MATRIX_DIM: usize = 256;

/// The longest sleep a job may ask for, in milliseconds.
pub const MAX_SLEEP_MS: u64 = 60_000;

/// The length of the first row, or zero for a matrix without rows.
pub open spec fn first_row_len(rows: Seq<usize>) -> nat {
    if rows.len() == 0 { 0 } else { rows[0] as nat }
}

/// Every row has `width` entries.
pub open spec fn all_rows_have(rows: Seq<usize>, width: nat) -> bool {
    forall|i: int| 0 <= i < rows.len() ==> #[trigger] rows[i] == width
}

/// Some dimension of the product is zero.
pub open spec fn shape_is_empty(s: MatrixShape) -> bool {
    s.a_rows@.len() == 0 || first_row_len(s.a_rows@) == 0 || s.b_rows@.len() == 0
        || first_row_len(s.b_rows@) == 0
}

/// Some dimension of the product exceeds the limit.
pub open spec fn shape_is_too_large(s: MatrixShape) -> bool {
    s.a_rows@.len() > MAX_MATRIX_DIM || first_row_len(s.a_rows@) > MAX_MATRIX_DIM
        || s.b_rows@.len() > MAX_MATRIX_DIM || first_row_len(s.b_rows@) > MAX_MATRIX_DIM
}

/// The rows of each matrix all have the length of its first row.
pub open spec fn shape_is_rectangular(s: MatrixShape) -> bool {
    all_rows_have(s.a_rows@, first_row_len(s.a_rows@)) && all_rows_have(
        s.b_rows@,
        first_row_len(s.b_rows@),
    )
}

/// A shape is rectangular exactly when every row of each matrix has the
/// length of that matrix's first row.
pub proof fn lemma_rectangular_iff_rows_equal(s: MatrixShape)
    ensures
        shape_is_rectangular(s) <==> (forall|i: int| 0 <= i < s.a_rows@.len() ==> #[trigger] s.a_rows@[i] == s.a_rows@[0])
            && (forall|j: int| 0 <= j < s.b_rows@.len() ==> #[trigger] s.b_rows@[j] == s.b_rows@[0]),
{
}

/// A shape is too large exactly when one of the four dimensions (the rows
/// and the first row's length of each matrix) exceeds the limit.
pub proof fn lemma_too_large_iff_a_dimension_exceeds(s: MatrixShape)
    requires
        s.a_rows@.len() > 0,
        s.b_rows@.len() > 0,
    ensures
        shape_is_too_large(s) <==> (s.a_rows@.len() > MAX_MATRIX_DIM || s.a_rows@[0] > MAX_MATRIX_DIM
            || s.b_rows@.len() > MAX_MATRIX_DIM || s.b_rows@[0] > MAX_MATRIX_DIM),
{
}

/// Whether all rows have length `width`, checked one by one.
fn rows_all_have(rows: &Vec<usize>, width: usize) -> (r: bool)
    ensures
        r == all_rows_have(rows@, width as nat),
{
    let mut i: usize = 0;
    while i < rows.len()
        invariant
            i <= rows@.len(),
            forall|j: int| 0 <= j < i ==> #[trigger] rows@[j] == width,
        decreases rows@.len() - i,
    {
        if rows[i] != width {
            return false;
        }
        i = i + 1;
    }
    true
}

/// The length of the first row, or zero for a matrix without rows.
fn first_len(rows: &Vec<usize>) -> (r: usize)
    ensures
        r == first_row_len(rows@),
{
    if rows.len() == 0 { 0 } else { rows[0] }
}

/// Checks that a matrix product of this shape may be computed and returns
/// the rows of `a`, the columns of `a` (the rows of `b`) and the columns of
/// `b`. The checks come in this order: no dimension is zero, none exceeds
/// the limit, the inner dimensions agree, and both matrices are rectangular.
pub fn check_matrix_shape(shape: &MatrixShape) -> (res: AppResult<(usize, usize, usize)>)
    ensures
        shape_is_empty(*shape) ==> is_bad_request(res, "matrices must be non-empty"@),
        !shape_is_empty(*shape) && shape_is_too_large(*shape) ==> is_bad_request(
            res,
            "matrix dimensions must be <= 256"@,
        ),
        !shape_is_empty(*shape) && !shape_is_too_large(*shape) && first_row_len(shape.a_rows@)
            != shape.b_rows@.len() ==> is_bad_request(
            res,
            "cols(a)="@ + decimal(first_row_len(shape.a_rows@)) + " must equal rows(b)="@
                + decimal(shape.b_rows@.len()),
        ),
        !shape_is_empty(*shape) && !shape_is_too_large(*shape) && first_row_len(shape.a_rows@)
            == shape.b_rows@.len() && !shape_is_rectangular(*shape) ==> is_bad_request(
            res,
            "matrices must be rectangular"@,
        ),
        !shape_is_empty(*shape) && !shape_is_too_large(*shape) && first_row_len(shape.a_rows@)
            == shape.b_rows@.len() && shape_is_rectangular(*shape) ==> res == Ok::<
            (usize, usize, usize),
            AppError,
        >((shape.a_rows@.len() as usize, shape.b_rows@.len() as usize, first_row_len(shape.b_rows@) as usize)),
        res matches Ok(dims) ==> {
            let (r, k, c) = dims;
            &&& r as nat == shape.a_rows@.len() && k as nat == shape.b_rows@.len()
            &&& 1 <= r <= MAX_MATRIX_DIM && 1 <= k <= MAX_MATRIX_DIM && 1 <= c <= MAX_MATRIX_DIM
            &&& forall|i: int| 0 <= i < shape.a_rows@.len() ==> #[trigger] shape.a_rows@[i] == k
            &&& forall|j: int| 0 <= j < shape.b_rows@.len() ==> #[trigger] shape.b_rows@[j] == c
        },
{
    let rows_a = shape.a_rows.len();
    let cols_a = first_len(&shape.a_rows);
    let rows_b = shape.b_rows.len();
    let cols_b = first_len(&shape.b_rows);
    if rows_a == 0 || cols_a == 0 || rows_b == 0 || cols_b == 0 {
        return Err(AppError::BadRequest(owned("matrices must be non-empty")));
    }
    if rows_a > MAX_MATRIX_DIM || cols_a > MAX_MATRIX_DIM || rows_b > MAX_MATRIX_DIM || cols_b
        > MAX_MATRIX_DIM {
        return Err(AppError::BadRequest(owned("matrix dimensions must be <= 256")));
    }
    if cols_a != rows_b {
        let m = join(owned("cols(a)="), usize_decimal(cols_a).as_str());
        let m = join(m, " must equal rows(b)=");
        let m = join(m, usize_decimal(rows_b).as_str());
        return Err(AppError::BadRequest(m));
    }
    if !rows_all_have(&shape.a_rows, cols_a) || !rows_all_have(&shape.b_rows, cols_b) {
        return Err(AppError::BadRequest(owned("matrices must be rectangular")));
    }
    Ok((rows_a, cols_a, cols_b))
}

/// Checks the length of a requested sleep and returns it.
pub fn check_sleep(input: SleepInput) -> (res: AppResult<u64>)
    ensures
        input.ms > MAX_SLEEP_MS ==> is_bad_request(res, "sleep ms must be <= 60000"@),
        input.ms <= MAX_SLEEP_MS ==> res == Ok::<u64, AppError>(input.ms),
{
    if input.ms > MAX_SLEEP_MS {
        return Err(AppError::BadRequest(owned("sleep ms must be <= 60000")));
    }
    Ok(input.ms)
}

/// Whether `d * d` is at most `n`, computed without overflow.
fn square_at_most(d: u64, n: u64) -> (r: bool)
    ensures
        r == (d * d <= n),
{
    match d.checked_mul(d) {
        Some(sq) => sq <= n,
        None => false,
    }
}

/// The prime factors of `input.n`, smallest first and repeated by
/// multiplicity, found by trial division by 2 and the odd numbers.
#[verifier::spinoff_prover]
pub fn prime_factors(input: PrimeFactorsInput) -> (res: AppResult<CalculationResult>)
    ensures
        input.n < 2 ==> is_bad_request(res, "n must be >= 2"@),
        input.n > MAX_PRIME_N ==> is_bad_request(res, "prime_factors n must be <= 4611686018427387904"@),
        2 <= input.n <= MAX_PRIME_N ==> (res matches Ok(CalculationResult::PrimeFactors { factors })
            && is_prime_factorization(factors@, input.n as int)),
{
    if input.n < 2 {
        return Err(AppError::BadRequest(owned("n must be >= 2")));
    }
    if input.n > MAX_PRIME_N {
        return Err(AppError::BadRequest(owned("prime_factors n must be <= 4611686018427387904")));
    }
    let ghost orig = input.n as int;
    let mut n: u64 = input.n;
    let mut factors: Vec<u64> = Vec::new();
    let mut d: u64 = 2;
    while square_at_most(d, n)
        invariant
            2 <= d <= 0x8000_0002,
            1 <= n <= MAX_PRIME_N,
            trial_division_state(orig, factors@, n as int, d as int, d - 1),
        decreases n + 0x1_0000_0000 - d,
    {
        proof {
            lemma_candidate_bound(d as int, n as int);
        }
        let ghost n_before = n;
        while n % d == 0
            invariant
                2 <= d <= 0x8000_0000,
                1 <= n <= n_before,
                trial_division_state(orig, factors@, n as int, d as int, d as int),
            decreases n,
        {
            proof {
                lemma_divide_out(orig, factors@, n, d);
            }
            factors.push(d);
            n = n / d;
        }
        proof {
            lemma_advance_candidate(orig, factors@, n as int, d as int);
        }
        d = d + if d == 2 { 1 } else { 2 };
    }
    proof {
        lemma_last_factor(orig, factors@, n, d as int);
    }
    if n > 1 {
        factors.push(n);
    }
    Ok(CalculationResult::PrimeFactors { factors })
}

} // verus!
