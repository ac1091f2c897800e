//! The calculations a job can ask for and the results they produce.

use vstd::prelude::*;

verus! {

/// Asks for the `n`-th Fibonacci number.
#[derive(Debug, Clone, Copy, PartialEq, Eq)]
pub struct FibonacciInput {
    pub n: u64,
}

/// Asks for the prime factors of `n`.
#[derive(Debug, Clone, Copy, PartialEq, Eq)]
pub struct PrimeFactorsInput {
    pub n: u64,
}

/// Asks the worker to sleep for `ms` milliseconds.
#[derive(Debug, Clone, Copy, PartialEq, Eq)]
pub struct SleepInput {
    pub ms: u64,
}

/// The shape of a matrix product request: the length of every row of the
/// left matrix `a` and of the right matrix `b`, in order.
#[derive(Debug, Clone, PartialEq, Eq)]
pub struct MatrixShape {
    pub a_rows: Vec<usize>,
    pub b_rows: Vec<usize>,
}

/// A calculation that a job carries. A matrix product is described by its
/// shape, which is all that the library decides on.
#[derive(Debug, Clone, PartialEq, Eq)]
pub enum Calculation {
    Fibonacci(FibonacciInput),
    PrimeFactors(PrimeFactorsInput),
    MatrixMultiply(MatrixShape),
    Sleep(SleepInput),
}

/// The result of a calculation other than a matrix product.
#[derive(Debug, Clone, PartialEq, Eq)]
pub enum CalculationResult {
    Fibonacci { number: String },
    PrimeFactors { factors: Vec<u64> },
    Sleep { slept_ms: u64 },
}

impl Calculation {
    /// The name under which this kind of calculation is submitted and stored.
    pub open spec fn kind_spec(&self) -> Seq<char> {
        match self {
            Calculation::Fibonacci(_) => "fibonacci"@,
            Calculation::PrimeFactors(_) => "prime_factors"@,
            Calculation::MatrixMultiply(_) => "matrix_multiply"@,
            Calculation::Sleep(_) => "sleep"@,
        }
    }

    /// The name under which this kind of calculation is submitted and stored.
    pub fn kind(&self) -> (r: &'static str)
        ensures
            r@ == self.kind_spec(),
    {
        match self {
            Calculation::Fibonacci(_) => "fibonacci",
            Calculation::PrimeFactors(_) => "prime_factors",
            Calculation::MatrixMultiply(_) => "matrix_multiply",
            Calculation::Sleep(_) => "sleep",
        }
    }
}

} // verus!
