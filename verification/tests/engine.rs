use complex_server::domain::calculation::{
    Calculation, CalculationResult, FibonacciInput, MatrixShape, PrimeFactorsInput, SleepInput,
};
use complex_server::domain::engine::{check_matrix_shape, check_sleep, fibonacci, prime_factors};
use complex_server::error::AppError;

fn factors_of(n: u64) -> Vec<u64> {
    match prime_factors(PrimeFactorsInput { n }) {
        Ok(CalculationResult::PrimeFactors { factors }) => factors,
        other => panic!("unexpected result {:?}", other),
    }
}

fn fib_text(n: u64) -> String {
    match fibonacci(FibonacciInput { n }) {
        Ok(CalculationResult::Fibonacci { number }) => number,
        other => panic!("unexpected result {:?}", other),
    }
}

fn bad_request(detail: &str) -> AppError {
    AppError::BadRequest(detail.to_string())
}

#[test]
fn prime_factors_of_small_composites() {
    assert_eq!(factors_of(12), vec![2, 2, 3]);
    assert_eq!(factors_of(2), vec![2]);
    assert_eq!(factors_of(3), vec![3]);
    assert_eq!(factors_of(4), vec![2, 2]);
    assert_eq!(factors_of(360), vec![2, 2, 2, 3, 3, 5]);
    assert_eq!(factors_of(49), vec![7, 7]);
}

#[test]
fn prime_factors_of_primes_and_large_numbers() {
    assert_eq!(factors_of(97), vec![97]);
    assert_eq!(factors_of(999_999_937), vec![999_999_937]);
    assert_eq!(factors_of(600_851_475_143), vec![71, 839, 1471, 6857]);
    assert_eq!(factors_of(1 << 62), vec![2; 62]);
}

#[test]
fn prime_factors_product_is_input() {
    for n in 2u64..2000 {
        let f = factors_of(n);
        assert_eq!(f.iter().product::<u64>(), n);
        assert!(f.windows(2).all(|w| w[0] <= w[1]));
        for p in &f {
            assert!((2..*p).all(|k| p % k != 0));
        }
    }
}

#[test]
fn prime_factors_rejects_out_of_range() {
    assert_eq!(prime_factors(PrimeFactorsInput { n: 0 }), Err(bad_request("n must be >= 2")));
    assert_eq!(prime_factors(PrimeFactorsInput { n: 1 }), Err(bad_request("n must be >= 2")));
    assert_eq!(
        prime_factors(PrimeFactorsInput { n: (1 << 62) + 1 }),
        Err(bad_request("prime_factors n must be <= 4611686018427387904"))
    );
    assert_eq!(
        prime_factors(PrimeFactorsInput { n: u64::MAX }),
        Err(bad_request("prime_factors n must be <= 4611686018427387904"))
    );
}

#[test]
fn fibonacci_numbers() {
    assert_eq!(fib_text(0), "0");
    assert_eq!(fib_text(1), "1");
    assert_eq!(fib_text(2), "1");
    assert_eq!(fib_text(10), "55");
    assert_eq!(fib_text(93), "12200160415121876738");
    assert_eq!(fib_text(94), "19740274219868223167");
    assert_eq!(fib_text(100), "354224848179261915075");
    assert_eq!(fib_text(1000).len(), 209);
    assert!(fib_text(1000).starts_with("43466557686937456435688527675040625802564660517371780402481729089536555417949051890403879840079255169295922593080322634775209689623239873322471161642996440906533187938298969649928516003704476137795166849228875"));
}

#[test]
fn fibonacci_rejects_large_index() {
    assert_eq!(
        fibonacci(FibonacciInput { n: 200_001 }),
        Err(bad_request("fibonacci n must be <= 200000"))
    );
}

fn shape(a: Vec<usize>, b: Vec<usize>) -> MatrixShape {
    MatrixShape { a_rows: a, b_rows: b }
}

#[test]
fn matrix_shape_accepted() {
    assert_eq!(check_matrix_shape(&shape(vec![3, 3], vec![2, 2, 2])), Ok((2, 3, 2)));
    assert_eq!(check_matrix_shape(&shape(vec![1], vec![1])), Ok((1, 1, 1)));
    assert_eq!(check_matrix_shape(&shape(vec![256; 256], vec![256; 256])), Ok((256, 256, 256)));
}

#[test]
fn matrix_shape_rejections() {
    assert_eq!(
        check_matrix_shape(&shape(vec![], vec![1])),
        Err(bad_request("matrices must be non-empty"))
    );
    assert_eq!(
        check_matrix_shape(&shape(vec![0, 0], vec![1])),
        Err(bad_request("matrices must be non-empty"))
    );
    assert_eq!(
        check_matrix_shape(&shape(vec![2], vec![])),
        Err(bad_request("matrices must be non-empty"))
    );
    assert_eq!(
        check_matrix_shape(&shape(vec![257], vec![1; 257])),
        Err(bad_request("matrix dimensions must be <= 256"))
    );
    assert_eq!(
        check_matrix_shape(&shape(vec![1; 257], vec![1])),
        Err(bad_request("matrix dimensions must be <= 256"))
    );
    assert_eq!(
        check_matrix_shape(&shape(vec![3, 3], vec![2, 2])),
        Err(bad_request("cols(a)=3 must equal rows(b)=2"))
    );
    assert_eq!(
        check_matrix_shape(&shape(vec![2, 1], vec![2, 2])),
        Err(bad_request("matrices must be rectangular"))
    );
    assert_eq!(
        check_matrix_shape(&shape(vec![2, 2], vec![3, 3, 1].into_iter().take(2).collect())),
        Ok((2, 2, 3))
    );
    assert_eq!(
        check_matrix_shape(&shape(vec![2, 2], vec![3, 4])),
        Err(bad_request("matrices must be rectangular"))
    );
}

#[test]
fn sleep_limits() {
    assert_eq!(check_sleep(SleepInput { ms: 0 }), Ok(0));
    assert_eq!(check_sleep(SleepInput { ms: 60_000 }), Ok(60_000));
    assert_eq!(
        check_sleep(SleepInput { ms: 60_001 }),
        Err(bad_request("sleep ms must be <= 60000"))
    );
}

#[test]
fn calculation_kinds() {
    assert_eq!(Calculation::Fibonacci(FibonacciInput { n: 1 }).kind(), "fibonacci");
    assert_eq!(Calculation::PrimeFactors(PrimeFactorsInput { n: 1 }).kind(), "prime_factors");
    assert_eq!(Calculation::MatrixMultiply(shape(vec![], vec![])).kind(), "matrix_multiply");
    assert_eq!(Calculation::Sleep(SleepInput { ms: 1 }).kind(), "sleep");
}
