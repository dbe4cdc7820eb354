use factorial::factorial;

#[test]
fn zero_and_one_give_one() {
    assert_eq!(factorial(0), 1);
    assert_eq!(factorial(1), 1);
}

#[test]
fn five_gives_120() {
    assert_eq!(factorial(5), 120);
}

#[test]
fn ten_and_twelve() {
    assert_eq!(factorial(10), 3628800);
    assert_eq!(factorial(12), 479001600);
}

#[test]
fn small_values_in_order() {
    let expected: [u64; 8] = [1, 1, 2, 6, 24, 120, 720, 5040];
    let mut n: u64 = 0;
    while n < 8 {
        assert_eq!(factorial(n), expected[n as usize]);
        n += 1;
    }
}

#[test]
fn twenty_is_the_last_exact_value() {
    assert_eq!(factorial(20), 2432902008176640000);
    assert_eq!(factorial(20) / 20, factorial(19));
}

#[test]
fn each_value_is_n_times_the_one_before_while_it_fits() {
    let mut n: u64 = 2;
    while n <= 20 {
        let before = factorial(n - 1);
        assert_eq!(Some(factorial(n)), n.checked_mul(before));
        n += 1;
    }
}

#[test]
fn twenty_one_wraps_modulo_two_to_the_64() {
    // 21! = 51090942171709440000 = 2 * 2^64 + 14197454024290336768
    assert_eq!(factorial(21), 14197454024290336768);
    let exact: u128 = 51090942171709440000;
    assert_eq!(factorial(21) as u128, exact % (1u128 << 64));
}

#[test]
fn wrapped_values_follow_the_recurrence_modulo_two_to_the_64() {
    let mut n: u64 = 2;
    while n <= 80 {
        assert_eq!(factorial(n), n.wrapping_mul(factorial(n - 1)));
        n += 1;
    }
}

#[test]
fn wrapped_values_agree_with_wide_arithmetic() {
    // 34! is the largest factorial that a u128 holds.
    let mut exact: u128 = 1;
    let mut n: u64 = 1;
    while n <= 34 {
        exact *= n as u128;
        assert_eq!(factorial(n) as u128, exact % (1u128 << 64));
        n += 1;
    }
}

#[test]
fn sixty_five_leaves_only_the_top_bit() {
    assert_eq!(factorial(65), 1u64 << 63);
}

#[test]
fn from_sixty_six_on_the_word_is_zero() {
    assert_eq!(factorial(66), 0);
    assert_eq!(factorial(67), 0);
    assert_eq!(factorial(1000), 0);
}

#[test]
fn large_argument_returns() {
    assert_eq!(factorial(2_000_000), 0);
}

#[test]
fn repeated_calls_agree() {
    let mut n: u64 = 0;
    while n <= 70 {
        let first = factorial(n);
        let second = factorial(n);
        assert_eq!(first, second);
        n += 1;
    }
}

#[test]
fn second_line_of_the_program() {
    assert_eq!(format!("Factorial of 5 is {}", factorial(5)), "Factorial of 5 is 120");
}
