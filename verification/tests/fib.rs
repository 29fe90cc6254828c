use coop_kernel::fib::fib;

#[test]
fn fib_starts_with_zero_and_one() {
    assert_eq!(fib(0), 0);
    assert_eq!(fib(1), 1);
    assert_eq!(fib(2), 1);
}

#[test]
fn fib_of_the_first_ten() {
    let values: Vec<u32> = (1..=10).map(fib).collect();
    assert_eq!(values, vec![1, 1, 2, 3, 5, 8, 13, 21, 34, 55]);
}

#[test]
fn fib_of_twenty() {
    assert_eq!(fib(20), 6765);
}

#[test]
fn fib_of_thirty() {
    assert_eq!(fib(30), 832_040);
}

#[test]
fn fib_is_the_sum_of_the_two_before() {
    for n in 2..25 {
        assert_eq!(fib(n), fib(n - 1) + fib(n - 2));
    }
}
