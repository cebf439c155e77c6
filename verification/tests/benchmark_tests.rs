use learning_rust::benchmark::{
    bubble_sort, count_primes, fibonacci_iterative, fibonacci_recursive, insertion_sort, is_prime,
    string_concat_join, string_concat_push,
};

#[test]
fn test_bubble_sort() {
    let mut arr = vec![5, 3, 8, 1, 2];
    bubble_sort(&mut arr);
    assert_eq!(arr, vec![1, 2, 3, 5, 8]);
}

#[test]
fn test_insertion_sort() {
    let mut arr = vec![5, 3, 8, 1, 2];
    insertion_sort(&mut arr);
    assert_eq!(arr, vec![1, 2, 3, 5, 8]);
}

#[test]
fn test_fibonacci_iterative() {
    assert_eq!(fibonacci_iterative(0), 0);
    assert_eq!(fibonacci_iterative(1), 1);
    assert_eq!(fibonacci_iterative(10), 55);
}

#[test]
fn test_fibonacci_recursive() {
    assert_eq!(fibonacci_recursive(0), 0);
    assert_eq!(fibonacci_recursive(1), 1);
    assert_eq!(fibonacci_recursive(10), 55);
}

#[test]
fn test_count_primes() {
    assert_eq!(count_primes(10), 4);
    assert_eq!(count_primes(100), 25);
}

#[test]
fn test_is_prime() {
    assert!(!is_prime(0));
    assert!(!is_prime(1));
    assert!(is_prime(2));
    assert!(is_prime(3));
    assert!(!is_prime(4));
    assert!(is_prime(97));
}

#[test]
fn test_string_concat_results_equal() {
    let result1 = string_concat_push(20);
    let result2 = string_concat_join(20);
    assert_eq!(result1, result2);
}

#[test]
fn sorts_handle_empty_single_and_duplicates() {
    let mut empty: Vec<i32> = vec![];
    bubble_sort(&mut empty);
    assert!(empty.is_empty());
    let mut one = vec![7];
    insertion_sort(&mut one);
    assert_eq!(one, vec![7]);
    let mut dup = vec![3, -1, 3, 0, -1, i32::MAX, i32::MIN];
    let mut dup2 = dup.clone();
    bubble_sort(&mut dup);
    insertion_sort(&mut dup2);
    assert_eq!(dup, vec![i32::MIN, -1, -1, 0, 3, 3, i32::MAX]);
    assert_eq!(dup, dup2);
}

#[test]
fn fibonacci_largest_fitting_value() {
    assert_eq!(fibonacci_iterative(93), 12200160415121876738);
    assert_eq!(fibonacci_recursive(20), 6765);
}

#[test]
fn primality_near_limits() {
    assert!(is_prime(65521));
    assert!(!is_prime(65535));
    assert!(!is_prime(4294967295));
    assert_eq!(count_primes(1), 0);
    assert_eq!(count_primes(2), 1);
}

#[test]
fn concat_of_first_numbers() {
    assert_eq!(string_concat_push(12), "01234567891011");
    assert_eq!(string_concat_join(0), "");
}
