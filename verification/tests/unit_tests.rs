use learning_rust::attributes::{
    complex_operation, expensive_check, important_calculation, multiply,
    new_function, old_function, AppConfig, Pixel,
};
use learning_rust::attributes::platform::{get_arch, get_line_ending, get_os_name, get_path_separator, platform_specific, Arch, Os};
use learning_rust::helpers::{add, is_even, slow_computation, wrap_in_brackets, Guess};

fn divide(a: i32, b: i32) -> i32 {
    if b == 0 {
        panic!("除以零");
    }
    a / b
}

#[test]
fn test_example() {
    assert_eq!(2 + 2, 4);
}

#[test]
#[should_panic(expected = "除以零")]
fn main_test_divide_by_zero() {
    divide(10, 0);
}

#[test]
fn test_is_even() {
    assert!(is_even(4), "4 应该是偶数");
    assert!(is_even(0), "0 应该是偶数");
    assert!(is_even(-2), "-2 应该是偶数");
    assert!(!is_even(3), "3 不应该是偶数");
    assert!(!is_even(1), "1 不应该是偶数");
}

#[test]
fn main_test_add() {
    assert_eq!(add(2, 3), 5);
    assert_eq!(add(-1, 1), 0);
    assert_eq!(add(0, 0), 0);
    assert_eq!(add(-5, -3), -8);
}

#[test]
fn test_add_not_equal() {
    assert_ne!(add(2, 3), 6, "2 + 3 不应该等于 6");
    assert_ne!(add(1, 1), 3);
}

#[test]
fn test_float_comparison() {
    let result: f64 = 0.1 + 0.2;
    let epsilon: f64 = 1e-10;
    assert!(
        (result - 0.3_f64).abs() < epsilon,
        "0.1 + 0.2 应该约等于 0.3，实际值: {}",
        result
    );
}

#[test]
fn test_wrap_in_brackets() {
    assert_eq!(wrap_in_brackets("hello"), "[hello]");
    assert_eq!(wrap_in_brackets(""), "[]");
    assert_eq!(wrap_in_brackets("Rust"), "[Rust]");
}

#[test]
fn test_guess_valid() {
    let g = Guess::new(50);
    assert_eq!(g.value(), 50);
    let g = Guess::new(1);
    assert_eq!(g.value(), 1);
    let g = Guess::new(100);
    assert_eq!(g.value(), 100);
}

#[test]
fn test_custom_failure_messages() {
    let x = 42;
    assert!(x > 0, "x 的值 {} 应该大于 0", x);
    assert_eq!(x, 42, "期望 x 等于 42，但实际值是 {}", x);
    assert_ne!(x, 0, "x 不应该为 0，但实际值是 {}", x);
}

#[test]
fn test_private_functions() {
    assert_eq!(add(1, 2), 3);
    assert!(is_even(10));
}

#[test]
fn odd_negative_numbers_are_not_even() {
    assert!(!is_even(-3));
    assert!(is_even(i32::MIN));
    assert!(!is_even(i32::MAX));
}

#[test]
fn slow_computation_sums() {
    assert_eq!(slow_computation(0), 0);
    assert_eq!(slow_computation(1), 0);
    assert_eq!(slow_computation(1000), 499500);
}

#[test]
fn attribute_functions() {
    assert_eq!(learning_rust::attributes::add(3, 4), 7);
    assert_eq!(multiply(3, 4), 12);
    assert_eq!(complex_operation(5), 36);
    assert_eq!(complex_operation(-46340), 2147302921);
    assert_eq!(important_calculation(21), 42);
    assert_eq!(old_function(), new_function());
    assert_eq!(expensive_check(-5), 5);
    assert_eq!(expensive_check(i32::MAX), i32::MAX);
    assert_eq!(get_line_ending(true), "\r\n");
    assert_eq!(get_line_ending(false), "\n");
    assert_eq!(get_path_separator(true), '\\');
    assert_eq!(get_path_separator(false), '/');
    assert_eq!(get_os_name(Os::MacOs), "macOS");
    assert_eq!(get_os_name(Os::Other), "Unknown OS");
    assert_eq!(get_arch(Arch::Aarch64), "aarch64 (ARM64)");
    assert_eq!(get_arch(Arch::Other), "其他架构");
    assert_eq!(platform_specific(false), "非 Windows x86_64 平台");
    let config = AppConfig::new("MyApp", "1.0.0", true);
    assert_eq!(config.name, "MyApp");
    assert_eq!(config.version, "1.0.0");
    assert!(config.debug);
    assert_eq!(Pixel::default(), Pixel { r: 0, g: 0, b: 0 });
}

/// `Guess::new` requires a value in `1..=100`; a caller outside the verified
/// code checks that first, as this one does.
fn checked_guess(value: i32) -> Guess {
    if !(1..=100).contains(&value) {
        panic!("猜测值必须在 1 到 100 之间，收到的值是: {}", value);
    }
    Guess::new(value)
}

#[test]
#[should_panic(expected = "猜测值必须在 1 到 100 之间")]
fn test_guess_too_large() {
    checked_guess(200);
}

#[test]
#[should_panic(expected = "猜测值必须在 1 到 100 之间")]
fn test_guess_too_small() {
    checked_guess(0);
}
