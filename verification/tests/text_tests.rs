use learning_rust::pointer_ops::{my_split_at_mut, raw_copy, raw_swap, safe_parallel_sum, safe_sum_via_pointer, SafePointerWrapper};
use learning_rust::abi::{compare_ints, exported_add, exported_multiply, get_greeting};
use learning_rust::text::{i32_to_string, join, parse_unsigned, trim_string, u64_to_string};
use learning_rust::strmap::StrMap;

#[test]
fn number_rendering() {
    assert_eq!(u64_to_string(0), "0");
    assert_eq!(u64_to_string(u64::MAX), "18446744073709551615");
    assert_eq!(i32_to_string(-42), "-42");
    assert_eq!(i32_to_string(i32::MIN), "-2147483648");
}

#[test]
fn parsing_and_trimming() {
    assert_eq!(parse_unsigned("123", 1000), Some(123));
    assert_eq!(parse_unsigned("1001", 1000), None);
    assert_eq!(parse_unsigned("", 1000), None);
    assert_eq!(parse_unsigned("12a", 1000), None);
    assert_eq!(trim_string(" \t a b \r\n"), "a b");
    assert_eq!(join(&vec!["a".to_string(), "b".to_string()], "-"), "a-b");
}

#[test]
fn string_map_replaces_values() {
    let mut m = StrMap::new();
    m.insert("k".to_string(), "1".to_string());
    m.insert("k".to_string(), "2".to_string());
    assert_eq!(m.get("k").map(|s| s.as_str()), Some("2"));
    assert!(m.contains_key("k"));
    assert!(!m.contains_key("j"));
    assert_eq!(m.len(), 1);
}

#[test]
fn safe_pointer_style_operations() {
    let mut data = [1, 2, 3, 4, 5];
    {
        let (left, right) = my_split_at_mut(&mut data, 2);
        left[0] = 10;
        right[0] = 30;
    }
    assert_eq!(data, [10, 2, 30, 4, 5]);
    assert_eq!(safe_sum_via_pointer(&data), 51);
    assert_eq!(safe_parallel_sum(&[1, 2, 3, 4, 5, 6, 7, 8, 9, 10]), 55);
    let (mut a, mut b) = (1, 2);
    raw_swap(&mut a, &mut b);
    assert_eq!((a, b), (2, 1));
    let src = [7, 8, 9];
    let mut dst = [0; 3];
    raw_copy(&src, &mut dst);
    assert_eq!(dst, src);
    assert_eq!(SafePointerWrapper::new(99).get(), 99);
}

#[test]
fn exported_functions() {
    assert_eq!(exported_add(2, 3), 5);
    assert_eq!(exported_multiply(4, 5), 20);
    assert!(compare_ints(1, 2) < 0);
    assert_eq!(compare_ints(5, 5), 0);
    assert_eq!(get_greeting(), "Hello from Rust extern function!");
}
