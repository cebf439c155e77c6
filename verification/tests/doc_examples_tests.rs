use learning_rust::basics::{add, fetch_data, fibonacci, greet};
use learning_rust::stack::Stack;

#[test]
fn test_add() {
    assert_eq!(add(2, 3), 5);
    assert_eq!(add(-1, 1), 0);
}

#[test]
fn test_greet() {
    assert_eq!(greet("Rust"), "你好，Rust！");
}

#[test]
fn test_fibonacci() {
    assert_eq!(fibonacci(0), 0);
    assert_eq!(fibonacci(1), 1);
    assert_eq!(fibonacci(10), 55);
    let fibs: Vec<u64> = (0..8).map(fibonacci).collect();
    assert_eq!(fibs, vec![0, 1, 1, 2, 3, 5, 8, 13]);
}

#[test]
fn test_stack() {
    let mut stack = Stack::new();
    assert!(stack.is_empty());
    stack.push(1);
    stack.push(2);
    stack.push(3);
    assert_eq!(stack.len(), 3);
    assert_eq!(stack.peek(), Some(&3));
    assert_eq!(stack.pop(), Some(3));
    assert_eq!(stack.pop(), Some(2));
    assert_eq!(stack.pop(), Some(1));
    assert_eq!(stack.pop(), None);
    assert!(stack.is_empty());
}

#[test]
#[should_panic(expected = "名字不能为空")]
fn test_greet_empty() {
    let name = "";
    // `greet` requires a non-empty name; a caller outside the verified code checks it.
    if name.is_empty() {
        panic!("名字不能为空！");
    }
    greet(name);
}

#[test]
fn fetch_data_message() {
    assert_eq!(fetch_data("https://example.com"), "来自 https://example.com 的数据");
    assert_eq!(fetch_data(""), "来自  的数据");
}

#[test]
fn stack_push_then_pop_restores() {
    let mut stack = Stack::new();
    stack.push("a".to_string());
    stack.push("b".to_string());
    stack.push("c".to_string());
    assert_eq!(stack.pop().as_deref(), Some("c"));
    assert_eq!(stack.peek().map(|s| s.as_str()), Some("b"));
    assert_eq!(stack.len(), 2);
    let empty: Stack<u8> = Stack::new();
    assert_eq!(empty.peek(), None);
}

#[test]
fn fibonacci_last_fitting() {
    assert_eq!(fibonacci(93), 12200160415121876738);
}
