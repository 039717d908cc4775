use cogent_core::stack::Stack;

#[test]
fn test_stack_operations() {
    let mut stack = Stack::new();
    assert!(stack.is_empty());

    stack.push(1);
    stack.push(2);
    stack.push(3);

    assert_eq!(stack.len(), 3);
    assert_eq!(stack.peek(), Some(&3));

    assert_eq!(stack.pop(), Some(3));
    assert_eq!(stack.pop(), Some(2));
    assert_eq!(stack.pop(), Some(1));
    assert_eq!(stack.pop(), None);
    assert!(stack.is_empty());
}

#[test]
fn test_stack_default_is_empty() {
    let stack: Stack<u32> = Stack::default();
    assert!(stack.is_empty());
}

#[test]
fn test_stack_with_capacity_starts_empty() {
    let stack: Stack<u32> = Stack::with_capacity(16);
    assert!(stack.is_empty());
    assert_eq!(stack.len(), 0);
}

#[test]
fn test_stack_push_many_keeps_order() {
    let mut stack = Stack::new();
    stack.push(1u32);
    stack.push_many(vec![2, 3, 4]);
    assert_eq!(stack.len(), 4);
    assert_eq!(stack.pop(), Some(4));
    assert_eq!(stack.pop(), Some(3));
    assert_eq!(stack.pop(), Some(2));
    assert_eq!(stack.pop(), Some(1));
}

#[test]
fn test_stack_clear_empties() {
    let mut stack = Stack::new();
    stack.push("a");
    stack.push("b");
    stack.clear();
    assert!(stack.is_empty());
    assert_eq!(stack.pop(), None);
}

#[test]
fn test_stack_peek_does_not_remove() {
    let mut stack = Stack::new();
    stack.push(7u8);
    assert_eq!(stack.peek(), Some(&7));
    assert_eq!(stack.len(), 1);
}
