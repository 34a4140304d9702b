use chip_8::vm::stack::Stack;

#[test]
fn test_stack() {
    let mut stack = Stack::new();

    assert_eq!(stack.pop(), Err("stack empty"));

    // Push 12 items onto the stack
    assert!(stack.push(1).is_ok());
    for x in 2u16..=12 {
        assert!(stack.push(x).is_ok());
    }

    // Pushing a 13th item fails
    assert_eq!(stack.push(13), Err("stack overflow"));

    // Pop 12 items off the stack
    assert_eq!(stack.pop().unwrap(), 12);
    for x in (1u16..=11).rev() {
        assert_eq!(stack.pop().unwrap(), x);
    }

    // Popping a 13th item fails
    assert_eq!(stack.pop(), Err("stack empty"));
}

#[test]
fn test_failed_push_keeps_contents() {
    let mut stack = Stack::new();
    for x in 1u16..=12 {
        assert!(stack.push(x).is_ok());
    }
    assert_eq!(stack.push(99), Err("stack overflow"));
    for x in (1u16..=12).rev() {
        assert_eq!(stack.pop().unwrap(), x);
    }
}
