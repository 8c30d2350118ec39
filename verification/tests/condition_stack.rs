use scriptful::condition_stack::ConditionStack;

/// Runs the steps on a plain vector of booleans and on the condition stack
/// side by side, and compares what the two show after each step.
fn agree(steps: &[u8]) {
    let mut plain: Vec<bool> = Vec::new();
    let mut stack = ConditionStack::default();
    assert!(stack.is_empty());
    assert!(stack.all_true());
    for step in steps {
        match step {
            0 => {
                plain.push(false);
                stack.push_back(false);
            }
            1 => {
                plain.push(true);
                stack.push_back(true);
            }
            2 => {
                assert_eq!(stack.pop_back(), plain.pop().map(|_| ()));
            }
            _ => {
                let toggled = plain.last_mut().map(|top| *top = !*top);
                assert_eq!(stack.toggle_top(), toggled);
            }
        }
        assert_eq!(stack.is_empty(), plain.is_empty());
        assert_eq!(stack.all_true(), plain.iter().all(|b| *b));
    }
}

#[test]
fn test_condition_stack_starts_empty() {
    let stack = ConditionStack::new();
    assert!(stack.is_empty());
    assert!(stack.all_true());
    assert_eq!(stack.size(), 0);
}

#[test]
fn test_condition_stack_size() {
    let mut stack = ConditionStack::new();
    stack.push_back(false);
    stack.push_back(true);
    assert_eq!(stack.size(), 2);
    assert_eq!(stack.toggle_top(), Some(()));
    assert_eq!(stack.size(), 2);
    assert_eq!(stack.pop_back(), Some(()));
    assert_eq!(stack.size(), 1);
}

#[test]
fn test_condition_stack_fails_when_empty() {
    let mut stack = ConditionStack::default();
    assert_eq!(stack.pop_back(), None);
    assert_eq!(stack.toggle_top(), None);
    assert!(stack.is_empty());
    assert!(stack.all_true());
}

#[test]
fn test_condition_stack_push_pop() {
    let mut stack = ConditionStack::default();
    stack.push_back(true);
    assert!(!stack.is_empty());
    assert!(stack.all_true());
    stack.push_back(false);
    assert!(!stack.all_true());
    stack.push_back(true);
    assert!(!stack.all_true());
    assert_eq!(stack.pop_back(), Some(()));
    assert!(!stack.all_true());
    assert_eq!(stack.pop_back(), Some(()));
    assert!(stack.all_true());
    assert_eq!(stack.pop_back(), Some(()));
    assert!(stack.is_empty());
}

#[test]
fn test_condition_stack_toggle() {
    let mut stack = ConditionStack::default();
    stack.push_back(true);
    assert_eq!(stack.toggle_top(), Some(()));
    assert!(!stack.all_true());
    assert_eq!(stack.toggle_top(), Some(()));
    assert!(stack.all_true());
    stack.push_back(false);
    stack.push_back(false);
    // The topmost false is not the first one: flipping it shows nothing.
    assert_eq!(stack.toggle_top(), Some(()));
    assert!(!stack.all_true());
    assert_eq!(stack.pop_back(), Some(()));
    assert!(!stack.all_true());
    assert_eq!(stack.toggle_top(), Some(()));
    assert!(stack.all_true());
}

#[test]
fn test_condition_stack_agrees_with_plain_vector() {
    agree(&[1, 0, 3, 3, 1, 2, 2, 2, 2, 3]);
    agree(&[0, 0, 3, 2, 3, 2]);
    agree(&[1, 1, 1, 3, 0, 3, 2, 3, 2, 2]);
    // Every sequence of six steps.
    for code in 0..4096u32 {
        let steps: Vec<u8> = (0..6).map(|i| ((code >> (2 * i)) & 3) as u8).collect();
        agree(&steps);
    }
}
