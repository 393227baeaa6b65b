use error_context::{checked_message_len, ErrorContext};

#[test]
fn from_handle_keeps_handle() {
    assert_eq!(ErrorContext::from_handle(42).handle(), 42);
    assert_eq!(ErrorContext::from_handle(u32::MAX).handle(), u32::MAX);
}

#[test]
fn nonzero_handle_released_once() {
    let mut calls: Vec<u32> = Vec::new();
    if let Some(h) = ErrorContext::from_handle(5).release() {
        calls.push(h);
    }
    assert_eq!(calls, vec![5]);
}

#[test]
fn largest_handle_released() {
    assert_eq!(ErrorContext::from_handle(u32::MAX).release(), Some(u32::MAX));
}

#[test]
fn zero_handle_not_released() {
    let mut calls: Vec<u32> = Vec::new();
    let ctx = ErrorContext::from_handle(0);
    if let Some(h) = ctx.release() {
        calls.push(h);
    }
    assert!(calls.is_empty());
}

#[test]
fn moved_handle_released_once() {
    let mut calls: Vec<u32> = Vec::new();
    let first = ErrorContext::from_handle(9);
    let moved = first;
    let holder = vec![moved];
    for ctx in holder {
        if let Some(h) = ctx.release() {
            calls.push(h);
        }
    }
    assert_eq!(calls, vec![9]);
}

#[test]
fn display_is_fixed() {
    assert_eq!(ErrorContext::from_handle(0).to_string(), "Error");
    assert_eq!(ErrorContext::from_handle(7).to_string(), "Error");
    assert_eq!(ErrorContext::from_handle(u32::MAX).to_string(), "Error");
}

#[test]
fn debug_hides_handle() {
    for h in [0u32, 1, 7, 12345, u32::MAX] {
        let text = ErrorContext::from_handle(h).to_debug_string();
        assert_eq!(text, "ErrorContext");
        assert!(!text.contains(&h.to_string()));
    }
}

#[test]
fn length_at_i32_max_accepted() {
    assert_eq!(checked_message_len(i32::MAX as usize), Some(i32::MAX));
}

#[test]
fn length_past_i32_max_refused() {
    assert_eq!(checked_message_len(i32::MAX as usize + 1), None);
    assert_eq!(checked_message_len(usize::MAX), None);
}

#[test]
fn empty_message_length() {
    assert_eq!(checked_message_len(0), Some(0));
}

#[test]
fn new_context_scenario() {
    let mut created: Vec<(String, i32)> = Vec::new();
    let mut dropped: Vec<u32> = Vec::new();
    let message = "oops";
    let len = checked_message_len(message.len()).unwrap();
    assert_eq!(len, 4);
    created.push((message.to_string(), len));
    let ctx = ErrorContext::from_new_handle(7);
    assert_eq!(ctx.handle(), 7);
    if let Some(h) = ctx.release() {
        dropped.push(h);
    }
    assert_eq!(created, vec![("oops".to_string(), 4)]);
    assert_eq!(dropped, vec![7]);
}

#[test]
fn adopted_zero_scenario() {
    let mut dropped: Vec<u32> = Vec::new();
    if let Some(h) = ErrorContext::from_handle(0).release() {
        dropped.push(h);
    }
    assert!(dropped.is_empty());
}

#[test]
fn new_handle_largest() {
    assert_eq!(ErrorContext::from_new_handle(i32::MAX).handle(), i32::MAX as u32);
    assert_eq!(ErrorContext::from_new_handle(0).handle(), 0);
}
