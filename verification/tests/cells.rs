use counter_service::cancel_token::CancelToken;
use counter_service::shared_cell::SharedCell;

#[test]
fn with_mut_returns_what_the_action_returned() {
    let cell = SharedCell::new(5u32);
    let doubled = cell.with_mut(|value| {
        *value *= 2;
        *value + 1
    });
    assert_eq!(doubled, Ok(11));
    assert_eq!(cell.with_ref(|value| *value), Ok(10));
}

#[test]
fn with_ref_reads_without_changing() {
    let cell = SharedCell::new(String::from("kept"));
    assert_eq!(cell.with_ref(|text| text.len()), Ok(4));
    assert_eq!(cell.with_ref(|text| text.clone()), Ok(String::from("kept")));
}

#[test]
fn cloned_handles_share_one_storage() {
    let first = SharedCell::new(1i64);
    let second = first.clone_handle();
    let third = second.clone_handle();
    assert_eq!(second.with_mut(|value| *value += 41), Ok(()));
    assert_eq!(first.with_ref(|value| *value), Ok(42));
    assert_eq!(third.with_ref(|value| *value), Ok(42));
    drop(first);
    assert_eq!(third.with_ref(|value| *value), Ok(42));
}

#[test]
fn separate_cells_have_separate_storage() {
    let left = SharedCell::new(1i64);
    let right = SharedCell::new(1i64);
    assert_eq!(left.with_mut(|value| *value = 7), Ok(()));
    assert_eq!(right.with_ref(|value| *value), Ok(1));
}

#[test]
fn a_token_is_as_it_was_made_until_it_is_signalled() {
    let lowered = CancelToken::new(false);
    assert!(!lowered.is_signaled());
    assert!(!lowered.is_signaled());
    let raised = CancelToken::new(true);
    assert!(raised.is_signaled());
}

#[test]
fn a_token_made_raised_is_raised_on_every_handle() {
    let raised = CancelToken::new(true);
    let other = raised.clone_handle();
    assert!(other.is_signaled());
    assert!(other.clone_handle().is_signaled());
    other.signal();
    assert!(raised.is_signaled());
    let lowered = CancelToken::new(false);
    assert!(!lowered.clone_handle().is_signaled());
}

#[test]
fn a_signal_stays_and_is_seen_by_every_handle() {
    let token = CancelToken::new(false);
    let other = token.clone_handle();
    token.signal();
    assert!(token.is_signaled());
    assert!(other.is_signaled());
    assert!(other.clone_handle().is_signaled());
    token.signal();
    other.signal();
    assert!(token.is_signaled());
    assert!(other.is_signaled());
}

#[test]
fn separate_tokens_do_not_signal_each_other() {
    let left = CancelToken::new(false);
    let right = CancelToken::new(false);
    left.signal();
    assert!(left.is_signaled());
    assert!(!right.is_signaled());
}
