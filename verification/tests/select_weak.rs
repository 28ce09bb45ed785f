use jsonrpc_client::select_weak::{select_with_weak, try_second, StreamPoll, Turn};

#[test]
fn turns_alternate_starting_with_the_weak_stream() {
    let mut merged = select_with_weak("strong", "weak");
    assert_eq!(merged.start_poll(), Turn::WeakFirst);
    assert_eq!(merged.start_poll(), Turn::StrongFirst);
    assert_eq!(merged.start_poll(), Turn::WeakFirst);
    assert_eq!(*merged.strong(), "strong");
    assert_eq!(*merged.weak(), "weak");
}

#[test]
fn weak_stream_is_polled_until_it_ends() {
    let mut merged = select_with_weak((), ());
    assert!(merged.weak_may_be_polled());
    assert!(matches!(merged.after_weak_poll::<u8, ()>(StreamPoll::Item(3)), StreamPoll::Item(3)));
    assert!(merged.weak_may_be_polled());
    assert!(matches!(merged.after_weak_poll::<u8, ()>(StreamPoll::End), StreamPoll::NotReady));
    assert!(!merged.weak_may_be_polled());
}

#[test]
fn second_stream_only_when_first_had_nothing() {
    assert!(try_second::<u8, ()>(&StreamPoll::NotReady));
    assert!(!try_second::<u8, ()>(&StreamPoll::Item(1)));
    assert!(!try_second::<u8, ()>(&StreamPoll::End));
    assert!(!try_second::<u8, ()>(&StreamPoll::Error(())));
}
