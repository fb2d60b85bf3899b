use cew::BlockOn;
use cew::Countdown;
use cew::PollStatus;

#[test]
fn test_block_on() {
    assert!(Countdown::new(0, true).block_on());
}

#[test]
fn immediately_ready_takes_exactly_one_poll() {
    let mut c = Countdown::new(0, true);
    assert!(c.drive());
    assert_eq!(c.poll_count(), 1);
}

#[test]
fn two_pendings_take_exactly_three_polls() {
    let mut c = Countdown::new(2, 42u64);
    assert_eq!(c.drive(), 42);
    assert_eq!(c.poll_count(), 3);
}

#[test]
fn poll_once_answers_pending_then_ready() {
    let mut c = Countdown::new(1, 9u8);
    assert!(matches!(c.poll_once(), PollStatus::Pending));
    assert!(matches!(c.poll_once(), PollStatus::Ready(9)));
    assert_eq!(c.poll_count(), 2);
}

#[test]
fn block_on_returns_the_value_after_pendings() {
    assert_eq!(Countdown::new(5, 7u32).block_on(), 7);
}
