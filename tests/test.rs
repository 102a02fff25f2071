use tokio::sync::mpsc::{unbounded_channel, UnboundedReceiver};
use tokio_adjustable_timeout::{Command, Elapsed, Handle, Moment, Span, TimeoutState};

const BIAS: u64 = 10;

fn ms(t: i64) -> Moment {
    Moment::from_millis(t)
}

fn span(t: u64) -> Span {
    Span::from_millis(t)
}

fn next_command(rx: &mut UnboundedReceiver<Command>) -> Option<Command> {
    rx.try_recv().ok()
}

/// One activation at `now` of a timeout around an operation that finishes at
/// `done_at` with `value`; it takes at most one queued command.
fn activate_at<T: Copy>(
    state: &mut TimeoutState,
    rx: &mut UnboundedReceiver<Command>,
    now: i64,
    done_at: i64,
    value: T,
) -> Option<Result<T, Elapsed>> {
    let output = if now >= done_at { Some(value) } else { None };
    let command = if output.is_some() { None } else { next_command(rx) };
    state.activate(output, command, ms(now))
}

#[test]
fn it_expires() {
    let (_tx, mut rx) = unbounded_channel::<Command>();
    let mut timeout = TimeoutState::start(ms(0), span(50));
    assert_eq!(activate_at(&mut timeout, &mut rx, 0, 100, ()), None);
    assert!(matches!(activate_at(&mut timeout, &mut rx, 50, 100, ()), Some(Err(Elapsed))));
}

#[test]
fn it_expires_after_increment() {
    let (tx, mut rx) = unbounded_channel::<Command>();
    let mut timeout = TimeoutState::start(ms(0), span(50));
    let handle = Handle::new(tx);

    assert!(handle.increment(span(25)).is_ok());
    assert_eq!(activate_at(&mut timeout, &mut rx, 0, 100, ()), None);
    assert_eq!(timeout.deadline(), ms(75));
    assert!(matches!(activate_at(&mut timeout, &mut rx, 75, 100, ()), Some(Err(Elapsed))));
}

#[test]
fn it_expires_after_increment_in_task() {
    let (tx, mut rx) = unbounded_channel::<Command>();
    let mut timeout = TimeoutState::start(ms(0), span(50));
    let handle = Handle::new(tx);

    assert_eq!(activate_at(&mut timeout, &mut rx, 0, 100, 1337), None);
    assert!(handle.increment(span(25)).is_ok());
    assert_eq!(activate_at(&mut timeout, &mut rx, 25, 100, 1337), None);
    assert!(matches!(activate_at(&mut timeout, &mut rx, 75, 100, 1337), Some(Err(Elapsed))));
}

#[test]
fn it_expires_after_decrement() {
    let (tx, mut rx) = unbounded_channel::<Command>();
    let mut timeout = TimeoutState::start(ms(0), span(100));
    let handle = Handle::new(tx);

    assert!(handle.decrement(span(50 + BIAS)).is_ok());
    assert_eq!(activate_at(&mut timeout, &mut rx, 0, 50, 1337), None);
    assert!(matches!(activate_at(&mut timeout, &mut rx, 40, 50, 1337), Some(Err(Elapsed))));
}

#[test]
fn it_expires_after_decrement_in_task() {
    let (tx, mut rx) = unbounded_channel::<Command>();
    let mut timeout = TimeoutState::start(ms(0), span(100));
    let handle = Handle::new(tx);

    assert_eq!(activate_at(&mut timeout, &mut rx, 0, 50, 1337), None);
    assert!(handle.decrement(span(50 + BIAS)).is_ok());
    assert_eq!(activate_at(&mut timeout, &mut rx, 25, 50, 1337), None);
    assert!(matches!(activate_at(&mut timeout, &mut rx, 40, 50, 1337), Some(Err(Elapsed))));
}

#[test]
fn it_succeeds() {
    let (_tx, mut rx) = unbounded_channel::<Command>();
    let mut timeout = TimeoutState::start(ms(0), span(100));
    assert_eq!(activate_at(&mut timeout, &mut rx, 0, 50, 1337), None);
    assert!(matches!(activate_at(&mut timeout, &mut rx, 50, 50, 1337), Some(Ok(1337))));
}

#[test]
fn it_succeeds_after_increment() {
    let (tx, mut rx) = unbounded_channel::<Command>();
    let mut timeout = TimeoutState::start(ms(0), span(50));
    let handle = Handle::new(tx);

    assert!(handle.increment(span(50 + BIAS)).is_ok());
    assert_eq!(activate_at(&mut timeout, &mut rx, 0, 100, 1337), None);
    assert!(matches!(activate_at(&mut timeout, &mut rx, 100, 100, 1337), Some(Ok(1337))));
}

#[test]
fn it_succeeds_after_increment_in_task() {
    let (tx, mut rx) = unbounded_channel::<Command>();
    let mut timeout = TimeoutState::start(ms(0), span(50));
    let handle = Handle::new(tx);

    assert_eq!(activate_at(&mut timeout, &mut rx, 0, 100, 1337), None);
    assert!(handle.increment(span(50 + BIAS)).is_ok());
    assert_eq!(activate_at(&mut timeout, &mut rx, 25, 100, 1337), None);
    assert!(matches!(activate_at(&mut timeout, &mut rx, 100, 100, 1337), Some(Ok(1337))));
}

#[test]
fn it_succeeds_after_several_increments_in_task() {
    let (tx, mut rx) = unbounded_channel::<Command>();
    let mut timeout = TimeoutState::start(ms(0), span(50));
    let handle = Handle::new(tx);

    assert_eq!(activate_at(&mut timeout, &mut rx, 0, 300, 1337), None);
    // at 25, new deadline = 200
    assert!(handle.increment(span(150)).is_ok());
    assert_eq!(activate_at(&mut timeout, &mut rx, 25, 300, 1337), None);
    // at 175, new deadline = 250
    assert!(handle.increment(span(50)).is_ok());
    assert_eq!(activate_at(&mut timeout, &mut rx, 175, 300, 1337), None);
    // at 225, new deadline = 300 + BIAS
    assert!(handle.increment(span(50 + BIAS)).is_ok());
    assert_eq!(activate_at(&mut timeout, &mut rx, 225, 300, 1337), None);
    assert!(matches!(activate_at(&mut timeout, &mut rx, 300, 300, 1337), Some(Ok(1337))));
}
