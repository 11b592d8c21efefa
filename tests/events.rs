use meshcore_cli::error::CliError;
use meshcore_cli::events::{wait_step, Broadcaster, Event, EventFilter, EventKind, WaitStep};

fn ack(code: u32) -> Event {
    Event::Ack { code }
}

fn code_of(e: Option<&Event>) -> Option<u32> {
    match e {
        Some(Event::Ack { code }) => Some(*code),
        Some(_) => Some(u32::MAX),
        None => None,
    }
}

#[test]
fn broadcast_reaches_earlier_subscriptions_only() {
    let mut b = Broadcaster::new(16);
    let s1 = b.subscribe();
    b.push(ack(1));
    let s2 = b.subscribe();
    b.push(ack(2));
    // s1 sees both, in order; s2 only the one pushed after it subscribed.
    assert_eq!(code_of(b.peek(s1)), Some(1));
    b.advance(s1);
    assert_eq!(code_of(b.peek(s1)), Some(2));
    b.advance(s1);
    assert_eq!(code_of(b.peek(s1)), None);
    assert_eq!(code_of(b.peek(s2)), Some(2));
    b.advance(s2);
    assert_eq!(code_of(b.peek(s2)), None);
}

#[test]
fn slow_subscription_drops_oldest() {
    let mut b = Broadcaster::new(2);
    let slow = b.subscribe();
    let fast = b.subscribe();
    for c in 1..=3 {
        b.push(ack(c));
        assert_eq!(code_of(b.peek(fast)), Some(c));
        b.advance(fast);
    }
    assert_eq!(code_of(b.peek(slow)), Some(2));
    b.advance(slow);
    assert_eq!(code_of(b.peek(slow)), Some(3));
}

#[test]
fn released_subscription_gets_nothing() {
    let mut b = Broadcaster::new(4);
    let s = b.subscribe();
    let t = b.subscribe();
    b.release(s);
    b.push(ack(9));
    assert_eq!(code_of(b.peek(t)), Some(9));
    b.close();
    assert!(b.closed());
    b.push(ack(10));
    b.advance(t);
    assert_eq!(code_of(b.peek(t)), None);
}

#[test]
fn wait_skips_events_that_fail_the_filter() {
    let mut b = Broadcaster::new(8);
    let waiter = b.subscribe();
    let other = b.subscribe();
    b.push(Event::MessagesWaiting);
    b.push(Event::LoginFailed);
    b.push(ack(5));
    let f = EventFilter::only(EventKind::Ack);
    assert!(b.skip_until(waiter, &f));
    assert_eq!(code_of(b.peek(waiter)), Some(5));
    // The other subscription still holds everything.
    assert!(matches!(b.peek(other), Some(Event::MessagesWaiting)));
    b.advance(waiter);
    assert!(!b.skip_until(waiter, &f));
    let both = EventFilter::of_kinds(vec![EventKind::LoginSuccess, EventKind::LoginFailed]);
    assert!(both.matches(&Event::LoginFailed));
    assert!(!both.matches(&ack(1)));
}

#[test]
fn wait_decisions() {
    assert!(matches!(wait_step(true, true, true), WaitStep::Deliver));
    assert!(matches!(wait_step(false, true, true), WaitStep::Fail(CliError::StreamClosed)));
    assert!(matches!(wait_step(false, false, true), WaitStep::Fail(CliError::Timeout(_))));
    assert!(matches!(wait_step(false, false, false), WaitStep::Wait));
}
