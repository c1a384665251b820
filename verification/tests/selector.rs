use motor_poll::error::PollError;
use motor_poll::event::{is_readable, is_writable, token, Event, Events, POLL_READABLE, POLL_WRITABLE};
use motor_poll::interest::Interest;
use motor_poll::io_source::IoSourceState;
use motor_poll::runtime::MAX_BATCH;
use motor_poll::selector::{
    conclude_wait, deadline_after, deadline_from, interest_flags, token_value, wait_deadline,
    wait_room, WaitStep, LAST_TICK,
};
use motor_poll::token::Token;

fn report(tokens: &[u64]) -> Vec<Event> {
    tokens
        .iter()
        .map(|&token| Event { token, events: POLL_READABLE })
        .collect()
}

#[test]
fn flags_of_each_interest() {
    assert_eq!(interest_flags(Interest::readable()), 1);
    assert_eq!(interest_flags(Interest::writable()), 2);
    assert_eq!(interest_flags(Interest::readable().union(Interest::writable())), 3);
}

#[test]
fn flags_come_back_as_readiness() {
    let readable = Event { token: 0, events: interest_flags(Interest::readable()) };
    assert!(is_readable(&readable) && !is_writable(&readable));
    let writable = Event { token: 0, events: interest_flags(Interest::writable()) };
    assert!(!is_readable(&writable) && is_writable(&writable));
    let both = Interest::readable().union(Interest::writable());
    let both = Event { token: 0, events: interest_flags(both) };
    assert!(is_readable(&both) && is_writable(&both));
    assert_eq!(both.events, POLL_READABLE | POLL_WRITABLE);
}

#[test]
fn token_survives_the_round_trip() {
    for value in [0usize, 1, 42, 0xdead_beef, usize::MAX] {
        let event = Event { token: token_value(Token(value)), events: POLL_READABLE };
        assert_eq!(token(&event), Token(value));
    }
    assert_eq!(token_value(Token(42)), 42u64);
}

#[test]
fn report_ends_the_wait() {
    let mut events = Events::with_capacity(4);
    let step = conclude_wait(&mut events, Ok((report(&[5, 6, 7, 0]), 3)));
    assert_eq!(step, WaitStep::Ready);
    assert_eq!(events.len(), 3);
    assert_eq!(events.get(0), Some(Event { token: 5, events: POLL_READABLE }));
    assert_eq!(events.get(1), Some(Event { token: 6, events: POLL_READABLE }));
    assert_eq!(events.get(2), Some(Event { token: 7, events: POLL_READABLE }));
}

#[test]
fn report_of_one_ready_resource() {
    let mut events = Events::with_capacity(16);
    let mut records = report(&[0; 16]);
    records[0] = Event { token: token_value(Token(11)), events: POLL_READABLE };
    let step = conclude_wait(&mut events, Ok((records, 1)));
    assert_eq!(step, WaitStep::Ready);
    assert_eq!(events.len(), 1);
    let event = events.get(0).unwrap();
    assert_eq!(token(&event), Token(11));
    assert!(is_readable(&event));
}

#[test]
fn empty_report_is_a_success() {
    let mut events = Events::with_capacity(4);
    events.fill(&report(&[1, 2]), 2);
    let step = conclude_wait(&mut events, Ok((report(&[0, 0, 0, 0]), 0)));
    assert_eq!(step, WaitStep::Ready);
    assert!(events.is_empty());
    assert_eq!(events.capacity(), 4);
}

#[test]
fn report_is_capped_at_the_capacity() {
    let mut events = Events::with_capacity(2);
    let step = conclude_wait(&mut events, Ok((report(&[1, 2, 3, 4, 5]), 5)));
    assert_eq!(step, WaitStep::Ready);
    assert_eq!(events.len(), 2);
    assert_eq!(events.get(0), Some(Event { token: 1, events: POLL_READABLE }));
    assert_eq!(events.get(1), Some(Event { token: 2, events: POLL_READABLE }));
}

#[test]
fn count_beyond_the_records_is_cut() {
    let mut events = Events::with_capacity(8);
    let step = conclude_wait(&mut events, Ok((report(&[1, 2]), usize::MAX)));
    assert_eq!(step, WaitStep::Ready);
    assert_eq!(events.len(), 2);
}

#[test]
fn failure_ends_the_wait_with_its_kind() {
    let mut events = Events::with_capacity(4);
    events.fill(&report(&[1, 2]), 2);
    let step = conclude_wait(&mut events, Err(PollError::Other(17)));
    assert_eq!(step, WaitStep::Failed(PollError::Other(17)));
    assert!(events.is_empty());
    assert_eq!(
        conclude_wait(&mut events, Err(PollError::ResourceExhausted)),
        WaitStep::Failed(PollError::ResourceExhausted)
    );
    assert_eq!(
        conclude_wait(&mut events, Err(PollError::NotFound)),
        WaitStep::Failed(PollError::NotFound)
    );
}

#[test]
fn not_ready_is_a_failure_like_any_other() {
    let mut events = Events::with_capacity(4);
    let failure = PollError::from_runtime(moto_rt::Error::NotReady);
    assert_eq!(
        conclude_wait(&mut events, Err(failure)),
        WaitStep::Failed(PollError::Other(3))
    );
}

#[test]
fn interruption_is_retried() {
    let mut events = Events::with_capacity(4);
    events.fill(&report(&[1, 2]), 2);
    assert_eq!(conclude_wait(&mut events, Err(PollError::Interrupted)), WaitStep::Retry);
    assert!(events.is_empty());
}

#[test]
fn interruption_is_retried_however_often() {
    let mut events = Events::with_capacity(4);
    for _ in 0..100 {
        assert_eq!(conclude_wait(&mut events, Err(PollError::Interrupted)), WaitStep::Retry);
    }
    let step = conclude_wait(&mut events, Ok((report(&[7, 8, 0, 0]), 2)));
    assert_eq!(step, WaitStep::Ready);
    assert_eq!(events.len(), 2);
    assert_eq!(events.get(0), Some(Event { token: 7, events: POLL_READABLE }));
    assert_eq!(events.get(1), Some(Event { token: 8, events: POLL_READABLE }));
}

#[test]
fn no_runtime_failure_is_retried() {
    let mut events = Events::with_capacity(4);
    for code in 0..=u16::MAX {
        let failure = PollError::from_code(code);
        assert_eq!(conclude_wait(&mut events, Err(failure)), WaitStep::Failed(failure));
    }
}

#[test]
fn unreported_token_is_absent() {
    let mut events = Events::with_capacity(4);
    events.fill(&report(&[9, 9]), 2);
    let step = conclude_wait(&mut events, Ok((report(&[1, 2, 9, 9]), 2)));
    assert_eq!(step, WaitStep::Ready);
    for i in 0..events.len() {
        assert_ne!(token(&events.get(i).unwrap()), Token(9));
    }
}

#[test]
fn wait_asks_for_as_many_records_as_the_buffer_holds() {
    assert_eq!(wait_room(&Events::with_capacity(8)), 8);
    assert_eq!(wait_room(&Events::with_capacity(1)), 1);
    assert_eq!(wait_room(&Events::with_capacity(0)), 0);
    assert_eq!(wait_room(&Events::with_capacity(MAX_BATCH)), MAX_BATCH);
}

#[test]
fn wait_asks_for_no_more_than_one_call_can_take() {
    assert_eq!(wait_room(&Events::with_capacity(MAX_BATCH + 1)), MAX_BATCH);
    assert_eq!(wait_room(&Events::with_capacity(usize::MAX)), MAX_BATCH);
}

#[test]
fn wait_room_does_not_depend_on_the_events_held() {
    let mut events = Events::with_capacity(8);
    events.fill(&report(&[1, 2, 3]), 3);
    assert_eq!(wait_room(&events), 8);
}

#[test]
fn woken_wait_reports_the_token_of_the_waker() {
    let mut events = Events::with_capacity(8);
    let mut records = report(&[0; 8]);
    assert_eq!(records.len(), wait_room(&events));
    records[0] = Event { token: token_value(Token(5)), events: POLL_READABLE };
    let step = conclude_wait(&mut events, Ok((records, 1)));
    assert_eq!(step, WaitStep::Ready);
    assert_eq!(events.len(), 1);
    assert_eq!(token(&events.get(0).unwrap()), Token(5));
}

#[test]
fn deadline_is_the_instant_that_the_clock_gave() {
    assert_eq!(deadline_from(Some(0)), 0);
    assert_eq!(deadline_from(Some(1_000_000)), 1_000_000);
    assert_eq!(deadline_from(Some(u64::MAX - 1)), u64::MAX - 1);
}

#[test]
fn deadline_beyond_the_clock_is_the_last_tick() {
    assert_eq!(deadline_from(None), LAST_TICK);
}

#[test]
fn no_timeout_no_deadline() {
    assert_eq!(wait_deadline(None), None);
    assert_eq!(deadline_after(0, None), None);
    assert_eq!(deadline_after(u64::MAX, None), None);
}

#[test]
fn last_tick_is_the_infinite_future_of_the_runtime() {
    assert_eq!(LAST_TICK, moto_rt::time::Instant::infinite_future().as_u64());
    assert_eq!(LAST_TICK, u64::MAX);
}

#[test]
fn guard_passes_the_operation_through() {
    let state = IoSourceState::new();
    let resource = vec![1u8, 2, 3];
    let read: Result<usize, PollError> = state.do_io(|r: &Vec<u8>| Ok(r.len()), &resource);
    assert_eq!(read, Ok(3));
    let failed: Result<usize, PollError> =
        state.do_io(|_: &Vec<u8>| Err(PollError::Other(12)), &resource);
    assert_eq!(failed, Err(PollError::Other(12)));
}
