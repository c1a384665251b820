use vstd::prelude::*;
use core::time::Duration;
use crate::error::PollError;
use crate::event::{has_flag, kept, token_of, Event, Events, POLL_READABLE, POLL_WRITABLE};
use crate::handle::OwnedHandle;
use crate::interest::Interest;
use crate::runtime::{
    duplicate,
    instant_after,
    instant_now,
    is_interest_flags,
    poll_add,
    poll_del,
    poll_new,
    poll_set,
    poll_wait,
    MAX_BATCH,
};
use crate::token::Token;

verus! {

/// What `select` does after one wait of the runtime has come back.
#[derive(Clone, Copy, Debug, PartialEq, Eq, Structural)]
pub enum WaitStep {
    /// The wait is over: the buffer holds what was reported.
    Ready,
    /// The wait was interrupted and is started again.
    Retry,
    /// The wait is over: it failed.
    Failed(PollError),
}

/// The flags that stand for an interest at the runtime: the readable flag
/// if it wants readable readiness, together with the writable flag if it
/// wants writable readiness.
pub open spec fn flags_of(interest: Interest) -> u64 {
    let readable = if interest.wants_readable() {
        POLL_READABLE
    } else {
        0
    };
    let writable = if interest.wants_writable() {
        POLL_WRITABLE
    } else {
        0
    };
    (readable + writable) as u64
}

/// The step that follows a wait of the runtime: `failure` is `None` when
/// the runtime reported events (none at all is a report like any other),
/// and the failure of the wait otherwise.
///
/// A report ends the wait with success. An interrupted wait is started
/// again, however often it was interrupted before, so an interruption never
/// reaches the caller. Every other failure ends the wait with its kind.
pub open spec fn step_after(failure: Option<PollError>) -> WaitStep {
    match failure {
        None => WaitStep::Ready,
        Some(error) => if error == PollError::Interrupted {
            WaitStep::Retry
        } else {
            WaitStep::Failed(error)
        },
    }
}

/// The events that the buffer holds after a wait of the runtime has come
/// back with `outcome`: the records that the runtime counted, as far as
/// there is room for them, and none after a failure.
pub open spec fn events_after(
    outcome: Result<(Vec<Event>, usize), PollError>,
    capacity: usize,
) -> Seq<Event> {
    match outcome {
        Ok((records, count)) => records@.take(kept(records@, count, capacity)),
        Err(_) => Seq::<Event>::empty(),
    }
}

/// The failure of a wait, if it failed.
pub open spec fn failure_of(outcome: Result<(Vec<Event>, usize), PollError>) -> Option<
    PollError,
> {
    match outcome {
        Ok(_) => None,
        Err(error) => Some(error),
    }
}

/// The number of records that a wait asks the runtime for: as many as the
/// buffer has room for, but no more than one call can take.
pub open spec fn room_of(capacity: usize) -> usize {
    if capacity <= MAX_BATCH {
        capacity
    } else {
        MAX_BATCH
    }
}

/// The deadline that is handed to the runtime for a wait with a timeout:
/// `after` is the instant at which the timeout runs out, or `None` where
/// the clock cannot express it, and then the deadline is the last tick.
pub open spec fn deadline_of(after: Option<u64>) -> u64 {
    match after {
        Some(ticks) => ticks,
        None => LAST_TICK,
    }
}

/// Computes the flags that stand for an interest at the runtime. They are
/// never empty and hold nothing but the readable and the writable flag.
pub fn interest_flags(interest: Interest) -> (flags: u64)
    ensures
        flags == flags_of(interest),
        is_interest_flags(flags),
{
    let mut flags: u64 = 0;
    assert(0u64 | 1u64 == 1u64 && 0u64 | 2u64 == 2u64 && 1u64 | 2u64 == 3u64) by (bit_vector);
    if interest.is_readable() {
        flags |= POLL_READABLE;
    }
    if interest.is_writable() {
        flags |= POLL_WRITABLE;
    }
    proof {
        use_type_invariant(&interest);
        interest.lemma_not_empty();
    }
    flags
}

/// The tag as the runtime carries it.
pub fn token_value(token: Token) -> (value: u64)
    ensures
        value == token.0 as u64,
{
    token.0 as u64
}

/// Ends one wait of the runtime: stores what it reported in `events` and
/// says how `select` goes on.
pub fn conclude_wait(
    events: &mut Events,
    outcome: Result<(Vec<Event>, usize), PollError>,
) -> (step: WaitStep)
    ensures
        step == step_after(failure_of(outcome)),
        final(events)@ == events_after(outcome, old(events).spec_capacity()),
        final(events).is_valid(),
        final(events).spec_capacity() == old(events).spec_capacity(),
{
    match outcome {
        Ok((records, count)) => {
            events.fill(&records, count);
            WaitStep::Ready
        },
        Err(error) => {
            events.clear();
            if error.is_transient() {
                WaitStep::Retry
            } else {
                WaitStep::Failed(error)
            }
        },
    }
}

/// The last tick of the runtime's clock, its "infinite future": a wait
/// without deadline is handed to the runtime with this very tick.
pub const LAST_TICK: u64 = 0xffff_ffff_ffff_ffff;

/// The number of records that a wait into `events` asks the runtime for.
pub fn wait_room(events: &Events) -> (room: usize)
    ensures
        room == room_of(events.spec_capacity()),
{
    if events.capacity() <= MAX_BATCH {
        events.capacity()
    } else {
        MAX_BATCH
    }
}

/// The deadline for a wait with a timeout, from what the clock gave for
/// the instant at which the timeout runs out.
pub fn deadline_from(after: Option<u64>) -> (deadline: u64)
    ensures
        deadline == deadline_of(after),
{
    match after {
        Some(ticks) => ticks,
        None => LAST_TICK,
    }
}

/// The deadline of a wait that was entered at the tick `start`. A wait has
/// a deadline exactly if it has a timeout: the instant at which the
/// timeout, counted from `start`, runs out, as [`deadline_from`] takes it
/// from the clock. The deadline is never before `start`.
pub fn deadline_after(start: u64, timeout: Option<Duration>) -> (deadline: Option<u64>)
    ensures
        deadline is Some <==> timeout is Some,
        deadline is Some ==> deadline->Some_0 >= start,
{
    match timeout {
        Some(length) => Some(deadline_from(instant_after(start, &length))),
        None => None,
    }
}

/// The deadline of a wait that is entered now, in ticks of the runtime's
/// clock: what [`deadline_after`] gives for the present tick. The clock is
/// read only for a wait with a timeout.
pub fn wait_deadline(timeout: Option<Duration>) -> (deadline: Option<u64>)
    ensures
        deadline is Some <==> timeout is Some,
{
    match timeout {
        Some(_) => deadline_after(instant_now(), timeout),
        None => None,
    }
}

/// The flags that `register` hands to the runtime say what the interest
/// holds, and nothing else: an event that carries them back is readable
/// exactly if the interest wants readable readiness, and writable exactly
/// if it wants writable readiness. They are never empty.
pub proof fn lemma_flags_mirror_interest(interest: Interest)
    requires
        interest.is_valid(),
    ensures
        is_interest_flags(flags_of(interest)),
        has_flag(flags_of(interest), POLL_READABLE) == interest.wants_readable(),
        has_flag(flags_of(interest), POLL_WRITABLE) == interest.wants_writable(),
{
    interest.lemma_not_empty();
    assert(1u64 & 1u64 != 0 && 1u64 & 2u64 == 0 && 2u64 & 1u64 == 0 && 2u64 & 2u64 != 0 && 3u64
        & 1u64 != 0 && 3u64 & 2u64 != 0) by (bit_vector);
}

/// A tag comes back from the runtime as it went in: the event that carries
/// the value that `register` handed over for `token` has the token `token`.
pub proof fn lemma_token_round_trip(token: Token, events: u64)
    ensures
        token_of(Event { token: token.0 as u64, events }) == token,
{
}

/// A wait asks the runtime for no more records than the buffer has room
/// for and than one call can take, and for at least one where the buffer
/// has room for any.
pub proof fn lemma_room_within_capacity(capacity: usize)
    ensures
        room_of(capacity) <= capacity,
        room_of(capacity) <= MAX_BATCH,
        capacity >= 1 ==> room_of(capacity) >= 1,
{
}

/// Nothing that the runtime reports is dropped or masked. When the report
/// has the length that a wait asks for and the runtime counts no more
/// records than it holds, the buffer holds after the wait exactly the
/// counted records, each once and in their order, whatever it held before
/// and whatever earlier waits reported.
pub proof fn lemma_counted_records_are_kept(records: Vec<Event>, count: usize, capacity: usize)
    requires
        records@.len() == room_of(capacity),
        count <= records@.len(),
    ensures
        step_after(failure_of(Ok((records, count)))) == WaitStep::Ready,
        events_after(Ok((records, count)), capacity) == records@.take(count as int),
        events_after(Ok((records, count)), capacity).len() == count,
        forall|i: int|
            0 <= i < count ==> events_after(Ok((records, count)), capacity)[i] == records@[i],
{
}

/// The library's part in the round trip of readiness. A resource was
/// registered under `token` with an interest that wants readable readiness,
/// and the buffer has room for an event. When a wait of the runtime comes
/// back with a report of the length that the wait asked for, one record
/// counted, and that record carries what was handed over at the
/// registration, then the buffer holds exactly one event after the wait,
/// with the token `token`, and the event is readable.
pub proof fn lemma_reported_readiness_round_trip(
    token: Token,
    interest: Interest,
    records: Vec<Event>,
    capacity: usize,
)
    requires
        interest.is_valid(),
        interest.wants_readable(),
        capacity >= 1,
        records@.len() == room_of(capacity),
        records@[0] == (Event { token: token.0 as u64, events: flags_of(interest) }),
    ensures
        step_after(failure_of(Ok((records, 1)))) == WaitStep::Ready,
        events_after(Ok((records, 1)), capacity) == seq![records@[0]],
        token_of(events_after(Ok((records, 1)), capacity)[0]) == token,
        has_flag(events_after(Ok((records, 1)), capacity)[0].events, POLL_READABLE),
{
    lemma_flags_mirror_interest(interest);
    lemma_token_round_trip(token, flags_of(interest));
    assert(events_after(Ok((records, 1)), capacity) =~= seq![records@[0]]);
}

/// However many records the runtime counts, the buffer never holds more
/// events than its capacity after a wait, and what it holds are the first
/// records of that wait, in their order: none is made up, none of an
/// earlier wait is left.
pub proof fn lemma_capacity_bound(
    outcome: Result<(Vec<Event>, usize), PollError>,
    capacity: usize,
)
    ensures
        events_after(outcome, capacity).len() <= capacity,
        outcome matches Ok((records, count)) ==> {
            &&& events_after(outcome, capacity).len() <= count
            &&& events_after(outcome, capacity).is_prefix_of(records@)
        },
{
}

/// A wait that reports no event is a success, not a failure: the buffer is
/// empty and the wait is over.
pub proof fn lemma_empty_report_is_success(records: Vec<Event>, capacity: usize)
    ensures
        step_after(failure_of(Ok((records, 0)))) == WaitStep::Ready,
        events_after(Ok((records, 0)), capacity) == Seq::<Event>::empty(),
{
}

/// An interrupted wait is started again, and no wait ends with an
/// interruption: the step after an interruption is always a retry, and the
/// step after any other outcome is never one, nor a failure with the kind
/// `Interrupted`.
pub proof fn lemma_interruption_never_surfaces(failure: Option<PollError>)
    ensures
        step_after(failure) is Retry <==> failure == Some(PollError::Interrupted),
        step_after(failure) != WaitStep::Failed(PollError::Interrupted),
{
}

/// The runtime reports no interruption: the failure of a wait, classified
/// by its code, never asks for a retry.
pub proof fn lemma_runtime_failure_is_final(code: u16)
    ensures
        step_after(Some(PollError::of_code(code))) == WaitStep::Failed(PollError::of_code(code)),
{
}

/// The buffer holds no event that the runtime did not report in this wait:
/// when none of the records that the runtime counted carries `token`, no
/// event in the buffer does after the wait, whatever it held before.
pub proof fn lemma_unreported_token_is_absent(
    outcome: Result<(Vec<Event>, usize), PollError>,
    capacity: usize,
    token: Token,
)
    requires
        outcome matches Ok((records, count)) ==> forall|i: int|
            0 <= i < records@.len() && i < count ==> token_of(#[trigger] records@[i]) != token,
    ensures
        forall|i: int|
            0 <= i < events_after(outcome, capacity).len() ==> token_of(
                #[trigger] events_after(outcome, capacity)[i],
            ) != token,
{
}

/// Owner of one polling object of the runtime.
///
/// The registrations live in the polling object, not in this value: clones
/// share them, and the runtime alone decides whether a handle is registered.
/// The selector keeps no list of handles. It passes on the runtime's verdict
/// on a handle that is registered twice, and a handle that is closed while
/// it is registered stays the caller's to deregister.
#[derive(Debug)]
pub struct Selector {
    handle: OwnedHandle,
}

impl Selector {
    /// The descriptor of the polling object.
    pub closed spec fn spec_raw_fd(&self) -> i32 {
        self.handle.spec_raw()
    }

    /// Creates a polling object. Fails, with the kind of the runtime's
    /// code, when the runtime cannot provide one.
    pub fn new() -> (r: Result<Selector, PollError>)
        ensures
            r is Ok ==> r->Ok_0.spec_raw_fd() >= 0,
            r is Err ==> r->Err_0.is_canonical(),
    {
        match poll_new() {
            Ok(fd) => Ok(Selector { handle: OwnedHandle::new(fd) }),
            Err(error) => Err(PollError::from_runtime(error)),
        }
    }

    /// A second selector for the same polling object, with a descriptor of
    /// its own. Fails with `Unsupported` where the runtime cannot duplicate
    /// descriptors, and with the kind of the runtime's code otherwise.
    pub fn try_clone(&self) -> (r: Result<Selector, PollError>)
        ensures
            r is Ok ==> r->Ok_0.spec_raw_fd() >= 0,
            r is Err ==> r->Err_0.is_canonical(),
    {
        match duplicate(self.handle.as_raw_fd()) {
            Ok(fd) => Ok(Selector { handle: OwnedHandle::new(fd) }),
            Err(error) => Err(PollError::from_runtime(error)),
        }
    }

    /// Blocks until a registered resource is ready, a waker of this
    /// selector is woken, or `timeout` has run out; without a timeout, until
    /// one of the first two. The events come back in `events`, which is
    /// emptied first and never holds more than its capacity. Running out of
    /// time is a success with no events.
    ///
    /// The runtime is asked for as many records as [`wait_room`] says, with
    /// the deadline that [`wait_deadline`] gives. Every step is that of
    /// [`conclude_wait`]: an interrupted wait is started again, with the
    /// same deadline. The runtime has no code for an interruption, which is
    /// why the wait is known to end.
    pub fn select(&self, events: &mut Events, timeout: Option<Duration>) -> (r: Result<
        (),
        PollError,
    >)
        ensures
            final(events).is_valid(),
            final(events).spec_capacity() == old(events).spec_capacity(),
            final(events)@.len() <= room_of(old(events).spec_capacity()),
            final(events)@.len() <= old(events).spec_capacity(),
            r is Err ==> final(events)@.len() == 0,
            r is Err ==> r->Err_0 != PollError::Interrupted && r->Err_0.is_canonical(),
    {
        let deadline = wait_deadline(timeout);
        events.clear();
        let room = wait_room(events);
        loop
            invariant
                events.is_valid(),
                events.spec_capacity() == old(events).spec_capacity(),
                room == room_of(events.spec_capacity()),
            decreases 0int,
        {
            let outcome = match poll_wait(self.handle.as_raw_fd(), room, deadline) {
                Ok(report) => Ok(report),
                Err(error) => Err(PollError::from_runtime(error)),
            };
            match conclude_wait(events, outcome) {
                WaitStep::Ready => {
                    return Ok(());
                },
                WaitStep::Retry => {
                    // Only an interruption leads here, and the kind of a
                    // runtime code is never one: the wait is not started
                    // again without end.
                    assert(outcome matches Err(error) && !error.is_canonical());
                    assert(false);
                },
                WaitStep::Failed(error) => {
                    return Err(error);
                },
            }
        }
    }

    /// Registers `fd` under `token` with `interest`. The runtime decides:
    /// it fails with `AlreadyExists` when the runtime reports the handle as
    /// registered already, and with the kind of the runtime's code
    /// otherwise.
    pub fn register(&self, token: Token, interest: Interest, fd: i32) -> (r: Result<
        (),
        PollError,
    >)
        ensures
            r is Err ==> r->Err_0.is_canonical(),
    {
        let flags = interest_flags(interest);
        PollError::settle(poll_add(self.handle.as_raw_fd(), fd, token_value(token), flags))
    }

    /// Replaces token and interest of the registration of `fd`. The runtime
    /// decides: it fails with `NotFound` when the runtime reports no
    /// registration for the handle, and with the kind of the runtime's code
    /// otherwise.
    pub fn reregister(&self, token: Token, interest: Interest, fd: i32) -> (r: Result<
        (),
        PollError,
    >)
        ensures
            r is Err ==> r->Err_0.is_canonical(),
    {
        let flags = interest_flags(interest);
        PollError::settle(poll_set(self.handle.as_raw_fd(), fd, token_value(token), flags))
    }

    /// Removes the registration of `fd`. The runtime decides: it fails with
    /// `NotFound` when the runtime reports no registration for the handle,
    /// and with the kind of the runtime's code otherwise.
    pub fn deregister(&self, fd: i32) -> (r: Result<(), PollError>)
        ensures
            r is Err ==> r->Err_0.is_canonical(),
    {
        PollError::settle(poll_del(self.handle.as_raw_fd(), fd))
    }

    /// The descriptor of the polling object; the selector keeps owning it.
    pub fn as_raw_fd(&self) -> (fd: i32)
        ensures
            fd == self.spec_raw_fd(),
    {
        self.handle.as_raw_fd()
    }
}

} // verus!
