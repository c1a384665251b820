//! The calls into the Motor OS runtime. Nothing in this module is proved:
//! each contract below is taken on trust from the runtime's interface.

use vstd::prelude::*;
use core::time::Duration;
use crate::event::Event;

verus! {

/// The runtime's error type. Nothing is known of a value but what
/// [`error_code`] reads from it.
#[verifier::external_type_specification]
#[verifier::external_body]
pub struct ExRuntimeError(moto_rt::Error);

/// The most events that one call of [`poll_wait`] asks the runtime for: the
/// record buffer for so many events can still be allocated on every target.
pub const MAX_BATCH: usize = 0x7ff_ffff;

/// Whether `flags` names readable interest, writable interest or both, and
/// nothing else.
pub open spec fn is_interest_flags(flags: u64) -> bool {
    flags == 1 || flags == 2 || flags == 3
}

/// The numeric code of a runtime error: what `u16::from` gives for it.
pub uninterp spec fn code_of_error(error: moto_rt::Error) -> u16;

/// `u16::from` for `moto_rt::Error`: the numeric code of a runtime error,
/// which depends on the error alone. Nothing more is claimed of the code.
#[verifier::external_body]
pub(crate) fn error_code(error: moto_rt::Error) -> (code: u16)
    ensures
        code == code_of_error(error),
{
    u16::from(error)
}

/// `moto_rt::poll::new`: creates a polling object. A descriptor that the
/// runtime hands out is never negative; whether the call succeeds is up to
/// the runtime.
#[verifier::external_body]
pub(crate) fn poll_new() -> (r: Result<i32, moto_rt::Error>)
    ensures
        r is Ok ==> r->Ok_0 >= 0,
{
    moto_rt::poll::new()
}

/// `moto_rt::poll::add`: registers `source_fd` with the polling object
/// `poll_fd`. The outcome is up to the runtime; the contract only holds
/// callers to a well-formed interest.
#[verifier::external_body]
pub(crate) fn poll_add(poll_fd: i32, source_fd: i32, token: u64, interests: u64) -> (r: Result<
    (),
    moto_rt::Error,
>)
    requires
        is_interest_flags(interests),
{
    moto_rt::poll::add(poll_fd, source_fd, token, interests)
}

/// `moto_rt::poll::set`: replaces the registration of `source_fd` with the
/// polling object `poll_fd`. The outcome is up to the runtime; the contract
/// only holds callers to a well-formed interest.
#[verifier::external_body]
pub(crate) fn poll_set(poll_fd: i32, source_fd: i32, token: u64, interests: u64) -> (r: Result<
    (),
    moto_rt::Error,
>)
    requires
        is_interest_flags(interests),
{
    moto_rt::poll::set(poll_fd, source_fd, token, interests)
}

/// `moto_rt::poll::del`: removes the registration of `source_fd` from the
/// polling object `poll_fd`. The outcome is up to the runtime.
#[verifier::external_body]
pub(crate) fn poll_del(poll_fd: i32, source_fd: i32) -> (r: Result<(), moto_rt::Error>) {
    moto_rt::poll::del(poll_fd, source_fd)
}

/// `moto_rt::poll::wake`: signals the polling object `poll_fd`. The outcome
/// is up to the runtime.
#[verifier::external_body]
pub(crate) fn poll_wake(poll_fd: i32) -> (r: Result<(), moto_rt::Error>) {
    moto_rt::poll::wake(poll_fd)
}

/// `moto_rt::poll::wait`: blocks until the polling object `poll_fd` has
/// events or the deadline, in ticks, has passed; without a deadline it
/// blocks until there are events. On success the result holds a buffer of
/// exactly `room` records, of which the runtime wrote the first ones, and
/// the count that the runtime returned. Nothing is claimed of that count or
/// of what the records hold.
#[verifier::external_body]
pub(crate) fn poll_wait(poll_fd: i32, room: usize, deadline: Option<u64>) -> (r: Result<
    (Vec<Event>, usize),
    moto_rt::Error,
>)
    requires
        room <= MAX_BATCH,
    ensures
        r is Ok ==> r->Ok_0.0@.len() == room,
{
    let mut raw = vec![moto_rt::poll::Event::default(); room];
    let until = match deadline {
        Some(ticks) => Some(moto_rt::time::Instant::from_u64(ticks)),
        None => None,
    };
    let count = moto_rt::poll::wait(poll_fd, raw.as_mut_ptr(), room, until)?;
    Ok((raw.iter().map(|e| Event { token: e.token, events: e.events }).collect(), count))
}

/// `moto_rt::fs::duplicate`: a second descriptor for the object behind
/// `fd`. A descriptor that the runtime hands out is never negative; whether
/// the call succeeds is up to the runtime.
#[verifier::external_body]
pub(crate) fn duplicate(fd: i32) -> (r: Result<i32, moto_rt::Error>)
    ensures
        r is Ok ==> r->Ok_0 >= 0,
{
    moto_rt::fs::duplicate(fd)
}

/// `moto_rt::fs::close`: gives the descriptor back to the runtime. The
/// runtime's verdict is dropped; the call does not unwind.
#[verifier::external_body]
pub(crate) fn close(fd: i32)
    opens_invariants none
    no_unwind
{
    let _ = moto_rt::fs::close(fd);
}

/// `moto_rt::time::Instant::now`: the current time in ticks. Nothing is
/// claimed of the value.
#[verifier::external_body]
pub(crate) fn instant_now() -> (ticks: u64) {
    moto_rt::time::Instant::now().as_u64()
}

/// `moto_rt::time::Instant::checked_add_duration`: the instant `timeout`
/// after `start`, in ticks, or `None` where ticks cannot express it. The
/// length of a tick is the machine's, so all that is claimed is that the
/// result is not before `start`.
#[verifier::external_body]
pub(crate) fn instant_after(start: u64, timeout: &Duration) -> (r: Option<u64>)
    ensures
        r is Some ==> r->Some_0 >= start,
{
    match moto_rt::time::Instant::from_u64(start).checked_add_duration(timeout) {
        Some(instant) => Some(instant.as_u64()),
        None => None,
    }
}

} // verus!
