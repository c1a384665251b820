use vstd::prelude::*;
use crate::token::Token;

verus! {

/// Readiness flag: the resource can be read without blocking.
pub const POLL_READABLE: u64 = 1;

/// Readiness flag: the resource can be written without blocking.
pub const POLL_WRITABLE: u64 = 2;

/// Readiness flag: the read side of the resource is closed.
pub const POLL_READ_CLOSED: u64 = 4;

/// Readiness flag: the write side of the resource is closed.
pub const POLL_WRITE_CLOSED: u64 = 8;

/// Readiness flag: the resource is in an error state.
pub const POLL_ERROR: u64 = 16;

/// One readiness notification: the tag of the registration that produced it
/// and the readiness flags that hold of the resource.
#[derive(Clone, Copy, Debug, PartialEq, Eq, Structural)]
pub struct Event {
    pub token: u64,
    pub events: u64,
}

/// Whether `flag` is among the readiness flags `events`.
pub open spec fn has_flag(events: u64, flag: u64) -> bool {
    events & flag != 0
}

/// The tag that an event carries.
pub open spec fn token_of(event: Event) -> Token {
    Token(event.token as usize)
}

/// The tag under which the resource behind the event was registered.
pub fn token(event: &Event) -> (t: Token)
    ensures
        t == token_of(*event),
{
    Token(event.token as usize)
}

pub fn is_readable(event: &Event) -> (r: bool)
    ensures
        r == has_flag(event.events, POLL_READABLE),
{
    event.events & POLL_READABLE != 0
}

pub fn is_writable(event: &Event) -> (r: bool)
    ensures
        r == has_flag(event.events, POLL_WRITABLE),
{
    event.events & POLL_WRITABLE != 0
}

pub fn is_error(event: &Event) -> (r: bool)
    ensures
        r == has_flag(event.events, POLL_ERROR),
{
    event.events & POLL_ERROR != 0
}

pub fn is_read_closed(event: &Event) -> (r: bool)
    ensures
        r == has_flag(event.events, POLL_READ_CLOSED),
{
    event.events & POLL_READ_CLOSED != 0
}

pub fn is_write_closed(event: &Event) -> (r: bool)
    ensures
        r == has_flag(event.events, POLL_WRITE_CLOSED),
{
    event.events & POLL_WRITE_CLOSED != 0
}

/// Priority readiness has no counterpart in the runtime: never reported.
pub fn is_priority(_event: &Event) -> (r: bool)
    ensures
        !r,
{
    false
}

/// Completion of asynchronous I/O has no counterpart in the runtime: never
/// reported.
pub fn is_aio(_event: &Event) -> (r: bool)
    ensures
        !r,
{
    false
}

/// Completion of list I/O has no counterpart in the runtime: never reported.
pub fn is_lio(_event: &Event) -> (r: bool)
    ensures
        !r,
{
    false
}

/// Caller-owned buffer of the events that one wait reported, in the order in
/// which they were reported. It never holds more events than its capacity.
pub struct Events {
    records: Vec<Event>,
    room: usize,
}

impl View for Events {
    type V = Seq<Event>;

    closed spec fn view(&self) -> Seq<Event> {
        self.records@
    }
}

/// The number of items that are kept when `reported` holds the records of a
/// wait, the runtime counted `count` of them, and the buffer has room for
/// `capacity`.
pub open spec fn kept(reported: Seq<Event>, count: usize, capacity: usize) -> int {
    let within = if count <= reported.len() {
        count as int
    } else {
        reported.len() as int
    };
    if within <= capacity {
        within
    } else {
        capacity as int
    }
}

impl Events {
    /// The buffer holds no more events than its capacity. Every function
    /// that makes or changes a buffer establishes this.
    pub closed spec fn is_valid(self) -> bool {
        self.records@.len() <= self.room
    }

    /// A valid buffer holds no more events than its capacity.
    pub proof fn lemma_len_within_capacity(self)
        requires
            self.is_valid(),
        ensures
            self@.len() <= self.spec_capacity(),
    {
    }

    /// The most events that the buffer holds.
    pub closed spec fn spec_capacity(self) -> usize {
        self.room
    }

    /// An empty buffer that holds up to `capacity` events.
    pub fn with_capacity(capacity: usize) -> (events: Events)
        ensures
            events.is_valid(),
            events@ == Seq::<Event>::empty(),
            events.spec_capacity() == capacity,
    {
        Events { records: Vec::new(), room: capacity }
    }

    pub fn capacity(&self) -> (n: usize)
        ensures
            n == self.spec_capacity(),
    {
        self.room
    }

    pub fn len(&self) -> (n: usize)
        ensures
            n == self@.len(),
            self.is_valid() ==> n <= self.spec_capacity(),
    {
        self.records.len()
    }

    pub fn is_empty(&self) -> (r: bool)
        ensures
            r == (self@.len() == 0),
    {
        self.records.len() == 0
    }

    /// The event at `index`, if there is one.
    pub fn get(&self, index: usize) -> (r: Option<Event>)
        ensures
            r == (if index < self@.len() {
                Some(self@[index as int])
            } else {
                None
            }),
    {
        if index < self.records.len() {
            Some(self.records[index])
        } else {
            None
        }
    }

    /// Forgets the events; the capacity stays.
    pub fn clear(&mut self)
        ensures
            final(self).is_valid(),
            final(self)@ == Seq::<Event>::empty(),
            final(self).spec_capacity() == old(self).spec_capacity(),
    {
        self.records.clear();
    }

    /// Replaces the contents by the first records of `reported`: as many as
    /// the runtime counted, as `reported` holds and as the buffer has room
    /// for, whichever is least.
    pub fn fill(&mut self, reported: &Vec<Event>, count: usize)
        ensures
            final(self).is_valid(),
            final(self)@ == reported@.take(kept(reported@, count, old(self).spec_capacity())),
            final(self).spec_capacity() == old(self).spec_capacity(),
    {
        self.records.clear();
        let mut n: usize = if count <= reported.len() {
            count
        } else {
            reported.len()
        };
        if n > self.room {
            n = self.room;
        }
        let mut i: usize = 0;
        while i < n
            invariant
                i <= n,
                n <= reported@.len(),
                n <= self.room,
                self.room == old(self).room,
                self.records@ == reported@.take(i as int),
            decreases n - i,
        {
            self.records.push(reported[i]);
            i += 1;
        }
    }
}

} // verus!
