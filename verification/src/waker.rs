use vstd::prelude::*;
use crate::error::PollError;
use crate::handle::OwnedHandle;
use crate::interest::Interest;
use crate::runtime::{poll_new, poll_wake};
use crate::selector::Selector;
use crate::token::Token;

verus! {

/// Lets any thread end a blocked wait of the selector it was made for.
///
/// A waker owns a signal object of the runtime that is registered with the
/// selector for readable readiness. Dropping the waker closes the object.
#[derive(Debug)]
pub struct Waker {
    handle: OwnedHandle,
}

impl Waker {
    /// The descriptor of the signal object.
    pub closed spec fn spec_raw_fd(&self) -> i32 {
        self.handle.spec_raw()
    }

    /// Creates a signal object and registers it with `selector` under
    /// `token`, for readable readiness. When the registration fails the
    /// object is closed again.
    pub fn new(selector: &Selector, token: Token) -> (r: Result<Waker, PollError>)
        ensures
            r is Ok ==> r->Ok_0.spec_raw_fd() >= 0,
            r is Err ==> r->Err_0.is_canonical(),
    {
        let handle = match poll_new() {
            Ok(fd) => OwnedHandle::new(fd),
            Err(error) => {
                return Err(PollError::from_runtime(error));
            },
        };
        match selector.register(token, Interest::readable(), handle.as_raw_fd()) {
            Ok(()) => Ok(Waker { handle }),
            Err(error) => Err(error),
        }
    }

    /// Removes the registration of the signal object from `selector`, which
    /// is to be the selector that the waker was made for. To be called
    /// before the waker is dropped: dropping it closes the object and leaves
    /// the registration to the runtime.
    pub fn deregister(&self, selector: &Selector) -> (r: Result<(), PollError>)
        ensures
            r is Err ==> r->Err_0.is_canonical(),
    {
        selector.deregister(self.handle.as_raw_fd())
    }

    /// Signals the object, so that a wait of the selector reports an event
    /// with the waker's token. Several signals before one wait may come out
    /// as one event.
    pub fn wake(&self) -> (r: Result<(), PollError>)
        ensures
            r is Err ==> r->Err_0.is_canonical(),
    {
        PollError::settle(poll_wake(self.handle.as_raw_fd()))
    }
}

} // verus!
