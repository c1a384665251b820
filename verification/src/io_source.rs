use vstd::prelude::*;
use crate::error::PollError;
use crate::interest::Interest;
use crate::selector::Selector;
use crate::token::Token;

verus! {

/// Guard between the I/O on a resource and changes of its registration.
///
/// The registrations live in the polling object alone, so the guard holds
/// no state: an operation passes straight through, and so does every change
/// of a registration.
#[derive(Debug)]
pub struct IoSourceState;

impl IoSourceState {
    pub fn new() -> (state: IoSourceState) {
        IoSourceState
    }

    /// Performs the operation `f` on the resource `io`: the result is that
    /// of `f`, and `f` is called on nothing else.
    pub fn do_io<T, F, R, E>(&self, f: F, io: &T) -> (r: Result<R, E>) where
        F: FnOnce(&T) -> Result<R, E>,

        requires
            f.requires((io,)),
        ensures
            f.ensures((io,), r),
    {
        f(io)
    }

    /// Registers `fd` with `selector`, as [`Selector::register`] does.
    pub fn register(&mut self, selector: &Selector, token: Token, interest: Interest, fd: i32) -> (r:
        Result<(), PollError>)
        ensures
            r is Err ==> r->Err_0.is_canonical(),
    {
        selector.register(token, interest, fd)
    }

    /// Changes the registration of `fd` with `selector`, as
    /// [`Selector::reregister`] does.
    pub fn reregister(
        &mut self,
        selector: &Selector,
        token: Token,
        interest: Interest,
        fd: i32,
    ) -> (r: Result<(), PollError>)
        ensures
            r is Err ==> r->Err_0.is_canonical(),
    {
        selector.reregister(token, interest, fd)
    }

    /// Removes the registration of `fd` from `selector`, as
    /// [`Selector::deregister`] does.
    pub fn deregister(&mut self, selector: &Selector, fd: i32) -> (r: Result<(), PollError>)
        ensures
            r is Err ==> r->Err_0.is_canonical(),
    {
        selector.deregister(fd)
    }
}

} // verus!
