use vstd::prelude::*;
use crate::runtime::close;

verus! {

/// A descriptor of the runtime together with the duty to close it.
///
/// The descriptor is given back to the runtime when the value is dropped.
/// A value cannot be copied, so a descriptor is closed once.
#[derive(Debug)]
pub struct OwnedHandle {
    fd: i32,
}

impl OwnedHandle {
    /// The descriptor that the value owns.
    pub closed spec fn spec_raw(&self) -> i32 {
        self.fd
    }

    /// Takes over a descriptor that the runtime handed out.
    pub(crate) fn new(fd: i32) -> (handle: OwnedHandle)
        ensures
            handle.spec_raw() == fd,
    {
        OwnedHandle { fd }
    }

    /// The descriptor that the value owns; the value keeps owning it.
    pub fn as_raw_fd(&self) -> (fd: i32)
        ensures
            fd == self.spec_raw(),
    {
        self.fd
    }
}

impl Drop for OwnedHandle {
    fn drop(&mut self)
        opens_invariants none
        no_unwind
    {
        let fd: i32 = self.fd;
        close(fd);
    }
}

} // verus!
