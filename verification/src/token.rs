use vstd::prelude::*;

verus! {

/// Correlation tag chosen by the caller when a resource is registered.
///
/// The tag is carried unchanged on every event produced for the registration.
#[derive(Clone, Copy, Debug, PartialEq, Eq, Hash, Structural)]
pub struct Token(pub usize);

} // verus!
