use vstd::prelude::*;
use crate::runtime::{code_of_error, error_code};

verus! {

/// Runtime code for an operation the runtime does not implement.
pub const CODE_NOT_IMPLEMENTED: u16 = 4;

/// Runtime code for memory exhaustion.
pub const CODE_OUT_OF_MEMORY: u16 = 8;

/// Runtime code for an object that does not exist.
pub const CODE_NOT_FOUND: u16 = 10;

/// Runtime code for an object that is already in use.
pub const CODE_ALREADY_IN_USE: u16 = 13;

/// Failure of an operation on a polling object.
///
/// Four runtime codes have a kind of their own; every other code is kept as
/// it came, in `Other`. The runtime has no code for an interruption, so
/// `Interrupted` is the kind of no runtime code.
#[derive(Clone, Copy, Debug, PartialEq, Eq, Structural)]
pub enum PollError {
    /// The runtime could not allocate what the operation needs.
    ResourceExhausted,
    /// The handle has no registration.
    NotFound,
    /// The handle is registered already.
    AlreadyExists,
    /// The runtime cannot perform the operation.
    Unsupported,
    /// A wait was cut short before it had anything to report; trying again
    /// is in order. A wait of a selector does so by itself and never ends
    /// with this kind.
    Interrupted,
    /// Any other runtime code.
    Other(u16),
}

impl PollError {
    /// The kind that a runtime code stands for.
    pub open spec fn of_code(code: u16) -> PollError {
        if code == CODE_OUT_OF_MEMORY {
            PollError::ResourceExhausted
        } else if code == CODE_NOT_FOUND {
            PollError::NotFound
        } else if code == CODE_ALREADY_IN_USE {
            PollError::AlreadyExists
        } else if code == CODE_NOT_IMPLEMENTED {
            PollError::Unsupported
        } else {
            PollError::Other(code)
        }
    }

    /// The runtime code that an error stands for; an interruption stands
    /// for none.
    pub open spec fn spec_code(self) -> Option<u16> {
        match self {
            PollError::ResourceExhausted => Some(CODE_OUT_OF_MEMORY),
            PollError::NotFound => Some(CODE_NOT_FOUND),
            PollError::AlreadyExists => Some(CODE_ALREADY_IN_USE),
            PollError::Unsupported => Some(CODE_NOT_IMPLEMENTED),
            PollError::Interrupted => None,
            PollError::Other(code) => Some(code),
        }
    }

    /// An error is canonical when it is the kind of a runtime code: it is
    /// not an interruption, and `Other` does not hide a code that has a kind
    /// of its own.
    pub open spec fn is_canonical(self) -> bool {
        match self.spec_code() {
            Some(code) => PollError::of_code(code) == self,
            None => false,
        }
    }

    /// Classifies a runtime code.
    pub fn from_code(code: u16) -> (e: PollError)
        ensures
            e == PollError::of_code(code),
    {
        if code == CODE_OUT_OF_MEMORY {
            PollError::ResourceExhausted
        } else if code == CODE_NOT_FOUND {
            PollError::NotFound
        } else if code == CODE_ALREADY_IN_USE {
            PollError::AlreadyExists
        } else if code == CODE_NOT_IMPLEMENTED {
            PollError::Unsupported
        } else {
            PollError::Other(code)
        }
    }

    /// Classifies an error of the runtime by its code.
    pub fn from_runtime(error: moto_rt::Error) -> (e: PollError)
        ensures
            e == PollError::of_code(code_of_error(error)),
            e.is_canonical(),
    {
        let code = error_code(error);
        proof {
            lemma_code_round_trip(code);
        }
        PollError::from_code(code)
    }

    /// What the runtime's verdict on an operation comes to: success stays
    /// success, and a failure has the kind of its code.
    pub open spec fn settled(outcome: Result<(), moto_rt::Error>) -> Result<(), PollError> {
        match outcome {
            Ok(_) => Ok(()),
            Err(error) => Err(PollError::of_code(code_of_error(error))),
        }
    }

    /// Turns the runtime's verdict on an operation into the operation's
    /// result: success stays success, and a failure is classified by its
    /// code.
    pub fn settle(outcome: Result<(), moto_rt::Error>) -> (r: Result<(), PollError>)
        ensures
            r == PollError::settled(outcome),
            r is Err ==> r->Err_0.is_canonical(),
    {
        match outcome {
            Ok(()) => Ok(()),
            Err(error) => Err(PollError::from_runtime(error)),
        }
    }

    /// The runtime code behind the error, for diagnostics; none behind an
    /// interruption.
    pub fn code(&self) -> (code: Option<u16>)
        ensures
            code == self.spec_code(),
    {
        match self {
            PollError::ResourceExhausted => Some(CODE_OUT_OF_MEMORY),
            PollError::NotFound => Some(CODE_NOT_FOUND),
            PollError::AlreadyExists => Some(CODE_ALREADY_IN_USE),
            PollError::Unsupported => Some(CODE_NOT_IMPLEMENTED),
            PollError::Interrupted => None,
            PollError::Other(code) => Some(*code),
        }
    }

    /// Whether the failure is transient, so that the call may be repeated.
    pub fn is_transient(&self) -> (r: bool)
        ensures
            r == (*self == PollError::Interrupted),
    {
        match self {
            PollError::Interrupted => true,
            _ => false,
        }
    }
}

/// Classification loses nothing: the code of the kind that a runtime code
/// stands for is that code again, and the kind is canonical. No runtime code
/// stands for an interruption.
pub proof fn lemma_code_round_trip(code: u16)
    ensures
        PollError::of_code(code).spec_code() == Some(code),
        PollError::of_code(code).is_canonical(),
        PollError::of_code(code) != PollError::Interrupted,
{
}

/// Two runtime codes stand for the same kind only if they are the same code.
pub proof fn lemma_classification_injective(a: u16, b: u16)
    requires
        PollError::of_code(a) == PollError::of_code(b),
    ensures
        a == b,
{
    lemma_code_round_trip(a);
    lemma_code_round_trip(b);
}

} // verus!
