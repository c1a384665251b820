use motor_poll::error::{
    PollError, CODE_ALREADY_IN_USE, CODE_NOT_FOUND, CODE_NOT_IMPLEMENTED, CODE_OUT_OF_MEMORY,
};

#[test]
fn codes_are_those_of_the_runtime() {
    assert_eq!(CODE_NOT_IMPLEMENTED, moto_rt::E_NOT_IMPLEMENTED);
    assert_eq!(CODE_OUT_OF_MEMORY, moto_rt::E_OUT_OF_MEMORY);
    assert_eq!(CODE_NOT_FOUND, moto_rt::E_NOT_FOUND);
    assert_eq!(CODE_ALREADY_IN_USE, moto_rt::E_ALREADY_IN_USE);
}

#[test]
fn codes_with_a_kind() {
    assert_eq!(PollError::from_code(8), PollError::ResourceExhausted);
    assert_eq!(PollError::from_code(10), PollError::NotFound);
    assert_eq!(PollError::from_code(13), PollError::AlreadyExists);
    assert_eq!(PollError::from_code(4), PollError::Unsupported);
}

#[test]
fn other_codes_are_kept() {
    assert_eq!(PollError::from_code(0), PollError::Other(0));
    assert_eq!(PollError::from_code(1), PollError::Other(1));
    assert_eq!(PollError::from_code(3), PollError::Other(3));
    assert_eq!(PollError::from_code(12), PollError::Other(12));
    assert_eq!(PollError::from_code(17), PollError::Other(17));
    assert_eq!(PollError::from_code(u16::MAX), PollError::Other(u16::MAX));
}

#[test]
fn code_of_every_kind() {
    assert_eq!(PollError::ResourceExhausted.code(), Some(8));
    assert_eq!(PollError::NotFound.code(), Some(10));
    assert_eq!(PollError::AlreadyExists.code(), Some(13));
    assert_eq!(PollError::Unsupported.code(), Some(4));
    assert_eq!(PollError::Other(21).code(), Some(21));
}

#[test]
fn interruption_has_no_code() {
    assert_eq!(PollError::Interrupted.code(), None);
}

#[test]
fn no_code_is_an_interruption() {
    for code in 0..=u16::MAX {
        assert_ne!(PollError::from_code(code), PollError::Interrupted);
    }
}

#[test]
fn classification_loses_no_code() {
    for code in 0..=u16::MAX {
        assert_eq!(PollError::from_code(code).code(), Some(code));
    }
}

#[test]
fn only_interruption_is_transient() {
    assert!(PollError::Interrupted.is_transient());
    assert!(!PollError::ResourceExhausted.is_transient());
    assert!(!PollError::NotFound.is_transient());
    assert!(!PollError::AlreadyExists.is_transient());
    assert!(!PollError::Unsupported.is_transient());
    assert!(!PollError::Other(12).is_transient());
}

#[test]
fn runtime_errors_are_classified_by_their_code() {
    assert_eq!(
        PollError::from_runtime(moto_rt::Error::OutOfMemory),
        PollError::ResourceExhausted
    );
    assert_eq!(PollError::from_runtime(moto_rt::Error::NotFound), PollError::NotFound);
    assert_eq!(
        PollError::from_runtime(moto_rt::Error::AlreadyInUse),
        PollError::AlreadyExists
    );
    assert_eq!(
        PollError::from_runtime(moto_rt::Error::NotImplemented),
        PollError::Unsupported
    );
    assert_eq!(PollError::from_runtime(moto_rt::Error::NotReady), PollError::Other(3));
    assert_eq!(PollError::from_runtime(moto_rt::Error::TimedOut), PollError::Other(12));
    assert_eq!(PollError::from_runtime(moto_rt::Error::BadHandle), PollError::Other(17));
    assert_eq!(
        PollError::from_runtime(moto_rt::Error::InvalidArgument),
        PollError::Other(7)
    );
}

#[test]
fn success_of_the_runtime_stays_success() {
    assert_eq!(PollError::settle(Ok(())), Ok(()));
}

#[test]
fn failure_of_the_runtime_is_classified() {
    assert_eq!(PollError::settle(Err(moto_rt::Error::NotFound)), Err(PollError::NotFound));
    assert_eq!(
        PollError::settle(Err(moto_rt::Error::AlreadyInUse)),
        Err(PollError::AlreadyExists)
    );
    assert_eq!(
        PollError::settle(Err(moto_rt::Error::NotImplemented)),
        Err(PollError::Unsupported)
    );
    assert_eq!(
        PollError::settle(Err(moto_rt::Error::OutOfMemory)),
        Err(PollError::ResourceExhausted)
    );
    assert_eq!(PollError::settle(Err(moto_rt::Error::BadHandle)), Err(PollError::Other(17)));
    assert_eq!(PollError::settle(Err(moto_rt::Error::NotReady)), Err(PollError::Other(3)));
}
