//! Readiness-based I/O event multiplexing on top of the Motor OS runtime.
//!
//! A [`selector::Selector`] owns one polling object of the runtime. Resources
//! are registered with it under a [`token::Token`] and an
//! [`interest::Interest`]; [`selector::Selector::select`] blocks until some of
//! them are ready and reports them as [`event::Event`] records in a
//! caller-owned [`event::Events`] buffer. A [`waker::Waker`] lets any thread
//! end a blocked wait.

pub mod error;
pub mod event;
pub mod handle;
pub mod interest;
pub mod io_source;
pub mod runtime;
pub mod selector;
pub mod token;
pub mod waker;
