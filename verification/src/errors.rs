//! The runtime error taxonomy.
//!
//! Initialization errors are the only runtime errors a caller can recover
//! from; a trace call on an uninitialized registry is reported so that an
//! embedding can escalate it to a fatal failure.

use vstd::prelude::*;

verus! {

/// Why binding a recording session failed.
#[derive(Debug)]
pub enum InitError {
    /// A session was already bound; the one that won is untouched.
    AlreadyInitialized,
    /// The storage backend could not be constructed for the requested
    /// destination; the message is the backend's own description.
    BackendCreationFailure(String),
}

/// Why a trace call could not be dispatched.
#[derive(Debug)]
pub enum TraceError {
    /// No session is bound.  Embeddings treat this as fatal: a silent no-op
    /// would let a caller believe data was recorded when it was not.
    NotInitialized,
}

impl InitError {
    /// A human-readable description of the failure.
    pub fn describe(&self) -> (r: &str)
        ensures
            self is AlreadyInitialized ==> r@ == "a recording session is already initialized"@,
            self matches InitError::BackendCreationFailure(m) ==> r@ == m@,
    {
        match self {
            InitError::AlreadyInitialized => "a recording session is already initialized",
            InitError::BackendCreationFailure(msg) => msg.as_str(),
        }
    }
}

impl TraceError {
    /// A human-readable description of the failure.
    pub fn describe(&self) -> (r: &str)
        ensures
            r@ == "trace called before a recording session was initialized"@,
    {
        match self {
            TraceError::NotInitialized => "trace called before a recording session was initialized",
        }
    }
}

} // verus!
