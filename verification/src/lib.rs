//! A low-overhead event-tracing layer.
//!
//! A host program marks scopes as traced intervals tagged with a category and
//! a label; each interval records its originating thread and is handed to the
//! `measureme` storage backend for offline analysis.  The crate offers:
//!
//! - [`interner::StringInterner`]: content-addressed string identifiers,
//!   stable within one recording session;
//! - [`profiler::Profiler`]: the recording session, bound to one output
//!   destination, with an enable/disable switch and the `trace`/`finish`
//!   pair that brackets an interval;
//! - [`profiler::Guard`]: the move-only handle whose finalization closes an
//!   interval exactly once;
//! - [`registry::Registry`]: the set-once slot that holds at most one session
//!   and dispatches trace calls to it;
//! - [`instrument`]: the decisions behind the attribute form that wraps a
//!   whole function body in a guard, rejecting function shapes that cannot
//!   bracket a scope.

pub mod backend;
pub mod errors;
pub mod instrument;
pub mod interner;
pub mod profiler;
pub mod registry;

pub use errors::InitError;
pub use errors::TraceError;
pub use interner::StringInterner;
pub use profiler::Guard;
pub use profiler::Profiler;
