//! The storage collaborator, taken on trust.
//!
//! The `measureme` crate persists interned strings and completed interval
//! events to a path-addressable backing store.  Its values are opaque here:
//! every contract of this library is stated over the library's own model of
//! the session, and these declarations only carry the backend's handles
//! through.  Nothing is promised of the handles' values; which string an
//! identifier denotes, and which events were opened and closed, the library
//! tracks itself.

use measureme::Profiler as BackendProfiler;
use vstd::prelude::*;

verus! {

/// The backend's recording session: `measureme::Profiler` writes the trace
/// to files at a path stem.
#[verifier::external_type_specification]
#[verifier::external_body]
pub struct ExBackendProfiler(BackendProfiler);

/// The backend's identifier for one interned string.
#[verifier::external_type_specification]
#[verifier::external_body]
pub struct ExBackendStringId(measureme::StringId);

/// The backend's identifier for one event, derived from a label's
/// interned string.
#[verifier::external_type_specification]
#[verifier::external_body]
pub struct ExBackendEventId(measureme::EventId);

/// The backend's handle for an interval whose start has been recorded and
/// whose end has not.
#[verifier::external_type_specification]
#[verifier::external_body]
pub struct ExBackendDetachedTiming(measureme::DetachedTiming);

/// A path stem the backend accepts: it must end in a file-name component,
/// because the backend takes the stem's parent directory unconditionally
/// and aborts on a stem without one (the empty path, a bare root or drive,
/// a stem naming `.` or `..`).  A nonempty stem whose last character is
/// neither a separator nor a dot nor a drive colon always has one.
pub open spec fn valid_path_stem(path: Seq<char>) -> bool {
    &&& path.len() > 0
    &&& path.last() != '/'
    &&& path.last() != '\\'
    &&& path.last() != '.'
    &&& path.last() != ':'
}

/// Relies on `measureme::Profiler::new`: constructs a backend session whose
/// files live at the stem `path`, creating the parent directory as needed;
/// fails when the files cannot be created.  The error is reported as the
/// backend's own description.  The stem must carry a file-name component:
/// on one without, the backend aborts instead of failing.  (The backend
/// also reads the wall clock and aborts if it predates the epoch — an
/// environment condition no precondition on the arguments can carry.)
#[verifier::external_body]
pub(crate) fn backend_new(path: &str) -> (r: Result<measureme::Profiler, String>)
    requires
        valid_path_stem(path@),
{
    match measureme::Profiler::new(path) {
        Ok(p) => Ok(p),
        Err(e) => Err(e.to_string()),
    }
}

/// Relies on `measureme::Profiler::alloc_string`: writes the string's
/// content to the store and returns the backend's identifier for it.  The
/// identifier reflects the store's allocation state, so nothing is promised
/// of its value; content-addressing is this library's own doing, which
/// calls this once per distinct content and reuses the returned handle.
#[verifier::external_body]
pub(crate) fn backend_alloc_string(p: &measureme::Profiler, s: &str) -> (r: measureme::StringId) {
    p.alloc_string(s)
}

/// Relies on `measureme::EventId::from_label`: wraps a label's interned
/// string identifier as an event identifier, with no further allocation.
#[verifier::external_body]
pub(crate) fn backend_event_id(label: &measureme::StringId) -> (r: measureme::EventId) {
    measureme::EventId::from_label(*label)
}

/// Relies on `measureme::Profiler::start_recording_interval_event_detached`:
/// records the interval's start, tagged `(kind, id, thread)`, with the
/// backend's clock, and returns the handle that later closes it.
#[verifier::external_body]
pub(crate) fn backend_start(
    p: &measureme::Profiler,
    kind: &measureme::StringId,
    id: measureme::EventId,
    thread: u32,
) -> (r: measureme::DetachedTiming) {
    p.start_recording_interval_event_detached(*kind, id, thread)
}

/// Relies on `measureme::Profiler::finish_recording_interval_event`: takes
/// the end time from the backend's clock and durably persists the completed
/// interval.  The handle must have been obtained from the same backend
/// session — on a foreign handle the backend can abort on its start-before-
/// end check; the library enforces this with a ghost session identity on
/// every guard.  (The backend also aborts once a session's clock exceeds
/// its interval encoding, at roughly seventy-eight hours of session life —
/// a time condition no precondition on the arguments can carry.)
#[verifier::external_body]
pub(crate) fn backend_finish(p: &measureme::Profiler, timing: measureme::DetachedTiming) {
    p.finish_recording_interval_event(timing)
}

} // verus!
