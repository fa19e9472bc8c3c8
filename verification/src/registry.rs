//! The process-wide registry: a set-once session slot and the tracing
//! switch.
//!
//! A registry holds at most one [`Profiler`]; once a session is bound it is
//! never replaced or removed.  Binding is set-if-absent: of competing
//! initialization attempts exactly one succeeds and the rest observe
//! [`InitError::AlreadyInitialized`] with the winner untouched.  (An
//! embedding that shares one registry across threads serializes the calls;
//! the contracts here make the serialized outcome deterministic.)
//!
//! The enable/disable switch lives in the registry, independent of session
//! presence: flipping it before a session is bound is legal and takes
//! effect on the session as soon as one is created.

use vstd::prelude::*;

use crate::errors::InitError;
use crate::errors::TraceError;
use crate::profiler::fresh_session;
use crate::profiler::spec_finish;
use crate::profiler::spec_trace;
use crate::profiler::spec_trace_path;
use crate::profiler::EventTag;
use crate::profiler::Guard;
use crate::profiler::Profiler;
use crate::profiler::SessionModel;

verus! {

/// The registry state the contracts speak of.
#[verifier::ext_equal]
pub ghost struct RegistryModel {
    /// The bound session, if one has been bound.
    pub session: Option<SessionModel>,
    /// The process-wide tracing switch.
    pub enabled: bool,
}

/// Holds at most one recording session and the tracing switch.
pub struct Registry {
    session: Option<Profiler>,
    enabled: bool,
}

impl View for Registry {
    type V = RegistryModel;

    closed spec fn view(&self) -> RegistryModel {
        RegistryModel {
            session: match self.session {
                Some(p) => Some(p@),
                None => None,
            },
            enabled: self.enabled,
        }
    }
}

impl Registry {
    /// The registry's internal invariant: a bound session is well-formed
    /// and its own flag agrees with the registry's switch.
    pub closed spec fn wf(&self) -> bool {
        match self.session {
            Some(p) => p.wf() && p@.enabled == self.enabled,
            None => true,
        }
    }

    /// Whether a session is bound.
    pub open spec fn is_initialized(&self) -> bool {
        self@.session is Some
    }

    /// The bound session's identity: guards created here carry it, and only
    /// they may be finalized here.  Meaningful while a session is bound,
    /// which is forever once it happens.
    pub closed spec fn session_ident(&self) -> int {
        match self.session {
            Some(p) => p.session_ident(),
            None => 0,
        }
    }

    /// An empty registry: no session bound, tracing disabled.
    pub fn new() -> (r: Registry)
        ensures
            r.wf(),
            r@ == (RegistryModel { session: None, enabled: false }),
    {
        Registry { session: None, enabled: false }
    }

    /// Whether a session is bound.
    pub fn initialized(&self) -> (r: bool)
        ensures
            r == self.is_initialized(),
    {
        self.session.is_some()
    }

    /// Whether trace calls currently record.
    pub fn is_enabled(&self) -> (r: bool)
        ensures
            r == self@.enabled,
    {
        self.enabled
    }

    /// Binds a session stored at `path` if and only if no session is bound:
    /// the winner's session is never replaced.  The new session starts with
    /// the registry's current switch state.  The path must end in a
    /// file-name component — the backend aborts on one without.  Fails with
    /// `AlreadyInitialized` when a session is bound, and with
    /// `BackendCreationFailure` when the backend cannot create its store;
    /// in both cases the registry is unchanged.
    pub fn try_initialize_with_path(&mut self, path: &str) -> (r: Result<(), InitError>)
        requires
            old(self).wf(),
            crate::backend::valid_path_stem(path@),
        ensures
            final(self).wf(),
            final(self)@.enabled == old(self)@.enabled,
            old(self).is_initialized() ==> final(self)@ == old(self)@ && (r matches Err(e)
                && e is AlreadyInitialized),
            !old(self).is_initialized() && r is Ok ==> final(self)@.session == Some(
                SessionModel { enabled: old(self)@.enabled, ..fresh_session(path@) },
            ),
            !old(self).is_initialized() ==> (r matches Err(e) ==> final(self)@ == old(self)@
                && e is BackendCreationFailure),
    {
        if self.session.is_some() {
            return Err(InitError::AlreadyInitialized);
        }
        self.bind(Profiler::from_path(path))
    }

    /// Binds a session for the application `name` if and only if no session
    /// is bound, storing results under `./trace/<name>-<pid>`; otherwise as
    /// `try_initialize_with_path`.
    pub fn try_initialize(&mut self, name: &str, pid: u64) -> (r: Result<(), InitError>)
        requires
            old(self).wf(),
        ensures
            final(self).wf(),
            final(self)@.enabled == old(self)@.enabled,
            old(self).is_initialized() ==> final(self)@ == old(self)@ && (r matches Err(e)
                && e is AlreadyInitialized),
            !old(self).is_initialized() && r is Ok ==> final(self)@.session == Some(
                SessionModel {
                    enabled: old(self)@.enabled,
                    ..fresh_session(spec_trace_path(name@, pid as nat))
                },
            ),
            !old(self).is_initialized() ==> (r matches Err(e) ==> final(self)@ == old(self)@
                && e is BackendCreationFailure),
    {
        if self.session.is_some() {
            return Err(InitError::AlreadyInitialized);
        }
        self.bind(Profiler::from_name(name, pid))
    }

    /// Stores a freshly created session, handing it the registry's switch
    /// state, or passes the creation failure through.
    fn bind(&mut self, created: Result<Profiler, InitError>) -> (r: Result<(), InitError>)
        requires
            old(self).wf(),
            !old(self).is_initialized(),
            created matches Ok(p) ==> p.wf() && p@.enabled == false && p@.opened
                == Seq::<EventTag>::empty() && p@.closed == Seq::<EventTag>::empty(),
            created matches Err(e) ==> e is BackendCreationFailure,
        ensures
            final(self).wf(),
            final(self)@.enabled == old(self)@.enabled,
            r is Ok <==> created is Ok,
            created matches Ok(p) ==> final(self)@.session == Some(
                SessionModel { enabled: old(self)@.enabled, ..p@ },
            ),
            r matches Err(e) ==> final(self)@ == old(self)@ && e is BackendCreationFailure,
    {
        match created {
            Ok(mut p) => {
                if self.enabled {
                    p.enable();
                }
                self.session = Some(p);
                Ok(())
            },
            Err(e) => Err(e),
        }
    }

    /// The fatal-on-conflict form of `try_initialize_with_path`: the caller
    /// asserts that no session is bound, so the only failure left is the
    /// backend's.  An embedding that cannot uphold the obligation calls the
    /// `try` form and escalates `AlreadyInitialized` itself.
    pub fn initialize_with_path(&mut self, path: &str) -> (r: Result<(), InitError>)
        requires
            old(self).wf(),
            !old(self).is_initialized(),
            crate::backend::valid_path_stem(path@),
        ensures
            final(self).wf(),
            final(self)@.enabled == old(self)@.enabled,
            r is Ok ==> final(self)@.session == Some(
                SessionModel { enabled: old(self)@.enabled, ..fresh_session(path@) },
            ),
            r matches Err(e) ==> final(self)@ == old(self)@ && e is BackendCreationFailure,
    {
        self.bind(Profiler::from_path(path))
    }

    /// The fatal-on-conflict form of `try_initialize`.
    pub fn initialize(&mut self, name: &str, pid: u64) -> (r: Result<(), InitError>)
        requires
            old(self).wf(),
            !old(self).is_initialized(),
        ensures
            final(self).wf(),
            final(self)@.enabled == old(self)@.enabled,
            r is Ok ==> final(self)@.session == Some(
                SessionModel {
                    enabled: old(self)@.enabled,
                    ..fresh_session(spec_trace_path(name@, pid as nat))
                },
            ),
            r matches Err(e) ==> final(self)@ == old(self)@ && e is BackendCreationFailure,
    {
        self.bind(Profiler::from_name(name, pid))
    }

    /// Turns tracing on, for the bound session and for one bound later.
    pub fn enable(&mut self)
        requires
            old(self).wf(),
        ensures
            final(self).wf(),
            final(self)@.enabled == true,
            final(self)@.session == (match old(self)@.session {
                Some(s) => Some(SessionModel { enabled: true, ..s }),
                None => None::<SessionModel>,
            }),
            final(self).session_ident() == old(self).session_ident(),
    {
        self.enabled = true;
        match &mut self.session {
            Some(p) => p.enable(),
            None => {},
        }
    }

    /// Turns tracing off, for the bound session and for one bound later.
    /// Intervals already recorded are kept.
    pub fn disable(&mut self)
        requires
            old(self).wf(),
        ensures
            final(self).wf(),
            final(self)@.enabled == false,
            final(self)@.session == (match old(self)@.session {
                Some(s) => Some(SessionModel { enabled: false, ..s }),
                None => None::<SessionModel>,
            }),
            final(self).session_ident() == old(self).session_ident(),
    {
        self.enabled = false;
        match &mut self.session {
            Some(p) => p.disable(),
            None => {},
        }
    }

    /// Starts tracing an interval on the bound session, which there must
    /// be.  When the switch is off the guard is inactive and nothing is
    /// recorded.  An embedding that cannot rule out an unbound registry
    /// calls `try_trace` and escalates `NotInitialized` itself.
    pub fn trace(&mut self, category: &str, label: &str, thread: u32) -> (g: Guard)
        requires
            old(self).wf(),
            old(self).is_initialized(),
            old(self)@.session matches Some(s) ==> (s.enabled ==> s.opened.len() < u64::MAX),
        ensures
            final(self).wf(),
            final(self)@.enabled == old(self)@.enabled,
            final(self).session_ident() == old(self).session_ident(),
            g.active() ==> g.session() == old(self).session_ident(),
            ({
                let s0 = old(self)@.session->Some_0;
                &&& final(self)@.session == Some(spec_trace(s0, category@, label@, thread).0)
                &&& g.active() == spec_trace(s0, category@, label@, thread).1
                &&& g.active() ==> g.tag() == (EventTag {
                    category: category@,
                    label: label@,
                    thread,
                })
            }),
    {
        match &mut self.session {
            Some(p) => p.trace(category, label, thread),
            None => unreached(),
        }
    }

    /// Starts tracing an interval, reporting `NotInitialized` when no
    /// session is bound so that the embedding can fail loudly rather than
    /// silently drop telemetry.
    pub fn try_trace(&mut self, category: &str, label: &str, thread: u32) -> (r: Result<
        Guard,
        TraceError,
    >)
        requires
            old(self).wf(),
            old(self)@.session matches Some(s) ==> (s.enabled ==> s.opened.len() < u64::MAX),
        ensures
            final(self).wf(),
            final(self)@.enabled == old(self)@.enabled,
            final(self).session_ident() == old(self).session_ident(),
            r is Ok <==> old(self).is_initialized(),
            r matches Ok(g) ==> (g.active() ==> g.session() == old(self).session_ident()),
            r matches Err(e) ==> e is NotInitialized && final(self)@ == old(self)@,
            old(self)@.session matches Some(s0) ==> ({
                &&& final(self)@.session == Some(spec_trace(s0, category@, label@, thread).0)
                &&& r matches Ok(g) && g.active() == spec_trace(s0, category@, label@, thread).1
                &&& (r matches Ok(g) && g.active()) ==> (r matches Ok(g) && g.tag() == (EventTag {
                    category: category@,
                    label: label@,
                    thread,
                }))
            }),
    {
        match &mut self.session {
            Some(p) => Ok(p.trace(category, label, thread)),
            None => Err(TraceError::NotInitialized),
        }
    }

    /// Finalizes a guard against the bound session: an active guard's
    /// interval is closed and handed to the backend; an inactive guard does
    /// nothing.  An active guard must carry this registry's session
    /// identity — only the session that created a guard may finalize it.
    pub fn finish(&mut self, guard: Guard)
        requires
            old(self).wf(),
            guard.active() ==> old(self).is_initialized(),
            guard.active() ==> guard.session() == old(self).session_ident(),
            old(self)@.session matches Some(s) ==> (guard.active() ==> s.closed.len() < u64::MAX),
        ensures
            final(self).wf(),
            final(self)@.enabled == old(self)@.enabled,
            final(self).session_ident() == old(self).session_ident(),
            old(self)@.session matches Some(s0) ==> final(self)@.session == Some(
                spec_finish(s0, guard.active(), guard.tag()),
            ),
            old(self)@.session is None ==> final(self)@ == old(self)@,
    {
        match &mut self.session {
            Some(p) => p.finish(guard),
            None => {},
        }
    }

    /// How many intervals the bound session has opened; zero when none is
    /// bound.
    pub fn events_opened(&self) -> (r: u64)
        requires
            self.wf(),
        ensures
            self@.session matches Some(s) ==> r == s.opened.len(),
            self@.session is None ==> r == 0,
    {
        match &self.session {
            Some(p) => p.events_opened(),
            None => 0,
        }
    }

    /// How many closed intervals the bound session has handed to the
    /// backend; zero when none is bound.
    pub fn events_recorded(&self) -> (r: u64)
        requires
            self.wf(),
        ensures
            self@.session matches Some(s) ==> r == s.closed.len(),
            self@.session is None ==> r == 0,
    {
        match &self.session {
            Some(p) => p.events_recorded(),
            None => 0,
        }
    }
}

} // verus!
