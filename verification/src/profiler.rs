//! The recording session and its scope guards.
//!
//! A [`Profiler`] is bound to one output destination and records traced
//! intervals: a trace call interns the category and label, derives the
//! event's identity from the label's interned form, asks the backend to
//! open an interval tagged with the originating thread, and returns a
//! [`Guard`].  Finalizing the guard closes the interval and hands it to the
//! backend for durable persistence.  A disabled session opens nothing and
//! returns inactive guards.
//!
//! Every contract is stated over [`SessionModel`]: the session's interned
//! contents, its enabled flag, and the tags of the intervals opened and
//! closed so far.

use vstd::prelude::*;
use vstd::string::StrSliceExecFns;
use vstd::string::StringExecFns;

use crate::backend;
use crate::errors::InitError;
use crate::interner::content_id;
use crate::interner::intern_step;
use crate::interner::StringInterner;

verus! {

/// Relies on `String::push`: appends one character to the string.
pub assume_specification[ String::push ](s: &mut String, c: char)
    ensures
        final(s)@ == old(s)@.push(c),
;

/// What one traced interval records: its category and label content and the
/// thread that opened it.  Timestamps are the backend clock's and are not
/// modeled.
#[verifier::ext_equal]
pub ghost struct EventTag {
    /// The category's string content.
    pub category: Seq<char>,
    /// The event label's string content.
    pub label: Seq<char>,
    /// The originating thread, captured once at guard creation.
    pub thread: u32,
}

/// The session state the contracts speak of.
#[verifier::ext_equal]
pub ghost struct SessionModel {
    /// The output destination the session is bound to.
    pub destination: Seq<char>,
    /// The contents interned so far; a content's identifier is its index.
    pub contents: Seq<Seq<char>>,
    /// Whether trace calls open intervals.
    pub enabled: bool,
    /// The intervals opened so far, in order.
    pub opened: Seq<EventTag>,
    /// The intervals closed and handed to the backend so far, in order.
    pub closed: Seq<EventTag>,
}

/// A fresh session bound to `destination`: nothing interned, nothing
/// recorded, tracing disabled.
pub open spec fn fresh_session(destination: Seq<char>) -> SessionModel {
    SessionModel {
        destination,
        contents: Seq::empty(),
        enabled: false,
        opened: Seq::empty(),
        closed: Seq::empty(),
    }
}

/// What a trace call does to a session: on a disabled session, nothing, and
/// the guard is inactive; on an enabled one, the category and label are
/// interned and one interval is opened, and the guard is active.
pub open spec fn spec_trace(
    m: SessionModel,
    category: Seq<char>,
    label: Seq<char>,
    thread: u32,
) -> (SessionModel, bool) {
    if !m.enabled {
        (m, false)
    } else {
        (
            SessionModel {
                contents: intern_step(intern_step(m.contents, category), label),
                opened: m.opened.push(EventTag { category, label, thread }),
                ..m
            },
            true,
        )
    }
}

/// What finalizing a guard does to a session: an active guard's interval is
/// closed and handed to the backend; an inactive guard closes nothing.
pub open spec fn spec_finish(m: SessionModel, active: bool, tag: EventTag) -> SessionModel {
    if active {
        SessionModel { closed: m.closed.push(tag), ..m }
    } else {
        m
    }
}

/// The first half of the identity hash's fold: the value folded over the
/// label's characters so far.
pub const IDENTITY_BASIS: u64 = 0xcbf29ce484222325;

/// The multiplier of the identity hash's fold.
pub const IDENTITY_FACTOR: u64 = 0x100000001b3;

/// The identity derived for a label: a stable content hash, folded over the
/// label's characters.  It is a function of the label's content alone — no
/// interning order, allocation timing, thread or session state enters it —
/// so two runs with the same label text derive the same identity even if
/// their interning orders differ.
pub open spec fn spec_event_identity(label: Seq<char>) -> u64
    decreases label.len(),
{
    if label.len() == 0 {
        IDENTITY_BASIS
    } else {
        vstd::wrapping::u64_specs::wrapping_mul(
            spec_event_identity(label.drop_last()) ^ (label.last() as u64),
            IDENTITY_FACTOR,
        )
    }
}

/// The move-only handle for one traced interval.  An active guard owns the
/// backend handle of an open interval; an inactive one (tracing was
/// disabled at creation) carries nothing.  A guard cannot be duplicated,
/// only relocated, so the interval it owns is closed at most once.
pub struct Guard {
    inner: Option<measureme::DetachedTiming>,
    tag: Ghost<EventTag>,
    owner: Ghost<int>,
}

impl Guard {
    /// Whether the guard owns an open interval.
    pub closed spec fn active(&self) -> bool {
        self.inner is Some
    }

    /// The identity of the session that created the guard, meaningful when
    /// active: only that session may finalize it.
    pub closed spec fn session(&self) -> int {
        self.owner@
    }

    /// The tag of the interval the guard owns, meaningful when active.
    pub closed spec fn tag(&self) -> EventTag {
        self.tag@
    }

    /// Whether the guard owns an open interval.
    pub fn is_active(&self) -> (r: bool)
        ensures
            r == self.active(),
    {
        self.inner.is_some()
    }
}

/// The recording session: bound to one output destination, disabled until
/// enabled, and never rebound.
pub struct Profiler {
    backend: measureme::Profiler,
    destination: String,
    interner: StringInterner,
    ids: Vec<measureme::StringId>,
    enabled: bool,
    opened_count: u64,
    closed_count: u64,
    opened: Ghost<Seq<EventTag>>,
    closed: Ghost<Seq<EventTag>>,
    ident: Ghost<int>,
}

impl View for Profiler {
    type V = SessionModel;

    closed spec fn view(&self) -> SessionModel {
        SessionModel {
            destination: self.destination@,
            contents: self.interner@,
            enabled: self.enabled,
            opened: self.opened@,
            closed: self.closed@,
        }
    }
}

impl Profiler {
    /// The session's internal invariant: the interner holds no duplicate
    /// content, each interned content has exactly one backend identifier,
    /// and the event counters mirror the recorded sequences.
    pub closed spec fn wf(&self) -> bool {
        &&& self.interner.wf()
        &&& self.ids@.len() == self.interner@.len()
        &&& self.opened@.len() == self.opened_count
        &&& self.closed@.len() == self.closed_count
    }

    /// The session's identity: every guard this session creates carries it,
    /// and only guards carrying it may be finalized here.  It never changes
    /// over the session's life.
    pub closed spec fn session_ident(&self) -> int {
        self.ident@
    }

    /// Creates a session whose results are stored at `<path>.<extension>`
    /// files.  The session starts disabled.  The path must end in a
    /// file-name component — the backend aborts on one without — and the
    /// call fails exactly when the backend cannot create its store there.
    pub fn from_path(path: &str) -> (r: Result<Profiler, InitError>)
        requires
            crate::backend::valid_path_stem(path@),
        ensures
            r matches Ok(p) ==> p.wf() && p@ == fresh_session(path@),
            r matches Err(e) ==> e is BackendCreationFailure,
    {
        match backend::backend_new(path) {
            Ok(b) => {
                let p = Profiler {
                    backend: b,
                    destination: path.to_owned(),
                    interner: StringInterner::new(),
                    ids: Vec::new(),
                    enabled: false,
                    opened_count: 0,
                    closed_count: 0,
                    opened: Ghost(Seq::empty()),
                    closed: Ghost(Seq::empty()),
                    ident: Ghost(arbitrary()),
                };
                proof {
                    assert(p@ =~= fresh_session(path@));
                }
                Ok(p)
            },
            Err(msg) => Err(InitError::BackendCreationFailure(msg)),
        }
    }

    /// Creates a session from an application name: the results are stored
    /// under `./trace/<name>-<pid>`, where `pid` identifies the process.
    /// The session starts disabled.
    pub fn from_name(name: &str, pid: u64) -> (r: Result<Profiler, InitError>)
        ensures
            r matches Ok(p) ==> p.wf() && p@ == fresh_session(spec_trace_path(name@, pid as nat)),
            r matches Err(e) ==> e is BackendCreationFailure,
    {
        let path = trace_path(name, pid);
        proof {
            lemma_digits_last(pid as nat);
            assert(path@.last() == digit_char((pid as nat) % 10));
        }
        Self::from_path(path.as_str())
    }

    /// The output destination the session is bound to.
    pub fn destination(&self) -> (r: &str)
        ensures
            r@ == self@.destination,
    {
        self.destination.as_str()
    }

    /// Whether trace calls currently open intervals.
    pub fn is_enabled(&self) -> (r: bool)
        ensures
            r == self@.enabled,
    {
        self.enabled
    }

    /// How many intervals have been opened.
    pub fn events_opened(&self) -> (r: u64)
        requires
            self.wf(),
        ensures
            r == self@.opened.len(),
    {
        self.opened_count
    }

    /// How many closed intervals have been handed to the backend.
    pub fn events_recorded(&self) -> (r: u64)
        requires
            self.wf(),
        ensures
            r == self@.closed.len(),
    {
        self.closed_count
    }

    /// Makes future trace calls open intervals.
    pub fn enable(&mut self)
        requires
            old(self).wf(),
        ensures
            final(self).wf(),
            final(self)@ == (SessionModel { enabled: true, ..old(self)@ }),
            final(self).session_ident() == old(self).session_ident(),
    {
        self.enabled = true;
    }

    /// Makes future trace calls record nothing.  Intervals already recorded
    /// are kept.
    pub fn disable(&mut self)
        requires
            old(self).wf(),
        ensures
            final(self).wf(),
            final(self)@ == (SessionModel { enabled: false, ..old(self)@ }),
            final(self).session_ident() == old(self).session_ident(),
    {
        self.enabled = false;
    }

    /// Interns `s` and keeps the backend identifier table in step: a new
    /// content is allocated one backend identifier, a known one reuses its
    /// identifier.
    fn intern_id(&mut self, s: &str) -> (id: usize)
        requires
            old(self).wf(),
        ensures
            final(self).wf(),
            final(self)@ == (SessionModel {
                contents: intern_step(old(self)@.contents, s@),
                ..old(self)@
            }),
            id == content_id(old(self)@.contents, s@),
            id < final(self).ids@.len(),
            final(self).session_ident() == old(self).session_ident(),
    {
        let id = self.interner.intern(s);
        if id == self.ids.len() {
            let sid = backend::backend_alloc_string(&self.backend, s);
            self.ids.push(sid);
        }
        id
    }

    /// Starts tracing an interval tagged with `category`, `label`, and the
    /// originating `thread`.  On an enabled session the two strings are
    /// interned, the event identity is derived from the label's interned
    /// form, one interval is opened, and the returned guard owns it; on a
    /// disabled session nothing is recorded and the guard is inactive.
    pub fn trace(&mut self, category: &str, label: &str, thread: u32) -> (g: Guard)
        requires
            old(self).wf(),
            old(self)@.enabled ==> old(self)@.opened.len() < u64::MAX,
        ensures
            final(self).wf(),
            final(self)@ == spec_trace(old(self)@, category@, label@, thread).0,
            final(self).session_ident() == old(self).session_ident(),
            g.active() == spec_trace(old(self)@, category@, label@, thread).1,
            g.active() ==> g.tag() == (EventTag { category: category@, label: label@, thread }),
            g.active() ==> g.session() == old(self).session_ident(),
    {
        if !self.enabled {
            return Guard { inner: None, tag: Ghost(arbitrary()), owner: Ghost(arbitrary()) };
        }
        let cat_id = self.intern_id(category);
        let lab_id = self.intern_id(label);
        let event_id = backend::backend_event_id(&self.ids[lab_id]);
        let timing = backend::backend_start(&self.backend, &self.ids[cat_id], event_id, thread);
        let ghost tag = EventTag { category: category@, label: label@, thread };
        self.opened_count = self.opened_count + 1;
        self.opened = Ghost(self.opened@.push(tag));
        Guard { inner: Some(timing), tag: Ghost(tag), owner: Ghost(self.ident@) }
    }

    /// Finalizes a guard: an active guard's interval is closed with the
    /// backend clock's end time and handed to the backend for persistence;
    /// an inactive guard does nothing.  The guard is consumed, so its
    /// interval can never be closed twice, and an active guard must carry
    /// this session's identity: finalizing it against a foreign session
    /// would record a corrupt interval, and the backend may abort on it.
    pub fn finish(&mut self, guard: Guard)
        requires
            old(self).wf(),
            guard.active() ==> old(self)@.closed.len() < u64::MAX,
            guard.active() ==> guard.session() == old(self).session_ident(),
        ensures
            final(self).wf(),
            final(self)@ == spec_finish(old(self)@, guard.active(), guard.tag()),
            final(self).session_ident() == old(self).session_ident(),
    {
        let Guard { inner, tag, owner: _ } = guard;
        match inner {
            Some(timing) => {
                backend::backend_finish(&self.backend, timing);
                self.closed_count = self.closed_count + 1;
                self.closed = Ghost(self.closed@.push(tag@));
            },
            None => {},
        }
    }
}

/// The digit character of `d`.
pub open spec fn digit_char(d: nat) -> char {
    if d == 0 {
        '0'
    } else if d == 1 {
        '1'
    } else if d == 2 {
        '2'
    } else if d == 3 {
        '3'
    } else if d == 4 {
        '4'
    } else if d == 5 {
        '5'
    } else if d == 6 {
        '6'
    } else if d == 7 {
        '7'
    } else if d == 8 {
        '8'
    } else {
        '9'
    }
}

/// The decimal digits of `n`, most significant first, with no sign and no
/// leading zero (`0` itself is the single digit `0`).
pub open spec fn spec_digits(n: nat) -> Seq<char>
    decreases n,
{
    if n < 10 {
        seq![digit_char(n)]
    } else {
        spec_digits(n / 10).push(digit_char(n % 10))
    }
}

/// The default destination for an application name: `./trace/<name>-<pid>`.
pub open spec fn spec_trace_path(name: Seq<char>, pid: nat) -> Seq<char> {
    "./trace/"@ + name + "-"@ + spec_digits(pid)
}

fn digit_char_of(d: u64) -> (c: char)
    requires
        d < 10,
    ensures
        c == digit_char(d as nat),
{
    if d == 0 {
        '0'
    } else if d == 1 {
        '1'
    } else if d == 2 {
        '2'
    } else if d == 3 {
        '3'
    } else if d == 4 {
        '4'
    } else if d == 5 {
        '5'
    } else if d == 6 {
        '6'
    } else if d == 7 {
        '7'
    } else if d == 8 {
        '8'
    } else {
        '9'
    }
}

/// Writes `n` in decimal.
pub fn u64_digits(n: u64) -> (r: String)
    ensures
        r@ == spec_digits(n as nat),
    decreases n,
{
    if n < 10 {
        let mut s = String::new();
        s.push(digit_char_of(n));
        proof {
            assert(s@ =~= seq![digit_char(n as nat)]);
        }
        s
    } else {
        let mut s = u64_digits(n / 10);
        s.push(digit_char_of(n % 10));
        s
    }
}

/// The decimal digits of a number are never empty and end in the digit of
/// `n % 10`, which is never a path separator, a dot or a colon — so a path
/// built to end in them always carries a file-name component.
pub proof fn lemma_digits_last(n: nat)
    ensures
        spec_digits(n).len() > 0,
        spec_digits(n).last() == digit_char(n % 10),
        spec_digits(n).last() != '/',
        spec_digits(n).last() != '\\',
        spec_digits(n).last() != '.',
        spec_digits(n).last() != ':',
{
    if n < 10 {
        assert(n % 10 == n);
    }
}

/// The default destination for an application name and process identifier:
/// `./trace/<name>-<pid>`.
pub fn trace_path(name: &str, pid: u64) -> (r: String)
    ensures
        r@ == spec_trace_path(name@, pid as nat),
{
    let mut s = String::new();
    s.append("./trace/");
    s.append(name);
    s.append("-");
    let digits = u64_digits(pid);
    s.append(digits.as_str());
    proof {
        assert(s@ =~= spec_trace_path(name@, pid as nat));
    }
    s
}

/// Derives the event identity for a label: the stable content hash
/// [`spec_event_identity`], a pure function of the label's content alone,
/// comparable across sessions, threads and runs.
pub fn event_identity(label: &str) -> (id: u64)
    ensures
        id == spec_event_identity(label@),
{
    let n = label.unicode_len();
    let mut h: u64 = IDENTITY_BASIS;
    let mut i: usize = 0;
    while i < n
        invariant
            n == label@.len(),
            i <= n,
            h == spec_event_identity(label@.subrange(0, i as int)),
        decreases n - i,
    {
        let c = label.get_char(i);
        h = (h ^ (c as u64)).wrapping_mul(IDENTITY_FACTOR);
        proof {
            let pre = label@.subrange(0, (i + 1) as int);
            assert(pre.drop_last() =~= label@.subrange(0, i as int));
            assert(pre.last() == label@[i as int]);
        }
        i += 1;
    }
    proof {
        assert(label@.subrange(0, n as int) =~= label@);
    }
    h
}

/// A well-formed session's interned contents hold no duplicates: the table
/// behind the identifiers is content-addressed.
pub proof fn lemma_wf_contents_distinct(p: &Profiler)
    requires
        p.wf(),
    ensures
        crate::interner::distinct_contents(p@.contents),
{
}

/// Disabled tracing records nothing: a trace call on a disabled session
/// leaves the session unchanged — no interval is opened — its guard is
/// inactive, and finalizing an inactive guard hands nothing to the backend.
pub proof fn lemma_disabled_trace_records_nothing(
    m: SessionModel,
    category: Seq<char>,
    label: Seq<char>,
    thread: u32,
    tag: EventTag,
)
    requires
        !m.enabled,
    ensures
        spec_trace(m, category, label, thread).0 == m,
        spec_trace(m, category, label, thread).1 == false,
        spec_finish(m, false, tag) == m,
{
}

/// One trace call per element of `calls` (category, label, thread), in
/// order, each applied to the state the previous one left.
pub open spec fn spec_trace_all(
    m: SessionModel,
    calls: Seq<(Seq<char>, Seq<char>, u32)>,
) -> SessionModel
    decreases calls.len(),
{
    if calls.len() == 0 {
        m
    } else {
        spec_trace_all(spec_trace(m, calls[0].0, calls[0].1, calls[0].2).0, calls.drop_first())
    }
}

/// However many trace calls follow a disable, the session is left exactly
/// as the disable left it: nothing is interned and no interval is opened,
/// so nothing new can ever reach the backend.
pub proof fn lemma_disabled_trace_sequence_records_nothing(
    m: SessionModel,
    calls: Seq<(Seq<char>, Seq<char>, u32)>,
)
    requires
        !m.enabled,
    ensures
        spec_trace_all(m, calls) == m,
    decreases calls.len(),
{
    if calls.len() > 0 {
        lemma_disabled_trace_records_nothing(m, calls[0].0, calls[0].1, calls[0].2, arbitrary());
        lemma_disabled_trace_sequence_records_nothing(m, calls.drop_first());
    }
}

/// Enabling takes effect for every subsequently created guard, whatever
/// thread it records: once the session is enabled, a trace call opens
/// exactly one interval carrying the call's category, label and thread, and
/// yields an active guard.
pub proof fn lemma_enable_takes_effect(
    m: SessionModel,
    category: Seq<char>,
    label: Seq<char>,
    thread: u32,
)
    ensures
        ({
            let on = SessionModel { enabled: true, ..m };
            &&& spec_trace(on, category, label, thread).1 == true
            &&& spec_trace(on, category, label, thread).0.opened == m.opened.push(
                EventTag { category, label, thread },
            )
            &&& spec_trace(on, category, label, thread).0.closed == m.closed
        }),
{
}

/// The event identity is a pure function of label content: two labels with
/// equal content derive equal identities, whatever the order of the two
/// calls, whatever was interned on any session meanwhile, and on whatever
/// thread — neither session state nor thread identity is a parameter of
/// the derivation.
pub proof fn lemma_event_identity_pure(l1: Seq<char>, l2: Seq<char>)
    requires
        l1 == l2,
    ensures
        spec_event_identity(l1) == spec_event_identity(l2),
{
}

} // verus!
