//! Runtime facade over a host's failure-unwinding primitives.
//!
//! The facade answers one question — is the current thread unwinding because
//! of a failure? — and lets an embedding application intercept a failure,
//! carry its payload across a foreign boundary, and re-raise it.  Which
//! backing mechanism answers is chosen by a [`Strategy`] held in an explicit
//! [`Config`], and a runtime-installed callback can override the default
//! query behaviour without recompiling.
//!
//! The facade itself performs no unwinding: raising, catching and resuming
//! are the embedding runtime's work.  The library decides, with a proved
//! contract, which answer or which action each configuration calls for, and
//! the embedding performs it.

use vstd::prelude::*;

verus! {

/// The backing mechanism a [`Config`] delegates to when no override is
/// installed.  Exactly one strategy is selected by the embedding build.
#[derive(Clone, Copy, PartialEq, Eq, Debug, Structural)]
pub enum Strategy {
    /// A full host runtime is present: the host's own unwinding query and
    /// catch/resume primitives back every operation.
    HostRuntime,
    /// No host runtime, but the embedding application supplies an external
    /// unwinding-state hook under a fixed symbol name.
    ExternalHook,
    /// Unwinding is replaced by immediate process termination: nothing can
    /// ever be caught, and the query default is constantly false.
    AbortOnly,
}

/// The query answer a strategy gives on its own, with no override installed.
///
/// `ambient` is the report of the strategy's environment: the host runtime's
/// own unwinding query under [`Strategy::HostRuntime`], the external hook's
/// answer under [`Strategy::ExternalHook`].  Under [`Strategy::AbortOnly`]
/// no unwind can ever be in flight, so the answer is false whatever
/// `ambient` is.
pub open spec fn strategy_query_default(s: Strategy, ambient: bool) -> bool {
    match s {
        Strategy::HostRuntime => ambient,
        Strategy::ExternalHook => ambient,
        Strategy::AbortOnly => false,
    }
}

/// A process-wide configuration: the compiled-in strategy and the two
/// runtime-overridable callback slots.
///
/// A slot holds either no function (fall through to the strategy default) or
/// exactly one function; it starts empty and is replaced whole by the
/// registration operations, so a reader never observes a partial function
/// reference.
pub struct Config<Q, R> {
    strategy: Strategy,
    query_override: Option<Q>,
    raise_override: Option<R>,
}

impl<Q: Fn() -> bool, R> Config<Q, R> {
    /// The strategy this configuration delegates to.
    pub closed spec fn spec_strategy(self) -> Strategy {
        self.strategy
    }

    /// The function installed in the query slot, if any.
    pub closed spec fn spec_query_override(self) -> Option<Q> {
        self.query_override
    }

    /// The function installed in the raise slot, if any.
    pub closed spec fn spec_raise_override(self) -> Option<R> {
        self.raise_override
    }

    /// A query override, once installed, must be callable at any moment and
    /// from any context: the query operation is infallible.
    pub open spec fn wf(self) -> bool {
        self.spec_query_override() matches Some(q) ==> call_requires(q, ())
    }

    /// A fresh configuration for the given strategy, with both callback
    /// slots empty, as they are at process start.
    pub fn new(strategy: Strategy) -> (c: Self)
        ensures
            c.spec_strategy() == strategy,
            c.spec_query_override() is None,
            c.spec_raise_override() is None,
            c.wf(),
    {
        Config { strategy, query_override: None, raise_override: None }
    }

    /// Installs `q` in the query slot, replacing whatever was there: the
    /// last writer wins, and every later query consults `q` first.
    ///
    /// The predicate must be total — the query operation may run inside a
    /// failure handler and must not itself be able to fail.
    pub fn set_panicking_callback(&mut self, q: Q)
        requires
            call_requires(q, ()),
        ensures
            final(self).spec_query_override() == Some(q),
            final(self).spec_strategy() == old(self).spec_strategy(),
            final(self).spec_raise_override() == old(self).spec_raise_override(),
            final(self).wf(),
    {
        self.query_override = Some(q);
    }

    /// Installs `r` in the raise slot, replacing whatever was there.  The
    /// slot is consulted by the embedding runtime before its default raise
    /// behaviour when a failure is raised through this facade.
    pub fn set_panic_callback(&mut self, r: R)
        ensures
            final(self).spec_raise_override() == Some(r),
            final(self).spec_strategy() == old(self).spec_strategy(),
            final(self).spec_query_override() == old(self).spec_query_override(),
    {
        self.raise_override = Some(r);
    }

    /// The strategy, readable at run time.
    pub fn strategy(&self) -> (s: Strategy)
        ensures
            s == self.spec_strategy(),
    {
        self.strategy
    }

    /// Whether a query override is installed.
    pub fn has_query_override(&self) -> (b: bool)
        ensures
            b == self.spec_query_override() is Some,
    {
        self.query_override.is_some()
    }

    /// Whether a raise override is installed.
    pub fn has_raise_override(&self) -> (b: bool)
        ensures
            b == self.spec_raise_override() is Some,
    {
        self.raise_override.is_some()
    }
}

/// What the query operation is allowed to answer: an installed override
/// fully governs the result; otherwise the strategy default does.
pub open spec fn query_outcome<Q: Fn() -> bool, R>(
    c: Config<Q, R>,
    ambient: bool,
    r: bool,
) -> bool {
    match c.spec_query_override() {
        Some(q) => call_ensures(q, (), r),
        None => r == strategy_query_default(c.spec_strategy(), ambient),
    }
}

/// Determines whether the current thread is unwinding because of a failure.
///
/// Dispatch order: an override installed in the query slot is consulted
/// first and its answer returned; with no override, the strategy default
/// answers.  `ambient` is the environment's own report (see
/// [`strategy_query_default`]); the embedding runtime obtains it from the
/// host runtime or the external hook and is the only caller that needs to.
///
/// The operation is infallible and has no side effect.
pub fn panicking<Q: Fn() -> bool, R>(c: &Config<Q, R>, ambient: bool) -> (r: bool)
    requires
        c.wf(),
    ensures
        query_outcome(*c, ambient, r),
{
    match &c.query_override {
        Some(q) => q(),
        None => match c.strategy {
            Strategy::HostRuntime => ambient,
            Strategy::ExternalHook => ambient,
            Strategy::AbortOnly => false,
        },
    }
}

/// A failure payload: the value a failure carried at the moment its unwind
/// was intercepted, held in its raw pointer-sized representation.
///
/// A payload cannot be fabricated by the facade itself: it is produced at an
/// interception boundary (the embedding runtime converts the host's typed
/// payload into its raw representation and rebuilds it with
/// [`Error::from_raw`]), carried through, and consumed exactly once by the
/// re-raise operation — or dropped if the holder decides not to re-raise.
#[derive(PartialEq, Eq, Structural, Debug)]
pub struct Error {
    raw: usize,
}

impl View for Error {
    type V = usize;

    /// A payload is modelled by its raw representation alone: the facade
    /// never looks inside the value the failure carried.
    closed spec fn view(&self) -> usize {
        self.raw
    }
}

impl Error {
    /// Converts a payload into its foreign-call-safe representation: a
    /// pointer-sized integer that a plain calling-convention frame can
    /// carry.  The result can be converted back with [`Error::from_raw`].
    pub fn into_raw(self) -> (r: usize)
        ensures
            r == self@,
    {
        error_into_raw(self)
    }

    /// Rebuilds a payload from its foreign-call-safe representation.
    ///
    /// The integer must have been obtained from [`Error::into_raw`] on a
    /// live payload (or from the embedding runtime's own conversion of a
    /// freshly intercepted payload) and must be converted back at most once;
    /// this is the caller's obligation, not checked here.
    pub fn from_raw(raw: usize) -> (e: Self)
        ensures
            e@ == raw,
    {
        error_from_raw(raw)
    }
}

/// Converts a payload into its foreign-call-safe representation; see
/// [`Error::into_raw`].
pub fn error_into_raw(e: Error) -> (r: usize)
    ensures
        r == e@,
{
    e.raw
}

/// Rebuilds a payload from its foreign-call-safe representation; see
/// [`Error::from_raw`] for the caller's obligation.
pub fn error_from_raw(raw: usize) -> (e: Error)
    ensures
        e@ == raw,
{
    Error { raw }
}

/// Converting a payload to its raw representation and back yields the
/// original payload: the round trip loses nothing.  This is the only defined
/// use of the conversion pair.
pub proof fn lemma_raw_round_trip(e: Error, raw: usize, rebuilt: Error)
    requires
        raw == e@,
        rebuilt@ == raw,
    ensures
        rebuilt == e,
{
}

/// How the intercept operation behaves under a strategy.
#[derive(Clone, Copy, PartialEq, Eq, Debug, Structural)]
pub enum InterceptSupport {
    /// The host runtime can halt a failure's propagation at the intercept
    /// boundary and hand its payload back as a value.
    Captures,
    /// A failure terminates the process before the intercept boundary could
    /// see it, so intercepting always reports success.
    AlwaysSucceeds,
    /// No catch capability is declared at all: the operation is absent from
    /// this configuration's surface.
    Unavailable,
}

/// The intercept behaviour each strategy declares.
pub open spec fn strategy_intercept_support(s: Strategy) -> InterceptSupport {
    match s {
        Strategy::HostRuntime => InterceptSupport::Captures,
        Strategy::ExternalHook => InterceptSupport::Unavailable,
        Strategy::AbortOnly => InterceptSupport::AlwaysSucceeds,
    }
}

/// Reports how the intercept operation behaves under `s`, so that the
/// embedding runtime can route a unit of work either through the host's
/// capture primitive or straight to execution.
pub fn intercept_support(s: Strategy) -> (r: InterceptSupport)
    ensures
        r == strategy_intercept_support(s),
{
    match s {
        Strategy::HostRuntime => InterceptSupport::Captures,
        Strategy::ExternalHook => InterceptSupport::Unavailable,
        Strategy::AbortOnly => InterceptSupport::AlwaysSucceeds,
    }
}

/// Runs a unit of work to completion on the current thread and returns its
/// result as success.
///
/// Work that meets its own precondition cannot raise a failure here, so the
/// failure arm of the result is never produced: this is the intercept
/// operation as every no-capture configuration has it, and as the capturing
/// configuration has it for work that does not fail.  Interception of work
/// that can actually raise is the embedding runtime's (see
/// [`intercept_support`]): only the host runtime's capture primitive can
/// halt a propagating failure, and it hands the payload back through
/// [`Error::from_raw`].
///
/// The work must be safe to resume from if a surrounding boundary later
/// intercepts an unwind mid-run — a caller obligation, not enforced here.
pub fn intercept<T, F: FnOnce() -> T>(f: F) -> (r: Result<T, Error>)
    requires
        call_requires(f, ()),
    ensures
        r matches Ok(t) && call_ensures(f, (), t),
{
    Ok(f())
}

/// What the embedding runtime must do to re-raise a captured failure.
#[derive(Clone, Copy, PartialEq, Eq, Debug, Structural)]
pub enum ReraiseAction {
    /// Rebuild the host runtime's typed payload from the raw representation
    /// and hand it to the host's resume primitive, which re-triggers
    /// propagation without invoking the first-raise reporting hook.
    HostResume(usize),
    /// Raise through the embedding application's external hook, carrying the
    /// raw representation.
    ExternalRaise(usize),
    /// Nothing can propagate under this configuration: terminate the
    /// process, as any raise does when unwinding is replaced by termination.
    Terminate,
}

/// The re-raise action each strategy calls for, given a payload's raw
/// representation.
pub open spec fn strategy_reraise_action(s: Strategy, raw: usize) -> ReraiseAction {
    match s {
        Strategy::HostRuntime => ReraiseAction::HostResume(raw),
        Strategy::ExternalHook => ReraiseAction::ExternalRaise(raw),
        Strategy::AbortOnly => ReraiseAction::Terminate,
    }
}

/// Consumes a previously captured payload and decides how the failure is to
/// continue propagating, carrying that exact payload.
///
/// The action never invokes a failure-reporting hook — re-raising continues
/// an old failure rather than reporting a new one — and in particular the
/// raise-override slot is not consulted.  The embedding runtime performs the
/// returned action; under every strategy the action ends the current flow of
/// control, so re-raising never returns normally to the frame that asked.
pub fn resume_unwind<Q: Fn() -> bool, R>(c: &Config<Q, R>, payload: Error) -> (a: ReraiseAction)
    ensures
        a == strategy_reraise_action(c.spec_strategy(), payload@),
{
    let raw = payload.into_raw();
    match c.strategy() {
        Strategy::HostRuntime => ReraiseAction::HostResume(raw),
        Strategy::ExternalHook => ReraiseAction::ExternalRaise(raw),
        Strategy::AbortOnly => ReraiseAction::Terminate,
    }
}

/// Re-raising carries the captured payload exactly: under every strategy
/// that can propagate a failure at all, the chosen action holds the
/// payload's raw representation unchanged, so a boundary that intercepts
/// the re-raised failure recovers the same payload content.
pub proof fn lemma_reraise_carries_payload(s: Strategy, raw: usize)
    requires
        s != Strategy::AbortOnly,
    ensures
        strategy_reraise_action(s, raw) == ReraiseAction::HostResume(raw)
            || strategy_reraise_action(s, raw) == ReraiseAction::ExternalRaise(raw),
{
}

/// With no override registered and the environment not unwinding — the state
/// of every configuration immediately after process start — the query
/// reports false.
pub proof fn lemma_fresh_query_reports_false<Q: Fn() -> bool, R>(
    c: Config<Q, R>,
    r: bool,
)
    requires
        c.spec_query_override() is None,
        query_outcome(c, false, r),
    ensures
        !r,
{
}

/// An installed query override fully governs the query: every answer the
/// query can give is an answer the override can give.  In particular, after
/// a predicate that always answers true is registered, every query answers
/// true, whatever the actual failure state.
pub proof fn lemma_override_governs_query<Q: Fn() -> bool, R>(
    c: Config<Q, R>,
    q: Q,
    ambient: bool,
    r: bool,
)
    requires
        c.spec_query_override() == Some(q),
        query_outcome(c, ambient, r),
    ensures
        call_ensures(q, (), r),
        (forall|b: bool| call_ensures(q, (), b) ==> b) ==> r,
{
}

} // verus!
