//! The handler capability: the polymorphic contract every layer and the
//! terminal handler implement, and the contract of the completion objects
//! their calls produce.
//!
//! A handler's `call` consumes a request and immediately returns a completion
//! object; the work happens as the caller drives that object with `poll`.
//! Time is an explicit tick count the driver supplies, and log emissions go
//! to an explicit sink, so a layer's whole observable behaviour is pinned by
//! the spec functions below: what `call` logs at once (`call_logs`), what the
//! produced completion yields when polled at a given time (`fut_outcome`),
//! and what it logs at the poll that observes completion (`fut_emitted`).

use vstd::prelude::*;

use crate::message::{Request, Response, RequestView, ResponseView};
use crate::sink::{LogRecord, LogView, log_views};
use crate::timeout::Elapsed;

verus! {

/// The value of a final result: the response's value, or the error unchanged.
pub open spec fn res_view(r: Result<Response, Elapsed>) -> Result<ResponseView, Elapsed> {
    match r {
        Ok(resp) => Ok(resp@),
        Err(e) => Err(e),
    }
}

/// Ticks elapsed from `start` to `t`, clamped below at zero.
pub open spec fn elapsed_at(start: int, t: int) -> int {
    if t >= start {
        t - start
    } else {
        0
    }
}

/// Addition on tick counts, saturating at the largest representable tick.
pub open spec fn sat_add_u64(a: int, b: int) -> int {
    if a + b <= u64::MAX as int {
        a + b
    } else {
        u64::MAX as int
    }
}

/// A completion object that has yielded the final result `out` and is now
/// retired: every further poll yields `out` again, whatever the time, and
/// nothing further is ever emitted.
pub open spec fn is_settled<C: Completion>(c: C, out: Result<ResponseView, Elapsed>) -> bool {
    &&& c.resolved()
    &&& forall|t: int| #[trigger] c.outcome_at(t) == Some(out)
    &&& forall|t: int| #[trigger] c.emitted_at(t) == Seq::<LogView>::empty()
}

/// The value representing an in-flight call, driven by repeated `poll` steps
/// until it yields a final result.
pub trait Completion: Sized {
    /// Internal invariant, established by the `call` that produces the
    /// object and preserved by every poll.
    spec fn wf(&self) -> bool;

    /// Whether the object has already yielded a final result.
    spec fn resolved(&self) -> bool;

    /// What a poll at time `t` would yield: `None` while not yet complete,
    /// otherwise the single final result.
    spec fn outcome_at(&self, t: int) -> Option<Result<ResponseView, Elapsed>>;

    /// The log records a poll at time `t` would append, when that poll is
    /// the one that observes completion.
    spec fn emitted_at(&self, t: int) -> Seq<LogView>;

    /// One drive step at time `now`. A step that reports "not yet complete"
    /// changes nothing and emits nothing; the step that observes completion
    /// appends exactly `emitted_at(now)` to the sink and retires the object,
    /// so no later poll can yield a second distinct result.
    fn poll(&mut self, now: u64, log: &mut Vec<LogRecord>) -> (r: Option<
        Result<Response, Elapsed>,
    >)
        requires
            old(self).wf(),
        ensures
            final(self).wf(),
            r is None ==> {
                &&& !old(self).resolved()
                &&& old(self).outcome_at(now as int) is None
                &&& *final(self) == *old(self)
                &&& final(log)@ == old(log)@
            },
            r matches Some(res) ==> {
                &&& old(self).outcome_at(now as int) == Some(res_view(res))
                &&& log_views(final(log)@) == log_views(old(log)@) + old(self).emitted_at(
                    now as int,
                )
                &&& final(self).resolved()
                &&& forall|t: int| #[trigger] final(self).outcome_at(t) == Some(res_view(res))
                &&& forall|t: int|
                    #[trigger] final(self).emitted_at(t) == Seq::<LogView>::empty()
            },
    ;
}

/// The handler capability: a readiness check and a `call` that accepts
/// ownership of a request and immediately returns a completion object.
/// A handler holds no per-request state — `call` leaves it unchanged — so one
/// instance can serve call after call, each through its own completion.
pub trait Handler: Sized {
    /// The completion objects this handler's calls produce.
    type Fut: Completion;

    /// Internal invariant of the handler value.
    spec fn wf(&self) -> bool;

    /// Whether the handler can currently accept a call.
    spec fn ready(&self) -> bool;

    /// The log records `call` itself appends, before any work is driven.
    spec fn call_logs(&self, req: RequestView) -> Seq<LogView>;

    /// What a completion produced by `call` at time `start` yields when
    /// polled at time `t`.
    spec fn fut_outcome(&self, req: RequestView, start: int, t: int) -> Option<
        Result<ResponseView, Elapsed>,
    >;

    /// What that completion emits at the poll that observes completion.
    spec fn fut_emitted(&self, req: RequestView, start: int, t: int) -> Seq<LogView>;

    /// Reports whether the handler can currently accept a call; constant
    /// time and non-blocking.
    fn poll_ready(&mut self) -> (r: bool)
        requires
            old(self).wf(),
        ensures
            *final(self) == *old(self),
            r == old(self).ready(),
    ;

    /// Accepts ownership of `req` at time `now` and returns the value
    /// representing the in-flight operation. Must not block: the actual work
    /// happens as the returned object is driven by the caller.
    fn call(&mut self, req: Request, now: u64, log: &mut Vec<LogRecord>) -> (f: Self::Fut)
        requires
            old(self).wf(),
        ensures
            *final(self) == *old(self),
            f.wf(),
            !f.resolved(),
            log_views(final(log)@) == log_views(old(log)@) + old(self).call_logs(req@),
            forall|t: int| #[trigger] f.outcome_at(t) == old(self).fut_outcome(
                req@,
                now as int,
                t,
            ),
            forall|t: int| #[trigger] f.emitted_at(t) == old(self).fut_emitted(
                req@,
                now as int,
                t,
            ),
    ;
}

/// Drives a completion object through a schedule of poll times, as a
/// cooperative scheduler would, stopping at the first poll that observes
/// completion. Returns that result — the poll at the earliest schedule entry
/// whose observation is complete, with exactly its emissions appended — or
/// `None`, leaving object and sink untouched, when every entry observes a
/// still-pending call.
pub fn drive<C: Completion>(c: &mut C, schedule: &Vec<u64>, log: &mut Vec<LogRecord>) -> (r:
    Option<Result<Response, Elapsed>>)
    requires
        old(c).wf(),
    ensures
        final(c).wf(),
        r is None ==> {
            &&& forall|j: int|
                0 <= j < schedule@.len() ==> #[trigger] old(c).outcome_at(
                    schedule@[j] as int,
                ) is None
            &&& *final(c) == *old(c)
            &&& final(log)@ == old(log)@
        },
        r matches Some(res) ==> exists|i: int|
            {
                &&& 0 <= i < schedule@.len()
                &&& #[trigger] old(c).outcome_at(schedule@[i] as int) == Some(res_view(res))
                &&& forall|j: int| 0 <= j < i ==> old(c).outcome_at(schedule@[j] as int) is None
                &&& log_views(final(log)@) == log_views(old(log)@) + old(c).emitted_at(
                    schedule@[i] as int,
                )
                &&& final(c).resolved()
            },
{
    let n = schedule.len();
    let mut i: usize = 0;
    while i < n
        invariant
            n == schedule@.len(),
            i <= n,
            c.wf(),
            *c == *old(c),
            log@ == old(log)@,
            forall|j: int| 0 <= j < i ==> old(c).outcome_at(schedule@[j] as int) is None,
        decreases n - i,
    {
        let now = schedule[i];
        match c.poll(now, log) {
            Some(res) => {
                return Some(res);
            },
            None => {},
        }
        i = i + 1;
    }
    None
}

/// Once settled, a completion is stable: the outcome observed at any two
/// times is the same single result, and nothing further is emitted.
pub proof fn settled_is_stable<C: Completion>(
    c: C,
    out: Result<ResponseView, Elapsed>,
    t1: int,
    t2: int,
)
    requires
        is_settled(c, out),
    ensures
        c.outcome_at(t1) == c.outcome_at(t2),
        c.outcome_at(t1) == Some(out),
        c.emitted_at(t1) == Seq::<LogView>::empty(),
{
}

} // verus!
