//! The timeout middleware: wraps a handler and races the delegate's
//! completion against a fixed-duration timer, yielding an `Elapsed` error if
//! the timer fires first.

use vstd::prelude::*;
use vstd::string::StringExecFns;

use crate::handler::{Completion, Handler, is_settled, res_view, sat_add_u64};
use crate::message::{Request, Response, RequestView, ResponseView};
use crate::sink::{LogRecord, LogView, lemma_log_views_add_empty};

verus! {

/// The terminal timeout error: the timer fired before the inner completion
/// resolved. Carries no payload beyond its fixed human-readable message.
#[derive(Debug, Clone, Copy, PartialEq, Eq, Structural)]
pub struct Elapsed;

/// The text of the fixed timeout message.
pub open spec fn elapsed_message() -> Seq<char> {
    "request timed out"@
}

impl Elapsed {
    /// The fixed human-readable description of the error.
    pub fn message(&self) -> (r: String)
        ensures
            r@ == elapsed_message(),
    {
        String::from_str("request timed out")
    }
}

/// Wraps one inner handler plus a fixed tick duration; a call races the
/// delegate's completion against a timer that fires `timeout` ticks after the
/// call.
#[derive(Clone, Copy)]
pub struct Timeout<S> {
    pub inner: S,
    pub timeout: u64,
}

impl<S> Timeout<S> {
    /// Wraps `inner` in a timeout layer with the given tick duration.
    pub fn new(inner: S, timeout: u64) -> (r: Self)
        ensures
            r.inner == inner,
            r.timeout == timeout,
    {
        Self { inner, timeout }
    }
}

/// The completion object of a timeout call: owns the inner completion object
/// and the timer, here its absolute deadline. On every drive step the inner
/// object is checked strictly before the timer, so an inner result that is
/// ready at the same step wins the race.
pub struct TimeoutFuture<F> {
    pub future: F,
    pub deadline: u64,
    pub timed_out: bool,
}

impl<F: Completion> Completion for TimeoutFuture<F> {
    open spec fn wf(&self) -> bool {
        &&& self.future.wf()
        &&& self.future.resolved() ==> exists|out: Result<ResponseView, Elapsed>|
            is_settled(self.future, out)
    }

    open spec fn resolved(&self) -> bool {
        self.timed_out || self.future.resolved()
    }

    open spec fn outcome_at(&self, t: int) -> Option<Result<ResponseView, Elapsed>> {
        if self.timed_out {
            Some(Err(Elapsed))
        } else if self.future.outcome_at(t) is Some {
            self.future.outcome_at(t)
        } else if t >= self.deadline as int {
            Some(Err(Elapsed))
        } else {
            None
        }
    }

    open spec fn emitted_at(&self, t: int) -> Seq<LogView> {
        if self.timed_out {
            Seq::<LogView>::empty()
        } else if self.future.outcome_at(t) is Some {
            self.future.emitted_at(t)
        } else {
            Seq::<LogView>::empty()
        }
    }

    fn poll(&mut self, now: u64, log: &mut Vec<LogRecord>) -> (r: Option<
        Result<Response, Elapsed>,
    >) {
        if self.timed_out {
            proof {
                lemma_log_views_add_empty(log@);
            }
            return Some(Err(Elapsed));
        }
        let ghost pre_self = *self;
        let r = self.future.poll(now, log);
        match r {
            Some(res) => {
                proof {
                    assert(is_settled(self.future, res_view(res)));
                }
                Some(res)
            },
            None => {
                if now >= self.deadline {
                    self.timed_out = true;
                    proof {
                        lemma_log_views_add_empty(log@);
                    }
                    Some(Err(Elapsed))
                } else {
                    proof {
                        assert(*self == pre_self);
                    }
                    None
                }
            },
        }
    }
}

impl<S: Handler> Handler for Timeout<S> {
    type Fut = TimeoutFuture<S::Fut>;

    open spec fn wf(&self) -> bool {
        self.inner.wf()
    }

    open spec fn ready(&self) -> bool {
        self.inner.ready()
    }

    open spec fn call_logs(&self, req: RequestView) -> Seq<LogView> {
        self.inner.call_logs(req)
    }

    open spec fn fut_outcome(&self, req: RequestView, start: int, t: int) -> Option<
        Result<ResponseView, Elapsed>,
    > {
        if self.inner.fut_outcome(req, start, t) is Some {
            self.inner.fut_outcome(req, start, t)
        } else if t >= sat_add_u64(start, self.timeout as int) {
            Some(Err(Elapsed))
        } else {
            None
        }
    }

    open spec fn fut_emitted(&self, req: RequestView, start: int, t: int) -> Seq<LogView> {
        if self.inner.fut_outcome(req, start, t) is Some {
            self.inner.fut_emitted(req, start, t)
        } else {
            Seq::<LogView>::empty()
        }
    }

    fn poll_ready(&mut self) -> (r: bool) {
        self.inner.poll_ready()
    }

    fn call(&mut self, req: Request, now: u64, log: &mut Vec<LogRecord>) -> (f: Self::Fut) {
        let future = self.inner.call(req, now, log);
        let deadline: u64 = if now <= u64::MAX - self.timeout {
            now + self.timeout
        } else {
            u64::MAX
        };
        TimeoutFuture { future, deadline, timed_out: false }
    }
}

/// The timeout race, observed at time `t` for a call made at `start` with
/// timer duration `timeout`: an inner result that is available is propagated
/// unchanged — even when the timer has also elapsed, since the inner object
/// is checked strictly before the timer on every drive step; only when the
/// inner object is still pending does an elapsed timer yield `Elapsed`;
/// before the deadline a pending inner object leaves the layer pending.
pub proof fn timeout_race_law<S: Handler>(svc: Timeout<S>, req: RequestView, start: int, t: int)
    ensures
        svc.inner.fut_outcome(req, start, t) is Some ==> svc.fut_outcome(req, start, t)
            == svc.inner.fut_outcome(req, start, t),
        svc.inner.fut_outcome(req, start, t) is None && t >= sat_add_u64(
            start,
            svc.timeout as int,
        ) ==> svc.fut_outcome(req, start, t) == Some(Err::<ResponseView, Elapsed>(Elapsed)),
        svc.inner.fut_outcome(req, start, t) is None && t < sat_add_u64(
            start,
            svc.timeout as int,
        ) ==> svc.fut_outcome(req, start, t) is None,
{
}

/// An inner handler that resolves strictly faster than the timer never sees
/// the timer fire: no observation of the layer can ever be the `Elapsed`
/// error.
pub proof fn fast_handler_never_times_out(
    svc: Timeout<crate::hello_world::SlowHello>,
    req: RequestView,
    start: int,
    t: int,
)
    requires
        (svc.inner.delay as int) < svc.timeout as int,
        start + svc.timeout <= u64::MAX as int,
    ensures
        svc.fut_outcome(req, start, t) != Some(Err::<ResponseView, Elapsed>(Elapsed)),
{
}

} // verus!
