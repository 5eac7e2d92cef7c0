//! The logging middleware: wraps one inner handler, emits a `request` record
//! before delegating, times the delegate, and emits a `response` record with
//! the elapsed tick count at the poll that observes completion. The result is
//! propagated unchanged; this layer cannot fail on its own.

use vstd::prelude::*;

use crate::handler::{Completion, Handler, elapsed_at, is_settled, res_view};
use crate::message::{Request, Response, RequestView, ResponseView};
use crate::sink::{LogRecord, LogView, lemma_log_views_add_empty, lemma_log_views_push, log_views};
use crate::timeout::Elapsed;

verus! {

/// Wraps one inner handler and logs each request and its completion.
#[derive(Clone, Copy)]
pub struct LoggingService<S> {
    pub inner: S,
}

impl<S> LoggingService<S> {
    /// Wraps `inner` in the logging layer.
    pub fn new(inner: S) -> (r: Self)
        ensures
            r.inner == inner,
    {
        Self { inner }
    }
}

/// The completion object of a logging call: owns the inner completion object,
/// the recorded start time, and the method and path snapshot for the
/// `response` record.
pub struct LoggingFuture<F> {
    pub future: F,
    pub start: u64,
    pub method: String,
    pub path: String,
    pub done: bool,
}

impl<F: Completion> LoggingFuture<F> {
    /// The `response` record this completion emits when it observes the
    /// inner result at time `t`.
    pub open spec fn response_record(&self, t: int) -> LogView {
        LogView::Response {
            method: self.method@,
            path: self.path@,
            elapsed: elapsed_at(self.start as int, t),
        }
    }
}

impl<F: Completion> Completion for LoggingFuture<F> {
    open spec fn wf(&self) -> bool {
        &&& self.future.wf()
        &&& self.done == self.future.resolved()
        &&& self.future.resolved() ==> exists|out: Result<ResponseView, Elapsed>|
            is_settled(self.future, out)
    }

    open spec fn resolved(&self) -> bool {
        self.done
    }

    open spec fn outcome_at(&self, t: int) -> Option<Result<ResponseView, Elapsed>> {
        self.future.outcome_at(t)
    }

    open spec fn emitted_at(&self, t: int) -> Seq<LogView> {
        if self.done {
            Seq::<LogView>::empty()
        } else if self.future.outcome_at(t) is Some {
            self.future.emitted_at(t).push(self.response_record(t))
        } else {
            Seq::<LogView>::empty()
        }
    }

    fn poll(&mut self, now: u64, log: &mut Vec<LogRecord>) -> (r: Option<
        Result<Response, Elapsed>,
    >) {
        let ghost pre_self = *self;
        let ghost log1 = log@;
        let r = self.future.poll(now, log);
        match r {
            None => {
                proof {
                    assert(*self == pre_self);
                }
                None
            },
            Some(res) => {
                if !self.done {
                    let elapsed: u64 = if now >= self.start {
                        now - self.start
                    } else {
                        0
                    };
                    let method = self.method.clone();
                    let path = self.path.clone();
                    let ghost log2 = log@;
                    log.push(LogRecord::Response { method, path, elapsed });
                    proof {
                        lemma_log_views_push(log2, LogRecord::Response { method, path, elapsed });
                        assert(log_views(log@) == log_views(log1) + pre_self.emitted_at(
                            now as int,
                        )) by {
                            assert(log_views(log2).push(pre_self.response_record(now as int))
                                == (log_views(log1) + pre_self.future.emitted_at(now as int)).push(
                                pre_self.response_record(now as int)));
                            assert((log_views(log1) + pre_self.future.emitted_at(now as int)).push(
                                pre_self.response_record(now as int)) =~= log_views(log1)
                                + pre_self.emitted_at(now as int));
                        }
                    }
                    self.done = true;
                    proof {
                        assert(is_settled(self.future, res_view(res)));
                    }
                } else {
                    proof {
                        let out = choose|out: Result<ResponseView, Elapsed>|
                            is_settled(pre_self.future, out);
                        assert(pre_self.future.emitted_at(now as int) == Seq::<LogView>::empty());
                        lemma_log_views_add_empty(log1);
                        assert(is_settled(self.future, res_view(res)));
                    }
                }
                Some(res)
            },
        }
    }
}

impl<S: Handler> Handler for LoggingService<S> {
    type Fut = LoggingFuture<S::Fut>;

    open spec fn wf(&self) -> bool {
        self.inner.wf()
    }

    open spec fn ready(&self) -> bool {
        self.inner.ready()
    }

    open spec fn call_logs(&self, req: RequestView) -> Seq<LogView> {
        seq![LogView::Request { method: req.method, path: req.path }] + self.inner.call_logs(req)
    }

    open spec fn fut_outcome(&self, req: RequestView, start: int, t: int) -> Option<
        Result<ResponseView, Elapsed>,
    > {
        self.inner.fut_outcome(req, start, t)
    }

    open spec fn fut_emitted(&self, req: RequestView, start: int, t: int) -> Seq<LogView> {
        if self.inner.fut_outcome(req, start, t) is Some {
            self.inner.fut_emitted(req, start, t).push(
                LogView::Response {
                    method: req.method,
                    path: req.path,
                    elapsed: elapsed_at(start, t),
                },
            )
        } else {
            Seq::<LogView>::empty()
        }
    }

    fn poll_ready(&mut self) -> (r: bool) {
        self.inner.poll_ready()
    }

    fn call(&mut self, req: Request, now: u64, log: &mut Vec<LogRecord>) -> (f: Self::Fut) {
        let method = req.method.clone();
        let path = req.path.clone();
        let record_method = req.method.clone();
        let record_path = req.path.clone();
        let ghost log0 = log@;
        log.push(LogRecord::Request { method: record_method, path: record_path });
        proof {
            lemma_log_views_push(log0, LogRecord::Request { method: record_method, path: record_path });
        }
        let ghost log1 = log@;
        let future = self.inner.call(req, now, log);
        proof {
            assert(log_views(log@) == log_views(log0) + self.call_logs(req@)) by {
                assert(log_views(log@) == log_views(log0).push(
                    LogView::Request { method: req.method@, path: req.path@ },
                ) + self.inner.call_logs(req@));
                assert(log_views(log0).push(
                    LogView::Request { method: req.method@, path: req.path@ },
                ) + self.inner.call_logs(req@) =~= log_views(log0) + self.call_logs(req@));
            }
        }
        LoggingFuture { future, start: now, method, path, done: false }
    }
}

/// The logging layer's emission discipline: a call emits exactly one
/// `request` record, before anything the inner layer logs; and exactly one
/// `response` record is emitted if and only if the request completes, after
/// everything the inner layer emits at that step. Both records carry the
/// method and path of the original request, and the result itself is
/// propagated unchanged.
pub proof fn logging_emission_law<S: Handler>(
    svc: LoggingService<S>,
    req: RequestView,
    start: int,
    t: int,
)
    ensures
        svc.call_logs(req) == seq![LogView::Request { method: req.method, path: req.path }]
            + svc.inner.call_logs(req),
        svc.fut_outcome(req, start, t) == svc.inner.fut_outcome(req, start, t),
        svc.fut_outcome(req, start, t) is Some ==> svc.fut_emitted(req, start, t)
            == svc.inner.fut_emitted(req, start, t).push(
            LogView::Response { method: req.method, path: req.path, elapsed: elapsed_at(start, t) },
        ),
        svc.fut_outcome(req, start, t) is None ==> svc.fut_emitted(req, start, t)
            == Seq::<LogView>::empty(),
{
}

/// The elapsed count in a `response` record is never negative, and whenever
/// the observation happens no earlier than the start it is exactly the
/// observation time minus the start — so it is at least the time the inner
/// handler actually took, the inner result having become available no later
/// than the poll that observes it.
pub proof fn logged_elapsed_nonnegative(start: int, t: int)
    ensures
        elapsed_at(start, t) >= 0,
        t >= start ==> elapsed_at(start, t) == t - start,
{
}

/// Instantiated lower bound: over an inner handler that suspends for `delay`
/// ticks, any elapsed count the logging layer can record is at least that
/// delay.
pub proof fn logged_elapsed_covers_sleep(
    svc: LoggingService<crate::hello_world::SlowHello>,
    req: RequestView,
    start: int,
    t: int,
)
    requires
        svc.fut_outcome(req, start, t) is Some,
        start + svc.inner.delay <= u64::MAX as int,
    ensures
        elapsed_at(start, t) >= svc.inner.delay,
{
}

} // verus!
