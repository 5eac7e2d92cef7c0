//! The terminal handler: the innermost handler producing the actual
//! response. It is always ready, never fails, and answers every request with
//! the fixed greeting. A timer-test variant suspends for a fixed number of
//! ticks before answering, to exercise the timeout layer.

use vstd::prelude::*;

use crate::handler::{Completion, Handler, sat_add_u64};
use crate::message::{Request, Response, RequestView, ResponseView, greeting_response,
    greeting_view};
use crate::sink::{LogRecord, LogView, lemma_log_views_add_empty};
use crate::timeout::Elapsed;

verus! {

/// The terminal handler: answers every request with the fixed greeting.
#[derive(Clone, Copy)]
pub struct HelloWorld;

/// The completion object of a `HelloWorld` call: ready at the very first
/// drive step, whatever the time.
pub struct ReadyFuture {
    pub done: bool,
}

impl Completion for ReadyFuture {
    open spec fn wf(&self) -> bool {
        true
    }

    open spec fn resolved(&self) -> bool {
        self.done
    }

    open spec fn outcome_at(&self, t: int) -> Option<Result<ResponseView, Elapsed>> {
        Some(Ok(greeting_view()))
    }

    open spec fn emitted_at(&self, t: int) -> Seq<LogView> {
        Seq::<LogView>::empty()
    }

    fn poll(&mut self, now: u64, log: &mut Vec<LogRecord>) -> (r: Option<
        Result<Response, Elapsed>,
    >) {
        self.done = true;
        let resp = greeting_response();
        proof {
            lemma_log_views_add_empty(log@);
        }
        Some(Ok(resp))
    }
}

impl Handler for HelloWorld {
    type Fut = ReadyFuture;

    open spec fn wf(&self) -> bool {
        true
    }

    open spec fn ready(&self) -> bool {
        true
    }

    open spec fn call_logs(&self, req: RequestView) -> Seq<LogView> {
        Seq::<LogView>::empty()
    }

    open spec fn fut_outcome(&self, req: RequestView, start: int, t: int) -> Option<
        Result<ResponseView, Elapsed>,
    > {
        Some(Ok(greeting_view()))
    }

    open spec fn fut_emitted(&self, req: RequestView, start: int, t: int) -> Seq<LogView> {
        Seq::<LogView>::empty()
    }

    fn poll_ready(&mut self) -> (r: bool) {
        true
    }

    fn call(&mut self, req: Request, now: u64, log: &mut Vec<LogRecord>) -> (f: Self::Fut) {
        proof {
            lemma_log_views_add_empty(log@);
        }
        ReadyFuture { done: false }
    }
}

/// Timer-test variant of the terminal handler: suspends for `delay` ticks
/// before answering with the same fixed greeting. Used to exercise the
/// timeout layer.
#[derive(Clone, Copy)]
pub struct SlowHello {
    pub delay: u64,
}

/// The completion object of a `SlowHello` call: pending until `ready_at`,
/// then the fixed greeting.
pub struct SlowFuture {
    pub ready_at: u64,
    pub done: bool,
}

impl Completion for SlowFuture {
    open spec fn wf(&self) -> bool {
        true
    }

    open spec fn resolved(&self) -> bool {
        self.done
    }

    open spec fn outcome_at(&self, t: int) -> Option<Result<ResponseView, Elapsed>> {
        if self.done || t >= self.ready_at as int {
            Some(Ok(greeting_view()))
        } else {
            None
        }
    }

    open spec fn emitted_at(&self, t: int) -> Seq<LogView> {
        Seq::<LogView>::empty()
    }

    fn poll(&mut self, now: u64, log: &mut Vec<LogRecord>) -> (r: Option<
        Result<Response, Elapsed>,
    >) {
        if self.done || now >= self.ready_at {
            self.done = true;
            let resp = greeting_response();
            proof {
                lemma_log_views_add_empty(log@);
            }
            Some(Ok(resp))
        } else {
            None
        }
    }
}

impl Handler for SlowHello {
    type Fut = SlowFuture;

    open spec fn wf(&self) -> bool {
        true
    }

    open spec fn ready(&self) -> bool {
        true
    }

    open spec fn call_logs(&self, req: RequestView) -> Seq<LogView> {
        Seq::<LogView>::empty()
    }

    open spec fn fut_outcome(&self, req: RequestView, start: int, t: int) -> Option<
        Result<ResponseView, Elapsed>,
    > {
        if t >= sat_add_u64(start, self.delay as int) {
            Some(Ok(greeting_view()))
        } else {
            None
        }
    }

    open spec fn fut_emitted(&self, req: RequestView, start: int, t: int) -> Seq<LogView> {
        Seq::<LogView>::empty()
    }

    fn poll_ready(&mut self) -> (r: bool) {
        true
    }

    fn call(&mut self, req: Request, now: u64, log: &mut Vec<LogRecord>) -> (f: Self::Fut) {
        let ready_at: u64 = if now <= u64::MAX - self.delay {
            now + self.delay
        } else {
            u64::MAX
        };
        proof {
            lemma_log_views_add_empty(log@);
        }
        SlowFuture { ready_at, done: false }
    }
}

/// The terminal handler returns the fixed greeting and never fails: whatever
/// the request, the start time, and the observation time, the outcome is the
/// greeting, and nothing is ever logged by this handler itself.
pub proof fn terminal_always_greets(h: HelloWorld, req: RequestView, start: int, t: int)
    ensures
        h.fut_outcome(req, start, t) == Some(Ok::<ResponseView, Elapsed>(greeting_view())),
        h.call_logs(req) == Seq::<LogView>::empty(),
        h.fut_emitted(req, start, t) == Seq::<LogView>::empty(),
{
}

} // verus!
