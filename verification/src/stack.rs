//! Laws about the assembled stack: terminal handler, wrapped by the
//! timeout layer, wrapped by the logging layer. This ordering is deliberate:
//! the logging layer observes the post-timeout outcome, so a timed-out call
//! is logged as its `response`, with the elapsed count of the observation —
//! about the timer duration — rather than of the inner handler's own work.

use vstd::prelude::*;

use crate::handler::{Handler, elapsed_at, sat_add_u64};
use crate::hello_world::{HelloWorld, SlowHello};
use crate::logger::LoggingService;
use crate::message::{RequestView, ResponseView, greeting_view};
use crate::sink::LogView;
use crate::timeout::{Elapsed, Timeout};

verus! {

/// A slow inner handler under a shorter timeout, observed between the
/// deadline and the inner handler's own completion: the stack yields the
/// `Elapsed` error, and the logging layer emits exactly one `response` record
/// for it, carrying the elapsed count of the observation.
pub proof fn stack_logs_timeout(
    svc: LoggingService<Timeout<SlowHello>>,
    req: RequestView,
    start: int,
    t: int,
)
    requires
        svc.inner.timeout as int <= svc.inner.inner.delay as int,
        start + svc.inner.inner.delay <= u64::MAX as int,
        sat_add_u64(start, svc.inner.timeout as int) <= t,
        t < start + svc.inner.inner.delay,
    ensures
        svc.fut_outcome(req, start, t) == Some(Err::<ResponseView, Elapsed>(Elapsed)),
        svc.fut_emitted(req, start, t) == seq![
            LogView::Response { method: req.method, path: req.path, elapsed: elapsed_at(start, t) },
        ],
{
    assert(Seq::<LogView>::empty().push(
        LogView::Response { method: req.method, path: req.path, elapsed: elapsed_at(start, t) },
    ) =~= seq![
        LogView::Response { method: req.method, path: req.path, elapsed: elapsed_at(start, t) },
    ]);
}

/// The instant terminal handler under any timeout: the stack always yields
/// the greeting — the timer never decides — and the logging layer emits
/// exactly one `response` record for it.
pub proof fn stack_logs_greeting(
    svc: LoggingService<Timeout<HelloWorld>>,
    req: RequestView,
    start: int,
    t: int,
)
    ensures
        svc.fut_outcome(req, start, t) == Some(Ok::<ResponseView, Elapsed>(greeting_view())),
        svc.fut_emitted(req, start, t) == seq![
            LogView::Response { method: req.method, path: req.path, elapsed: elapsed_at(start, t) },
        ],
{
    assert(Seq::<LogView>::empty().push(
        LogView::Response { method: req.method, path: req.path, elapsed: elapsed_at(start, t) },
    ) =~= seq![
        LogView::Response { method: req.method, path: req.path, elapsed: elapsed_at(start, t) },
    ]);
}

} // verus!
