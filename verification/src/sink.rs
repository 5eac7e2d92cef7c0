//! The log sink: the records the middleware emit. The sink is an injected
//! capability — a vector the driver owns and hands to each `call` and `poll`
//! step — so every emission is part of the verified result rather than hidden
//! global state. Rendering a record as a text line is the driver's business.

use vstd::prelude::*;

verus! {

/// One emitted log record: either the pre-call `request` line or the
/// post-completion `response` line with the elapsed tick count.
pub enum LogRecord {
    Request { method: String, path: String },
    Response { method: String, path: String, elapsed: u64 },
}

/// The mathematical value of a `LogRecord`.
pub ghost enum LogView {
    Request { method: Seq<char>, path: Seq<char> },
    Response { method: Seq<char>, path: Seq<char>, elapsed: int },
}

impl View for LogRecord {
    type V = LogView;

    open spec fn view(&self) -> LogView {
        match self {
            LogRecord::Request { method, path } => LogView::Request {
                method: method@,
                path: path@,
            },
            LogRecord::Response { method, path, elapsed } => LogView::Response {
                method: method@,
                path: path@,
                elapsed: *elapsed as int,
            },
        }
    }
}

/// The values of a whole sink, oldest record first.
pub open spec fn log_views(s: Seq<LogRecord>) -> Seq<LogView> {
    s.map_values(|r: LogRecord| r@)
}

/// Appending one record to the sink appends its value to the sink's values.
pub proof fn lemma_log_views_push(s: Seq<LogRecord>, x: LogRecord)
    ensures
        log_views(s.push(x)) == log_views(s).push(x@),
{
    assert(log_views(s.push(x)) =~= log_views(s).push(x@));
}

/// A sink is unchanged by appending no records.
pub proof fn lemma_log_views_add_empty(s: Seq<LogRecord>)
    ensures
        log_views(s) + Seq::<LogView>::empty() == log_views(s),
{
    assert(log_views(s) + Seq::<LogView>::empty() =~= log_views(s));
}

} // verus!
