use middleware::handler::{Completion, Handler};
use middleware::hello_world::{HelloWorld, SlowHello};
use middleware::logger::LoggingService;
use middleware::message::{Request, Response};
use middleware::sink::LogRecord as Record;
use middleware::timeout::{Elapsed, Timeout};

fn get_root() -> Request {
    Request { method: "GET".to_string(), path: "/".to_string(), body: String::new() }
}

#[test]
fn terminal_returns_greeting() {
    let mut log: Vec<Record> = Vec::new();
    let mut svc = HelloWorld;
    assert!(svc.poll_ready());
    let mut fut = svc.call(get_root(), 0, &mut log);
    let r = fut.poll(0, &mut log);
    match r {
        Some(Ok(Response { status, body })) => {
            assert_eq!(status, 200);
            assert_eq!(body, "Hello, World!");
        }
        _ => panic!("terminal handler must resolve at once with the greeting"),
    }
    assert!(log.is_empty());
}

#[test]
fn logging_emits_request_then_response() {
    let mut log: Vec<Record> = Vec::new();
    let mut svc = LoggingService::new(HelloWorld);
    let mut fut = svc.call(get_root(), 0, &mut log);
    assert_eq!(log.len(), 1);
    match &log[0] {
        Record::Request { method, path } => {
            assert_eq!(method, "GET");
            assert_eq!(path, "/");
        }
        _ => panic!("the first record must be the request line"),
    }
    let r = fut.poll(3, &mut log);
    assert!(matches!(r, Some(Ok(_))));
    assert_eq!(log.len(), 2);
    match &log[1] {
        Record::Response { method, path, elapsed } => {
            assert_eq!(method, "GET");
            assert_eq!(path, "/");
            assert_eq!(*elapsed, 3);
        }
        _ => panic!("the second record must be the response line"),
    }
}

#[test]
fn logging_emits_nothing_while_pending() {
    let mut log: Vec<Record> = Vec::new();
    let mut svc = LoggingService::new(SlowHello { delay: 10 });
    let mut fut = svc.call(get_root(), 0, &mut log);
    assert_eq!(log.len(), 1);
    assert!(fut.poll(4, &mut log).is_none());
    assert!(fut.poll(9, &mut log).is_none());
    assert_eq!(log.len(), 1, "no response line before completion");
}

#[test]
fn timeout_returns_inner_before_deadline() {
    let mut log: Vec<Record> = Vec::new();
    let mut svc = Timeout::new(HelloWorld, 5);
    assert!(svc.poll_ready());
    let mut fut = svc.call(get_root(), 0, &mut log);
    match fut.poll(0, &mut log) {
        Some(Ok(resp)) => assert_eq!(resp.body, "Hello, World!"),
        _ => panic!("an instant inner handler must win the race"),
    }
    assert!(log.is_empty());
}

#[test]
fn timeout_yields_elapsed_after_deadline() {
    let mut log: Vec<Record> = Vec::new();
    let mut svc = Timeout::new(SlowHello { delay: 15 }, 5);
    let mut fut = svc.call(get_root(), 0, &mut log);
    assert!(fut.poll(4, &mut log).is_none());
    match fut.poll(5, &mut log) {
        Some(Err(e)) => assert_eq!(e, Elapsed),
        _ => panic!("the timer must win once the deadline is reached"),
    }
}

#[test]
fn timeout_inner_wins_tie() {
    let mut log: Vec<Record> = Vec::new();
    let mut svc = Timeout::new(SlowHello { delay: 5 }, 5);
    let mut fut = svc.call(get_root(), 0, &mut log);
    match fut.poll(5, &mut log) {
        Some(Ok(resp)) => assert_eq!(resp.status, 200),
        _ => panic!("an inner result ready at the deadline must win the tie"),
    }
}

#[test]
fn timeout_locks_in_elapsed() {
    let mut log: Vec<Record> = Vec::new();
    let mut svc = Timeout::new(SlowHello { delay: 15 }, 5);
    let mut fut = svc.call(get_root(), 0, &mut log);
    assert!(matches!(fut.poll(5, &mut log), Some(Err(Elapsed))));
    // The inner handler would be ready by now, but its result is discarded.
    assert!(matches!(fut.poll(20, &mut log), Some(Err(Elapsed))));
    assert!(log.is_empty());
}

#[test]
fn resolved_completion_repeats_result() {
    let mut log: Vec<Record> = Vec::new();
    let mut svc = LoggingService::new(HelloWorld);
    let mut fut = svc.call(get_root(), 0, &mut log);
    let first = fut.poll(1, &mut log);
    assert!(matches!(first, Some(Ok(_))));
    assert_eq!(log.len(), 2);
    let again = fut.poll(9, &mut log);
    match again {
        Some(Ok(resp)) => assert_eq!(resp.body, "Hello, World!"),
        _ => panic!("a settled completion must repeat its single result"),
    }
    assert_eq!(log.len(), 2, "no second response line");
}

#[test]
fn stack_logs_timeout_at_deadline() {
    let mut log: Vec<Record> = Vec::new();
    let mut svc = LoggingService::new(Timeout::new(SlowHello { delay: 15 }, 1));
    let mut fut = svc.call(get_root(), 0, &mut log);
    assert_eq!(log.len(), 1);
    assert!(fut.poll(0, &mut log).is_none());
    assert_eq!(log.len(), 1);
    match fut.poll(1, &mut log) {
        Some(Err(e)) => assert_eq!(e.message(), "request timed out"),
        _ => panic!("the logging layer must observe the timeout outcome"),
    }
    assert_eq!(log.len(), 2);
    match &log[1] {
        Record::Response { method, path, elapsed } => {
            assert_eq!(method, "GET");
            assert_eq!(path, "/");
            assert_eq!(*elapsed, 1, "the logged time is the timer's, not the sleeper's");
        }
        _ => panic!("the second record must be the response line"),
    }
}

#[test]
fn stack_instant_success() {
    let mut log: Vec<Record> = Vec::new();
    let mut svc = LoggingService::new(Timeout::new(HelloWorld, 5));
    assert!(svc.poll_ready());
    let mut fut = svc.call(get_root(), 7, &mut log);
    match fut.poll(7, &mut log) {
        Some(Ok(resp)) => {
            assert_eq!(resp.status, 200);
            assert_eq!(resp.body, "Hello, World!");
        }
        _ => panic!("an instant handler under a generous timeout must succeed"),
    }
    match &log[1] {
        Record::Response { elapsed, .. } => assert_eq!(*elapsed, 0),
        _ => panic!("the second record must be the response line"),
    }
}

#[test]
fn elapsed_message_text() {
    assert_eq!(Elapsed.message(), "request timed out");
}

#[test]
fn empty_method_and_path_logged() {
    let mut log: Vec<Record> = Vec::new();
    let mut svc = LoggingService::new(HelloWorld);
    let req = Request { method: String::new(), path: String::new(), body: String::new() };
    let mut fut = svc.call(req, 2, &mut log);
    assert!(matches!(fut.poll(2, &mut log), Some(Ok(_))));
    match &log[0] {
        Record::Request { method, path } => {
            assert_eq!(method, "");
            assert_eq!(path, "");
        }
        _ => panic!("the first record must be the request line"),
    }
}

#[test]
fn saturating_deadlines_near_the_largest_tick() {
    let mut log: Vec<Record> = Vec::new();
    // A sleeper whose wake-up would overflow: it saturates, and still resolves
    // at the largest representable tick.
    let mut slow = SlowHello { delay: u64::MAX };
    let mut fut = slow.call(get_root(), 5, &mut log);
    assert!(fut.poll(u64::MAX - 1, &mut log).is_none());
    assert!(matches!(fut.poll(u64::MAX, &mut log), Some(Ok(_))));
    // A timer whose deadline would overflow: it saturates and never fires
    // before the largest tick.
    let mut svc = Timeout::new(SlowHello { delay: u64::MAX }, u64::MAX);
    let mut fut2 = svc.call(get_root(), 10, &mut log);
    assert!(fut2.poll(1_000_000, &mut log).is_none());
}

#[test]
fn clock_going_backwards_clamps_elapsed() {
    let mut log: Vec<Record> = Vec::new();
    let mut svc = LoggingService::new(HelloWorld);
    let mut fut = svc.call(get_root(), 9, &mut log);
    assert!(matches!(fut.poll(4, &mut log), Some(Ok(_))));
    match &log[1] {
        Record::Response { elapsed, .. } => assert_eq!(*elapsed, 0),
        _ => panic!("the second record must be the response line"),
    }
}

#[test]
fn drive_stops_at_first_resolution() {
    let mut log: Vec<Record> = Vec::new();
    let mut svc = LoggingService::new(Timeout::new(SlowHello { delay: 15 }, 1));
    let mut fut = svc.call(get_root(), 0, &mut log);
    let schedule: Vec<u64> = vec![0, 1, 30];
    let r = middleware::handler::drive(&mut fut, &schedule, &mut log);
    assert!(matches!(r, Some(Err(Elapsed))));
    assert_eq!(log.len(), 2);
    match &log[1] {
        Record::Response { elapsed, .. } => assert_eq!(*elapsed, 1),
        _ => panic!("the second record must be the response line"),
    }
}

#[test]
fn drive_reports_pending_when_no_entry_completes() {
    let mut log: Vec<Record> = Vec::new();
    let mut svc = SlowHello { delay: 10 };
    let mut fut = svc.call(get_root(), 0, &mut log);
    let schedule: Vec<u64> = vec![0, 3, 6];
    let r = middleware::handler::drive(&mut fut, &schedule, &mut log);
    assert!(r.is_none());
    assert!(log.is_empty());
}
