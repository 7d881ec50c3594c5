use mpi_request::{
    is_null, Action, CancelGuard, Completion, LocalScope, Request, Scope, Status, StaticScope,
    WaitGuard, REQUEST_NULL,
};

fn status(source: i32) -> Status {
    Status { source, tag: 7, error: 0 }
}

fn done(source: i32) -> Completion {
    Completion { request: REQUEST_NULL, status: status(source) }
}

#[test]
fn null_handle_is_recognised() {
    assert!(is_null(REQUEST_NULL));
    assert!(!is_null(1));
    assert!(!is_null(u64::MAX));
}

#[test]
fn new_local_scope_is_empty() {
    let scope = LocalScope::new();
    assert!(scope.is_empty());
}

#[test]
fn register_then_unregister_empties_scope() {
    let mut scope = LocalScope::new();
    let req: Request<LocalScope> = Request::from_raw(11, &mut scope);
    assert!(!scope.is_empty());
    assert_eq!(req.as_raw(), 11);
    let raw = req.into_raw(&mut scope);
    assert_eq!(raw, 11);
    assert!(scope.is_empty());
}

#[test]
fn wait_yields_status_and_unregisters() {
    let mut scope = LocalScope::new();
    let req: Request<LocalScope> = Request::from_raw(5, &mut scope);
    let st = req.wait(&mut scope, done(3));
    assert_eq!(st, status(3));
    assert!(scope.is_empty());
}

#[test]
fn wait_without_status_unregisters() {
    let mut scope = LocalScope::new();
    let req: Request<LocalScope> = Request::from_raw(5, &mut scope);
    req.wait_without_status(&mut scope, REQUEST_NULL);
    assert!(scope.is_empty());
}

#[test]
fn test_pending_returns_same_request() {
    let mut scope = LocalScope::new();
    let req: Request<LocalScope> = Request::from_raw(21, &mut scope);
    let back = match req.test(&mut scope, None) {
        Ok(_) => panic!("a pending operation reported completion"),
        Err(r) => r,
    };
    assert_eq!(back.as_raw(), 21);
    assert!(!scope.is_empty());
    back.wait_without_status(&mut scope, REQUEST_NULL);
    assert!(scope.is_empty());
}

#[test]
fn test_complete_returns_status_and_unregisters() {
    let mut scope = LocalScope::new();
    let req: Request<LocalScope> = Request::from_raw(22, &mut scope);
    match req.test(&mut scope, Some(done(9))) {
        Ok(st) => assert_eq!(st, status(9)),
        Err(_) => panic!("a completed operation was reported pending"),
    }
    assert!(scope.is_empty());
}

#[test]
fn repeated_test_completes_exactly_once() {
    let mut scope = LocalScope::new();
    let mut req: Request<LocalScope> = Request::from_raw(30, &mut scope);
    let mut pending = 0;
    // The transport reports the operation pending three times, then done.
    let polls = vec![None, None, None, Some(done(4))];
    let mut statuses = Vec::new();
    for (i, poll) in polls.into_iter().enumerate() {
        match req.test(&mut scope, poll) {
            Ok(st) => {
                statuses.push(st);
                assert_eq!(i, 3);
                break;
            }
            Err(r) => {
                assert_eq!(r.as_raw(), 30);
                assert!(!scope.is_empty());
                pending += 1;
                req = r;
            }
        }
    }
    assert_eq!(pending, 3);
    assert_eq!(statuses, vec![status(4)]);
    assert!(scope.is_empty());
}

/// A stand-in for the transport: it holds each pending operation's buffer until the
/// operation is waited for.
struct Pending<'b> {
    ops: Vec<(u64, &'b mut [u8])>,
}

impl<'b> Pending<'b> {
    fn wait(&mut self, h: u64) -> u64 {
        let at = self.ops.iter().position(|(k, _)| *k == h).expect("unknown handle");
        let (_, buf) = self.ops.remove(at);
        for b in buf.iter_mut() {
            *b = 0xAA;
        }
        REQUEST_NULL
    }
}

#[test]
fn sweep_completes_two_stragglers() {
    let mut small = [1u8; 4];
    let mut large = [2u8; 8];
    {
        let mut transport = Pending { ops: Vec::new() };
        transport.ops.push((40, &mut small[..]));
        transport.ops.push((41, &mut large[..]));
        let mut scope = LocalScope::new();
        let a: Request<LocalScope> = Request::from_raw(40, &mut scope);
        let b: Request<LocalScope> = Request::from_raw(41, &mut scope);
        // The block ends without waiting on either request.
        std::mem::forget(a);
        std::mem::forget(b);
        let guards = scope.sweep();
        assert!(scope.is_empty());
        let mut handles: Vec<u64> = guards.iter().map(|g| g.as_raw()).collect();
        handles.sort();
        assert_eq!(handles, vec![40, 41]);
        let mut global = StaticScope;
        for g in guards {
            assert_eq!(g.teardown(), vec![Action::Wait(g.as_raw())]);
            let after = transport.wait(g.as_raw());
            g.finish(&mut global, after);
        }
        assert!(transport.ops.is_empty());
    }
    // Both operations have completed: the buffers hold what they wrote and may be reused.
    assert_eq!(small, [0xAA; 4]);
    assert_eq!(large, [0xAA; 8]);
    small.copy_from_slice(&[9u8; 4]);
    large.copy_from_slice(&[9u8; 8]);
    assert_eq!(small, [9u8; 4]);
    assert_eq!(large, [9u8; 8]);
}

#[test]
fn sweep_of_empty_scope_yields_nothing() {
    let mut scope = LocalScope::new();
    let guards = scope.sweep();
    assert!(guards.is_empty());
    assert!(scope.is_empty());
}

#[test]
fn wait_guard_round_trip_keeps_handle() {
    let mut scope = LocalScope::new();
    let req: Request<LocalScope> = Request::from_raw(50, &mut scope);
    let guard: WaitGuard<LocalScope> = req.into_wait_guard();
    assert_eq!(guard.as_raw(), 50);
    let back = guard.into_request();
    assert_eq!(back.as_raw(), 50);
    assert!(!scope.is_empty());
    back.into_raw(&mut scope);
    assert!(scope.is_empty());
}

#[test]
fn cancel_guard_round_trip_keeps_handle() {
    let mut scope = LocalScope::new();
    let req: Request<LocalScope> = Request::from_raw(51, &mut scope);
    let guard: CancelGuard<LocalScope> = req.into_cancel_guard();
    assert_eq!(guard.as_raw(), 51);
    let back = guard.into_request();
    assert_eq!(back.as_raw(), 51);
    back.into_raw(&mut scope);
    assert!(scope.is_empty());
}

#[test]
fn cancel_guard_teardown_cancels_then_waits() {
    let mut scope = LocalScope::new();
    let req: Request<LocalScope> = Request::from_raw(52, &mut scope);
    let guard = req.into_cancel_guard();
    assert_eq!(guard.teardown(), vec![Action::Cancel(52), Action::Wait(52)]);
    guard.finish(&mut scope, REQUEST_NULL);
    assert!(scope.is_empty());
}

#[test]
fn cancel_asks_for_cancellation_without_completing() {
    let mut scope = LocalScope::new();
    let req: Request<LocalScope> = Request::from_raw(53, &mut scope);
    assert_eq!(req.cancel(), Action::Cancel(53));
    assert!(!scope.is_empty());
    let st = req.wait(&mut scope, done(1));
    assert_eq!(st.source, 1);
    assert!(scope.is_empty());
}

#[test]
fn static_scope_requests_need_no_record() {
    let mut global = StaticScope;
    let req: Request = Request::from_raw(60, &mut global);
    assert_eq!(req.as_raw(), 60);
    let st = req.wait(&mut global, done(2));
    assert_eq!(st, status(2));
}

#[test]
fn shrink_scope_moves_handle() {
    let mut global = StaticScope;
    let mut local = LocalScope::new();
    let req: Request = Request::from_raw(70, &mut global);
    let moved: Request<LocalScope> = req.shrink_scope_to(&mut global, &mut local);
    assert_eq!(moved.as_raw(), 70);
    assert!(!local.is_empty());
    moved.wait_without_status(&mut local, REQUEST_NULL);
    assert!(local.is_empty());
}

#[test]
fn many_handles_unregister_in_any_order() {
    let mut scope = LocalScope::new();
    let mut reqs: Vec<Request<LocalScope>> = Vec::new();
    for h in 1..=5u64 {
        reqs.push(Request::from_raw(h, &mut scope));
    }
    // Complete the middle one first, then the rest from the back.
    let mid = reqs.remove(2);
    assert_eq!(mid.into_raw(&mut scope), 3);
    while let Some(r) = reqs.pop() {
        r.wait_without_status(&mut scope, REQUEST_NULL);
    }
    assert!(scope.is_empty());
}

#[test]
fn registration_checks_admit_one_unregister() {
    let mut scope = LocalScope::new();
    assert!(scope.can_register(80));
    assert!(!scope.can_register(REQUEST_NULL));
    let req: Request<LocalScope> = Request::from_raw(80, &mut scope);
    assert!(!scope.can_register(80));
    assert!(scope.can_unregister(80));
    req.into_raw(&mut scope);
    assert!(!scope.can_unregister(80));
    assert!(scope.can_register(80));
}
