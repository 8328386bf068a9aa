use device_orchestrator::pipeline::{
    demo_pipeline, run_chain, Connection, HandlerBehavior, Method, MiddlewareKind, Observation,
    Route, RouteTable, ServicePipeline,
};

fn fresh() -> (Connection, Vec<Observation>) {
    (Connection::new(), Vec::new())
}

#[test]
fn get_root_returns_greeting() {
    let p = demo_pipeline();
    let (mut conn, mut log) = fresh();
    let path = String::from("/");
    let r = p.handle_request(Method::Get, &path, &mut conn, &mut log);
    assert!(matches!(r, Some(Ok(()))));
    assert_eq!(conn.status, 200);
    assert_eq!(conn.body, "mSupply FTW!");
    assert_eq!(conn.responses, 1);
}

#[test]
fn get_bar_returns_permission_denied() {
    let p = demo_pipeline();
    let (mut conn, mut log) = fresh();
    let path = String::from("/bar");
    let r = p.handle_request(Method::Get, &path, &mut conn, &mut log);
    assert!(matches!(r, Some(Ok(()))));
    assert_eq!(conn.status, 403);
    assert_eq!(conn.body, "You have no permissions to access this page");
    assert_eq!(conn.responses, 1);
}

#[test]
fn handler_boom_converted_to_500() {
    let routes = vec![Route {
        method: Method::Get,
        path: String::from("/"),
        behavior: HandlerBehavior::FailBeforeWrite { message: String::from("boom") },
    }];
    let p = ServicePipeline {
        routes: RouteTable { routes },
        chain: vec![MiddlewareKind::Recovering, MiddlewareKind::Observing],
    };
    let (mut conn, mut log) = fresh();
    let path = String::from("/");
    let r = p.handle_request(Method::Get, &path, &mut conn, &mut log);
    assert!(matches!(r, Some(Ok(()))));
    assert_eq!(conn.status, 500);
    assert_eq!(conn.body, "ERROR: boom");
    assert_eq!(conn.responses, 1);
}

#[test]
fn unmatched_route_returns_none() {
    let p = demo_pipeline();
    let (mut conn, mut log) = fresh();
    let path = String::from("/baz");
    let r = p.handle_request(Method::Get, &path, &mut conn, &mut log);
    assert!(r.is_none());
    assert_eq!(conn.responses, 0);
    assert!(log.is_empty());
}

#[test]
fn method_must_match_exactly() {
    let p = demo_pipeline();
    let (mut conn, mut log) = fresh();
    let path = String::from("/");
    let r = p.handle_request(Method::Post, &path, &mut conn, &mut log);
    assert!(r.is_none());
    assert_eq!(conn.responses, 0);
}

#[test]
fn success_observed_once_per_layer() {
    let chain = vec![MiddlewareKind::Recovering, MiddlewareKind::Observing];
    let b = HandlerBehavior::Respond { status: 200, body: String::from("ok") };
    let (mut conn, mut log) = fresh();
    let r = run_chain(&chain, 0, &b, &mut conn, &mut log);
    assert!(r.is_ok());
    // the inner layer observes first; each layer observes success exactly once
    assert_eq!(log, vec![
        Observation { layer: 1, saw_ok: true },
        Observation { layer: 0, saw_ok: true },
    ]);
}

#[test]
fn error_after_write_propagates_without_second_response() {
    let chain = vec![MiddlewareKind::Recovering, MiddlewareKind::Observing];
    let b = HandlerBehavior::FailAfterWrite {
        status: 200,
        partial: String::from("partial"),
        message: String::from("late failure"),
    };
    let (mut conn, mut log) = fresh();
    let r = run_chain(&chain, 0, &b, &mut conn, &mut log);
    assert_eq!(r, Err(String::from("late failure")));
    // the partial response is all the client ever sees
    assert_eq!(conn.responses, 1);
    assert_eq!(conn.status, 200);
    assert_eq!(conn.body, "partial");
    assert_eq!(log, vec![
        Observation { layer: 1, saw_ok: false },
        Observation { layer: 0, saw_ok: false },
    ]);
}

#[test]
fn error_unrecovered_without_recovering_layer() {
    let chain = vec![MiddlewareKind::Observing];
    let b = HandlerBehavior::FailBeforeWrite { message: String::from("boom") };
    let (mut conn, mut log) = fresh();
    let r = run_chain(&chain, 0, &b, &mut conn, &mut log);
    assert_eq!(r, Err(String::from("boom")));
    assert_eq!(conn.responses, 0);
    assert_eq!(log, vec![Observation { layer: 0, saw_ok: false }]);
}

#[test]
fn innermost_recovering_layer_converts() {
    // two recovering layers: the inner one converts, the outer observes Ok
    let chain = vec![MiddlewareKind::Recovering, MiddlewareKind::Recovering];
    let b = HandlerBehavior::FailBeforeWrite { message: String::from("boom") };
    let (mut conn, mut log) = fresh();
    let r = run_chain(&chain, 0, &b, &mut conn, &mut log);
    assert!(r.is_ok());
    assert_eq!(conn.status, 500);
    assert_eq!(conn.body, "ERROR: boom");
    assert_eq!(conn.responses, 1);
    assert_eq!(log, vec![
        Observation { layer: 1, saw_ok: false },
        Observation { layer: 0, saw_ok: true },
    ]);
}
