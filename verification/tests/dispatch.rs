use tachyon::bridge::WaitPlan;
use tachyon::bridge::WaitStep;
use tachyon::dispatch::dispatch;
use tachyon::dispatch::render;
use tachyon::dispatch::render_bad_request;
use tachyon::dispatch::render_not_found;
use tachyon::dispatch::DispatchOutcome;
use tachyon::Method;
use tachyon::Tachyon;
use tachyon::TachyonResponse;

fn parse(text: &str) -> serde_json::Value {
    serde_json::from_str(text).unwrap()
}

#[test]
fn scenario_get_with_path_parameter() {
    let mut table = Tachyon::new();
    table.get(String::from("/users/:id"), 1);
    let outcome = dispatch(&table, "GET", "/users/42", None, b"");
    match outcome {
        DispatchOutcome::Invoke { router, request } => {
            assert_eq!(router.handler(), 1);
            assert_eq!(request.method, Method::Get);
            assert_eq!(request.path, "/users/42");
            // the handler reads its path parameter from the request
            assert_eq!(request.path.split('/').last(), Some("42"));
            // the handler answers with a structured payload
            let response = TachyonResponse::new();
            let handler_side = response.clone();
            handler_side.send(Some(parse("{\"ok\":true}")));
            let rendered = render(response.get_status(), response.take_data());
            assert_eq!(rendered.status, 200);
            assert!(rendered.json);
            assert_eq!(rendered.body, Some(String::from("{\"ok\":true}")));
        }
        _ => panic!("expected an invocation"),
    }
}

#[test]
fn scenario_post_with_unparseable_json_is_bad_request() {
    let mut table = Tachyon::new();
    table.post(String::from("/items"), 1);
    let outcome = dispatch(
        &table,
        "POST",
        "/items",
        Some("application/json"),
        b"this is not json",
    );
    assert!(matches!(outcome, DispatchOutcome::BadRequest));
    let rendered = render_bad_request();
    assert_eq!(rendered.status, 400);
    assert!(!rendered.json);
    assert_eq!(rendered.body, Some(String::from("Invalid JSON")));
}

#[test]
fn scenario_unregistered_route_is_not_found() {
    let table = Tachyon::new();
    let outcome = dispatch(&table, "DELETE", "/missing", None, b"");
    assert!(matches!(outcome, DispatchOutcome::NotFound));
    let rendered = render_not_found();
    assert_eq!(rendered.status, 404);
    assert!(!rendered.json);
    assert_eq!(rendered.body, Some(String::from("Not Found")));
}

#[test]
fn scenario_status_only_handler_renders_empty_204() {
    let mut table = Tachyon::new();
    table.put(String::from("/users/:id"), 1);
    let outcome = dispatch(&table, "PUT", "/users/9", None, b"");
    match outcome {
        DispatchOutcome::Invoke { .. } => {
            let response = TachyonResponse::new();
            response.status(204);
            let rendered = render(response.get_status(), response.take_data());
            assert_eq!(rendered.status, 204);
            assert!(!rendered.json);
            assert_eq!(rendered.body, None);
        }
        _ => panic!("expected an invocation"),
    }
}

#[test]
fn scenario_silent_handler_times_out_to_empty_200() {
    let mut table = Tachyon::new();
    table.get(String::from("/slow"), 1);
    let outcome = dispatch(&table, "GET", "/slow", None, b"");
    assert!(matches!(outcome, DispatchOutcome::Invoke { .. }));
    let response = TachyonResponse::new();
    let slow_handler = response.clone();
    // the handler never writes; the dispatcher polls until the bound is spent
    let mut plan = WaitPlan::new();
    let mut total_sleep: u64 = 0;
    let mut steps: u64 = 0;
    loop {
        match plan.step(response.get_data().is_some()) {
            WaitStep::Ready => panic!("nothing was written"),
            WaitStep::TimedOut => break,
            WaitStep::Sleep(micros) => {
                // a real dispatcher sleeps here; the accounting is what we check
                total_sleep += micros;
                steps += 1;
            }
        }
    }
    assert!(total_sleep >= 100_000);
    assert!(total_sleep <= 102_000);
    assert!(steps <= 100);
    let rendered = render(response.get_status(), response.take_data());
    assert_eq!(rendered.status, 200);
    assert_eq!(rendered.body, None);
    // the handler's late write must not leak into the next cycle's response
    slow_handler.send(Some(serde_json::Value::String(String::from("stale"))));
    let next_cycle = TachyonResponse::new();
    assert_eq!(next_cycle.get_data(), None);
}

#[test]
fn unsupported_method_is_rejected_not_defaulted() {
    let mut table = Tachyon::new();
    table.get(String::from("/"), 1);
    let outcome = dispatch(&table, "HEAD", "/", None, b"");
    assert!(matches!(outcome, DispatchOutcome::InvalidMethod));
}

#[test]
fn json_null_body_on_bodied_verbs_is_bad_request() {
    let mut table = Tachyon::new();
    table.post(String::from("/a"), 1);
    table.put(String::from("/a"), 1);
    table.patch(String::from("/a"), 1);
    table.get(String::from("/a"), 1);
    table.delete(String::from("/a"), 1);
    for method in ["POST", "PUT", "PATCH"] {
        let outcome = dispatch(&table, method, "/a", Some("application/json"), b"null");
        assert!(matches!(outcome, DispatchOutcome::BadRequest));
    }
    // parse failure degrades to "no body" on verbs that bear none
    for method in ["GET", "DELETE"] {
        let outcome = dispatch(&table, method, "/a", Some("application/json"), b"{{{");
        assert!(matches!(outcome, DispatchOutcome::Invoke { .. }));
    }
}

#[test]
fn valid_json_body_reaches_the_handler() {
    let mut table = Tachyon::new();
    table.post(String::from("/a"), 5);
    let outcome = dispatch(
        &table,
        "POST",
        "/a",
        Some("application/json; charset=utf-8"),
        b"{\"n\": 3}",
    );
    match outcome {
        DispatchOutcome::Invoke { router, request } => {
            assert_eq!(router.handler(), 5);
            assert_eq!(request.body, parse("{\"n\":3}"));
        }
        _ => panic!("expected an invocation"),
    }
}

#[test]
fn undeclared_content_type_skips_parsing() {
    let mut table = Tachyon::new();
    table.post(String::from("/a"), 5);
    let outcome = dispatch(&table, "POST", "/a", Some("text/plain"), b"{\"n\": 3}");
    match outcome {
        DispatchOutcome::Invoke { request, .. } => {
            assert!(request.body.is_null());
        }
        _ => panic!("expected an invocation"),
    }
}

#[test]
fn render_maps_uncarriable_status_to_500() {
    assert_eq!(render(99, None).status, 500);
    assert_eq!(render(1000, None).status, 500);
    assert_eq!(render(0, None).status, 500);
    assert_eq!(render(100, None).status, 100);
    assert_eq!(render(999, None).status, 999);
    assert_eq!(render(204, None).status, 204);
}

#[test]
fn render_detects_structured_bodies() {
    let rendered = render(200, Some(String::from("{\"a\":1}")));
    assert!(rendered.json);
    let rendered = render(200, Some(String::from("  \t\r\n[1,2]")));
    assert!(rendered.json);
    let rendered = render(200, Some(String::from("plain text")));
    assert!(!rendered.json);
    let rendered = render(200, Some(String::from("   ")));
    assert!(!rendered.json);
    let rendered = render(200, Some(String::from("")));
    assert!(!rendered.json);
    assert_eq!(
        render(200, Some(String::from("body"))).body,
        Some(String::from("body"))
    );
}
