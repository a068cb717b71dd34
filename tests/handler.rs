use order_total::config::{Config, RATE_LOOKUP_TIMEOUT_SECS};
use order_total::handler::{error_body, start, Action, Event, Stage};
use order_total::http::{response_build, route, Method, Response, Route};

const INSTRUCTIONS: &str =
    "Try POSTing data to /compute such as: `curl localhost:8002/compute -XPOST -d '...'`";

fn cors() -> Vec<(String, String)> {
    vec![
        ("Access-Control-Allow-Origin".to_string(), "*".to_string()),
        ("Access-Control-Allow-Methods".to_string(), "GET, POST, OPTIONS".to_string()),
        (
            "Access-Control-Allow-Headers".to_string(),
            "api,Keep-Alive,User-Agent,Content-Type".to_string(),
        ),
    ]
}

fn response_of(action: Action) -> Response {
    match action {
        Action::Respond { response } => response,
        _ => panic!("expected a response"),
    }
}

fn compute_until_lookup(zip: &str) -> Stage {
    let (stage, action) = start(Method::Post, "/compute");
    assert!(matches!(action, Action::ParseOrder));
    let (stage, action) = stage.step(Event::OrderParsed { zip: zip.to_string() });
    match action {
        Action::PostZip { zip: sent } => assert_eq!(sent, zip),
        _ => panic!("expected a lookup call"),
    }
    stage
}

#[test]
fn routes_follow_the_table() {
    assert_eq!(route(Method::Options, "/compute"), Route::Preflight);
    assert_eq!(route(Method::Get, "/"), Route::Instructions);
    assert_eq!(route(Method::Post, "/compute"), Route::Compute);
    assert_eq!(route(Method::Get, "/compute"), Route::NotFound);
    assert_eq!(route(Method::Post, "/"), Route::NotFound);
    assert_eq!(route(Method::Options, "/"), Route::NotFound);
    assert_eq!(route(Method::Other, "/compute"), Route::NotFound);
    assert_eq!(route(Method::Post, "/compute/"), Route::NotFound);
    assert_eq!(route(Method::Get, ""), Route::NotFound);
}

#[test]
fn response_build_attaches_cors_headers() {
    let r = response_build(201, "abc");
    assert_eq!(r.status, 201);
    assert_eq!(r.body, "abc");
    assert_eq!(r.headers, cors());
}

#[test]
fn error_body_wraps_message() {
    assert_eq!(error_body("oops"), r#"{"status":"error","message":"oops"}"#);
    assert_eq!(error_body(""), r#"{"status":"error","message":""}"#);
}

#[test]
fn root_serves_instructions() {
    let (stage, action) = start(Method::Get, "/");
    assert_eq!(stage, Stage::Done);
    let r = response_of(action);
    assert_eq!(r.status, 200);
    assert_eq!(r.body, INSTRUCTIONS);
    assert_eq!(r.headers, cors());
}

#[test]
fn preflight_is_empty_with_cors() {
    let (stage, action) = start(Method::Options, "/compute");
    assert_eq!(stage, Stage::Done);
    let r = response_of(action);
    assert_eq!(r.status, 200);
    assert_eq!(r.body, "");
    assert_eq!(r.headers, cors());
}

#[test]
fn unmatched_routes_are_not_found() {
    for (m, p) in [
        (Method::Get, "/compute"),
        (Method::Post, "/"),
        (Method::Other, "/"),
        (Method::Options, "/other"),
        (Method::Get, "/index.html"),
    ] {
        let (stage, action) = start(m, p);
        assert_eq!(stage, Stage::Done);
        let r = response_of(action);
        assert_eq!(r.status, 404);
        assert_eq!(r.body, "");
    }
}

#[test]
fn invalid_order_is_bad_request() {
    let (stage, _) = start(Method::Post, "/compute");
    assert!(stage.accepts(&Event::OrderRejected));
    let (stage, action) = stage.step(Event::OrderRejected);
    assert_eq!(stage, Stage::Done);
    let r = response_of(action);
    assert_eq!(r.status, 400);
    assert_eq!(r.body, r#"{"status":"error","message":"The request body is not a valid order."}"#);
    assert_eq!(r.headers, cors());
}

#[test]
fn unreachable_lookup_is_server_error() {
    let stage = compute_until_lookup("10001");
    let (stage, action) = stage.step(Event::ConnectFailed);
    assert_eq!(stage, Stage::Done);
    let r = response_of(action);
    assert_eq!(r.status, 500);
    assert!(r.body.contains("Cannot connect to sales tax rate service"));
    assert_eq!(r.body, r#"{"status":"error","message":"Cannot connect to sales tax rate service"}"#);
}

#[test]
fn unreadable_lookup_answer_is_server_error() {
    let stage = compute_until_lookup("10001");
    let (stage, action) = stage.step(Event::Connected);
    assert!(matches!(action, Action::ReadRate));
    let (stage, action) = stage.step(Event::ReadFailed);
    assert_eq!(stage, Stage::Done);
    let r = response_of(action);
    assert_eq!(r.status, 500);
    assert_eq!(
        r.body,
        r#"{"status":"error","message":"Cannot read response from sales tax rate service"}"#
    );
}

#[test]
fn non_numeric_rate_is_bad_request() {
    let stage = compute_until_lookup("99999");
    let (stage, _) = stage.step(Event::Connected);
    let (stage, action) = stage.step(Event::RateRead);
    assert!(matches!(action, Action::Price));
    let (stage, action) = stage.step(Event::RateRejected);
    assert_eq!(stage, Stage::Done);
    let r = response_of(action);
    assert_eq!(r.status, 400);
    assert_eq!(
        r.body,
        r#"{"status":"error","message":"The zip code in the order does not have a corresponding sales tax rate."}"#
    );
}

#[test]
fn unserializable_order_is_server_error() {
    let stage = compute_until_lookup("10001");
    let (stage, _) = stage.step(Event::Connected);
    let (stage, _) = stage.step(Event::RateRead);
    let (stage, action) = stage.step(Event::SerializeFailed);
    assert_eq!(stage, Stage::Done);
    let r = response_of(action);
    assert_eq!(r.status, 500);
    assert!(r.body.starts_with(r#"{"status":"error","#));
}

fn priced_run(json: &str) -> Response {
    let stage = compute_until_lookup("10001");
    let (stage, _) = stage.step(Event::Connected);
    let (stage, _) = stage.step(Event::RateRead);
    let (stage, action) = stage.step(Event::Priced { json: json.to_string() });
    assert_eq!(stage, Stage::Done);
    assert!(!stage.accepts(&Event::Connected));
    response_of(action)
}

#[test]
fn priced_order_is_served_with_cors() {
    let json = "{\n  \"order_id\": 1,\n  \"total\": 108.0\n}";
    let r = priced_run(json);
    assert_eq!(r.status, 200);
    assert_eq!(r.body, json);
    assert_eq!(r.headers, cors());
}

#[test]
fn same_outcomes_give_same_reply() {
    let a = priced_run("{\"total\": 108.0}");
    let b = priced_run("{\"total\": 108.0}");
    assert_eq!(a.status, b.status);
    assert_eq!(a.body, b.body);
    assert_eq!(a.headers, b.headers);
}

#[test]
fn stages_accept_only_their_events() {
    assert!(Stage::AwaitOrder.accepts(&Event::OrderParsed { zip: String::new() }));
    assert!(!Stage::AwaitOrder.accepts(&Event::Connected));
    assert!(Stage::AwaitConnection.accepts(&Event::ConnectFailed));
    assert!(!Stage::AwaitConnection.accepts(&Event::RateRead));
    assert!(Stage::AwaitRateText.accepts(&Event::ReadFailed));
    assert!(!Stage::AwaitRateText.accepts(&Event::Priced { json: String::new() }));
    assert!(Stage::AwaitPricing.accepts(&Event::RateRejected));
    assert!(!Stage::AwaitPricing.accepts(&Event::OrderRejected));
    assert!(!Stage::Done.accepts(&Event::OrderRejected));
}

#[test]
fn config_uses_given_url_or_default() {
    let c = Config::from_setting(Some("http://rates:9000/find".to_string()));
    assert_eq!(c.rate_service_url, "http://rates:9000/find");
    assert_eq!(c.timeout_secs, RATE_LOOKUP_TIMEOUT_SECS);
    let d = Config::from_setting(None);
    assert_eq!(d.rate_service_url, "http://localhost:8001/find_rate");
    assert_eq!(d.timeout_secs, 5);
}
