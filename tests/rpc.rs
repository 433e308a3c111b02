use booster_sdk::b1::LocoApiId;
use booster_sdk::call::{CallStep, PendingCall, PollEvent, Reply};
use booster_sdk::discovery::{DiscoveryGate, GateStep, NO_MATCH_MESSAGE};
use booster_sdk::dispatcher::Dispatcher;
use booster_sdk::envelope::{build_key_expr, finish_call, prepare_call, request_header, RpcRespMsg};
use booster_sdk::json::{decode_response_body, parse_status_from_header, status_from_scalar, JsonScalar};
use booster_sdk::status;
use booster_sdk::status::RpcError;

fn reply(id: &str, status: i32, body: &str, context: &str) -> PollEvent {
    PollEvent::Message(Reply {
        request_id: id.to_string(),
        status,
        body: body.to_string(),
        context: context.to_string(),
    })
}

fn call(id: &str, now: u64, timeout: Option<u64>) -> PendingCall {
    PendingCall::start(id.to_string(), now, timeout, 5000)
}

#[test]
fn test_status_codes() {
    assert_eq!(status::SUCCESS, 0);
    assert_eq!(status::TIMEOUT, 100);
    assert_eq!(status::BAD_REQUEST, 400);
}

#[test]
fn parse_status_from_header_reads_status_field() {
    assert_eq!(parse_status_from_header(r#"{"status":0}"#), Some(0));
    assert_eq!(parse_status_from_header(r#"{"status":"-1"}"#), Some(-1));
}

#[test]
fn parse_status_from_header_ignores_other_fields() {
    assert_eq!(parse_status_from_header(r#"{"status_code":0}"#), None);
    assert_eq!(parse_status_from_header(r#"{"code":0}"#), None);
}

#[test]
fn parse_status_from_header_rejects_bad_values() {
    assert_eq!(parse_status_from_header("not json"), None);
    assert_eq!(parse_status_from_header(r#"{"status":"abc"}"#), None);
    assert_eq!(parse_status_from_header(r#"{"status":4294967296}"#), None);
    assert_eq!(parse_status_from_header(r#"{"status":1.5}"#), None);
    assert_eq!(parse_status_from_header(r#"  {"status":502} "#), Some(502));
    assert_eq!(parse_status_from_header(r#"{"status":"+7"}"#), Some(7));
}

#[test]
fn empty_body_deserializes_as_empty_object() {
    let v = decode_response_body("").expect("empty body should parse");
    assert!(v.is_object());
}

#[test]
fn non_json_body_fails_deserialization() {
    let parsed = decode_response_body("not-json");
    assert!(parsed.is_err());
}

#[test]
fn malformed_success_body() {
    match finish_call(Ok("not-json".to_string())) {
        Err(RpcError::Malformed { status, message }) => {
            assert_eq!(status, 0);
            assert!(message.starts_with("Failed to deserialize response body: "));
            assert!(message.len() > "Failed to deserialize response body: ".len());
        }
        other => panic!("unexpected {:?}", other),
    }
    let ok = finish_call(Ok(r#"{"mode":2}"#.to_string())).expect("valid body");
    assert_eq!(ok["mode"].as_i64(), Some(2));
    assert_eq!(
        finish_call(Err(RpcError::Timeout { timeout_ms: 7 })).unwrap_err(),
        RpcError::Timeout { timeout_ms: 7 }
    );
}

#[test]
fn status_mapping_is_total() {
    let known = [
        (100, "RemoteTimeout"),
        (400, "BadRequest"),
        (500, "InternalServerError"),
        (501, "ServerRefused"),
        (502, "StateTransitionFailed"),
    ];
    for (code, _) in known {
        let e = RpcError::from_status_code(code, "m".to_string());
        assert_eq!(e.status_code(), Some(code));
    }
    assert_eq!(RpcError::from_status_code(100, "x".to_string()), RpcError::RemoteTimeout("x".to_string()));
    assert_eq!(RpcError::from_status_code(501, "x".to_string()), RpcError::ServerRefused("x".to_string()));
    for code in [1, -5, 401, 503, i32::MAX, i32::MIN, -1] {
        let e = RpcError::from_status_code(code, "why".to_string());
        assert_eq!(e, RpcError::RequestFailed { status: code, message: "why".to_string() });
        assert_eq!(e.status_code(), Some(code));
    }
}

#[test]
fn change_mode_resolves_after_pending_reply() {
    let (request, pending) = prepare_call(
        i32::from(LocoApiId::ChangeMode),
        r#"{"mode":2}"#.to_string(),
        1_000,
        Some(30_000),
        5_000,
    );
    assert_eq!(request.header, r#"{"api_id":2000}"#);
    assert_eq!(request.uuid, pending.request_id);
    assert_eq!(pending.deadline_ms, 31_000);
    let id = pending.request_id.clone();

    assert!(matches!(pending.step(1_005, &reply(&id, -1, "", "")), CallStep::Retry));
    assert!(matches!(pending.step(2_000, &PollEvent::Empty), CallStep::Sleep));
    match pending.step(3_005, &reply(&id, 0, "{}", "")) {
        CallStep::Done(Ok(body)) => assert_eq!(body, "{}"),
        other => panic!("unexpected {:?}", other),
    }

    let trace = vec![
        (1_005, reply(&id, -1, "", "")),
        (1_010, PollEvent::Empty),
        (3_005, reply(&id, 0, "{}", "")),
        (31_000, PollEvent::Empty),
    ];
    assert_eq!(pending.run_trace(&trace), Some(Ok("{}".to_string())));
}

#[test]
fn get_mode_times_out_without_reply() {
    let (_, pending) = prepare_call(i32::from(LocoApiId::GetMode), String::new(), 0, None, 5_000);
    assert_eq!(pending.timeout_ms, 5_000);
    let mut trace = Vec::new();
    let mut t = 0;
    while t < 5_000 {
        trace.push((t, PollEvent::Empty));
        t += 5;
    }
    assert_eq!(pending.run_trace(&trace), None);
    trace.push((5_000, PollEvent::Empty));
    assert_eq!(pending.run_trace(&trace), Some(Err(RpcError::Timeout { timeout_ms: 5_000 })));
}

#[test]
fn move_ignores_foreign_reply() {
    let (_, rotate) = prepare_call(i32::from(LocoApiId::RotateHead), "{}".to_string(), 0, None, 5_000);
    let (_, mv) = prepare_call(i32::from(LocoApiId::Move), r#"{"vx":0.5}"#.to_string(), 0, None, 5_000);
    assert_ne!(rotate.request_id, mv.request_id);
    let trace = vec![
        (10, reply(&rotate.request_id, 0, r#"{"other":1}"#, "")),
        (20, reply(&mv.request_id, 0, "{}", "")),
    ];
    assert!(matches!(mv.step(10, &trace[0].1), CallStep::Retry));
    assert_eq!(mv.run_trace(&trace), Some(Ok("{}".to_string())));
}

#[test]
fn state_transition_failure_uses_header() {
    let pending = call("c1", 0, Some(30_000));
    let ev = reply("c1", 502, "", "mode transition aborted");
    match pending.step(100, &ev) {
        CallStep::Done(Err(RpcError::StateTransitionFailed(m))) => assert_eq!(m, "mode transition aborted"),
        other => panic!("unexpected {:?}", other),
    }
    let ev = reply("c1", 502, "  \n", "mode transition aborted");
    assert_eq!(
        pending.run_trace(&vec![(1, ev)]),
        Some(Err(RpcError::StateTransitionFailed("mode transition aborted".to_string())))
    );
    let ev = reply("c1", 400, "bad mode", "hdr");
    assert_eq!(pending.run_trace(&vec![(1, ev)]), Some(Err(RpcError::BadRequest("bad mode".to_string()))));
}

#[test]
fn foreign_reply_is_noop() {
    let pending = call("mine", 0, Some(100));
    for st in [0, -1, 502] {
        assert!(matches!(pending.step(50, &reply("other", st, "x", "")), CallStep::Retry));
    }
    assert!(matches!(
        pending.step(100, &reply("other", 0, "x", "")),
        CallStep::Done(Err(RpcError::Timeout { timeout_ms: 100 }))
    ));
}

#[test]
fn pending_replies_change_only_timing() {
    let pending = call("id", 0, Some(1_000));
    let with_pending = vec![
        (10, reply("id", -1, "", "")),
        (20, reply("id", -1, "", "")),
        (30, reply("id", 0, r#"{"ok":true}"#, "")),
    ];
    let direct = vec![(5, reply("id", 0, r#"{"ok":true}"#, ""))];
    assert_eq!(pending.run_trace(&with_pending), pending.run_trace(&direct));
    assert_eq!(pending.run_trace(&direct), Some(Ok(r#"{"ok":true}"#.to_string())));
}

#[test]
fn timeout_despite_foreign_replies() {
    let pending = call("id", 100, Some(250));
    assert_eq!(pending.deadline_ms, 350);
    let mut trace = Vec::new();
    for t in (100..350).step_by(10) {
        trace.push((t, reply("someone-else", 0, "{}", "")));
        trace.push((t + 1, reply("id", -1, "", "")));
    }
    trace.push((350, reply("someone-else", 0, "{}", "")));
    trace.push((360, reply("id", 0, "{}", "")));
    assert_eq!(pending.run_trace(&trace), Some(Err(RpcError::Timeout { timeout_ms: 250 })));
}

#[test]
fn read_failure_ends_call() {
    let pending = call("id", 0, None);
    assert_eq!(pending.timeout_ms, 5_000);
    let trace = vec![(1, PollEvent::ReadFailed("reader closed".to_string())), (2, reply("id", 0, "{}", ""))];
    assert_eq!(pending.run_trace(&trace), Some(Err(RpcError::ReceiveFailed("reader closed".to_string()))));
}

#[test]
fn deadline_saturates() {
    let pending = call("id", u64::MAX - 10, Some(100));
    assert_eq!(pending.deadline_ms, u64::MAX);
}

#[test]
fn reply_status_from_header() {
    let msg = |header: &str| RpcRespMsg { uuid: "u".to_string(), header: header.to_string(), body: "b".to_string() };
    let r = Reply::from_message(msg(r#"{"status":-1}"#));
    assert_eq!(r.status, -1);
    assert_eq!(r.request_id, "u");
    assert_eq!(r.body, "b");
    assert_eq!(Reply::from_message(msg(r#"{"status":"502"}"#)).status, 502);
    assert_eq!(Reply::from_message(msg("garbage")).status, 0);
    assert_eq!(Reply::from_message(msg("{}")).status, 0);
}

#[test]
fn request_header_and_key_expr() {
    assert_eq!(request_header(2000), r#"{"api_id":2000}"#);
    assert_eq!(request_header(-7), r#"{"api_id":-7}"#);
    assert_eq!(request_header(0), r#"{"api_id":0}"#);
    assert_eq!(build_key_expr(3, "loco", "ChangeMode"), "domain3/rpc/loco/ChangeMode");
    assert_eq!(build_key_expr(65535, "a", "b"), "domain65535/rpc/a/b");
}

#[test]
fn fresh_request_ids() {
    let (a, _) = prepare_call(1, String::new(), 0, None, 10);
    let (b, _) = prepare_call(1, String::new(), 0, None, 10);
    assert!(!a.uuid.is_empty());
    assert_ne!(a.uuid, b.uuid);
}

#[test]
fn dispatcher_routes_by_id() {
    let mut d = Dispatcher::new();
    assert!(d.register(call("a", 0, Some(100))).is_ok());
    assert!(d.register(call("b", 0, Some(1_000))).is_ok());
    assert!(d.register(call("a", 0, Some(5))).is_err());
    assert_eq!(d.len(), 2);

    let r = |id: &str, st: i32| Reply { request_id: id.to_string(), status: st, body: "{}".to_string(), context: String::new() };
    assert_eq!(d.dispatch(10, r("zzz", 0)), None);
    assert_eq!(d.dispatch(10, r("b", -1)), None);
    assert_eq!(d.len(), 2);
    assert_eq!(d.dispatch(20, r("b", 0)), Some(("b".to_string(), Ok("{}".to_string()))));
    assert_eq!(d.len(), 1);
    assert_eq!(d.dispatch(30, r("b", 0)), None);

    assert_eq!(d.expire_next(99), None);
    assert_eq!(d.expire_next(100), Some(("a".to_string(), RpcError::Timeout { timeout_ms: 100 })));
    assert_eq!(d.len(), 0);
}

#[test]
fn discovery_gate_steps() {
    let gate = DiscoveryGate::start(1_000, 2_000);
    assert_eq!(gate.deadline_ms, 3_000);
    assert!(matches!(gate.step(1_020, 0), GateStep::Wait));
    assert!(matches!(gate.step(1_040, 1), GateStep::Ready));
    assert!(matches!(gate.step(3_000, 2), GateStep::Ready));
    match gate.step(3_000, 0) {
        GateStep::Failed(RpcError::InitializationFailed(m)) => {
            assert_eq!(m, NO_MATCH_MESSAGE);
            assert!(m.contains("no matched subscriptions"));
        }
        other => panic!("unexpected {:?}", other),
    }
}

#[test]
fn parse_status_value_handles_number_and_string() {
    assert_eq!(status_from_scalar(&JsonScalar::Number(Some(0))), Some(0));
    assert_eq!(status_from_scalar(&JsonScalar::Text("-1".to_string())), Some(-1));
    assert_eq!(status_from_scalar(&JsonScalar::Text("not-a-number".to_string())), None);
    assert_eq!(status_from_scalar(&JsonScalar::Number(Some(1 << 40))), None);
    assert_eq!(status_from_scalar(&JsonScalar::Number(None)), None);
    assert_eq!(status_from_scalar(&JsonScalar::Other), None);
}

#[test]
fn request_ids_are_hyphenated_uuids() {
    let (request, _) = prepare_call(1, String::new(), 0, None, 10);
    assert_eq!(request.uuid.chars().count(), 36);
    assert_eq!(request.uuid.matches('-').count(), 4);
}

#[test]
fn dispatcher_drain_and_expiry() {
    let mut d = Dispatcher::new();
    assert!(d.register(call("a", 0, Some(10))).is_ok());
    assert!(d.register(call("b", 0, Some(20))).is_ok());
    assert_eq!(d.expire_next(25).map(|(id, _)| id), Some("a".to_string()));
    let rest = d.drain();
    assert_eq!(rest.len(), 1);
    assert_eq!(rest[0].request_id, "b");
    assert_eq!(d.len(), 0);
}
