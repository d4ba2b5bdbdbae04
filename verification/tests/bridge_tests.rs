use context_policy::bridge::{
    accept_response, check_response, parse_bridge_decision, validate_finite, BridgeLaunch,
    Exchange, ExchangeAction, ExchangeEvent, DEFAULT_TIMEOUT_MS, PROTOCOL_VERSION,
};
use context_policy::config::ContextPolicyConfig;
use context_policy::decision::ContextPolicyAction;
use context_policy::error::{ErrorKind, PolicyError};
use context_policy::json::Json;

fn json(text: &str) -> Json {
    Json::parse(text).expect("valid JSON")
}

fn request(kind: &str, id: &str, epoch: u64) -> Json {
    json(&format!(
        r#"{{"type": "{kind}", "protocol_version": "{PROTOCOL_VERSION}", "request_id": "{id}",
            "run_id": "run", "task_id": "task", "replicate_id": 0,
            "thread_id": "thread", "epoch": {epoch}, "controller_mode": "mpc_h1"}}"#
    ))
}

/// What a policy process with the given behavior does with a request line.
fn policy(behavior: &str, line: &str) -> ExchangeEvent {
    let mut request: serde_json::Value = serde_json::from_str(line).expect("request JSON");
    let map = request.as_object_mut().expect("request object");
    match behavior {
        "exit" => return ExchangeEvent::OutputClosed,
        "timeout" => return ExchangeEvent::ResponseTimedOut,
        "malformed" => return ExchangeEvent::Line("not-json".to_string()),
        "nonfinite" => return ExchangeEvent::Line(r#"{"q_keep":NaN}"#.to_string()),
        _ => {}
    }
    if map["type"] == "initialize" {
        map.insert("type".to_string(), "initialized".into());
    } else {
        map.insert("type".to_string(), "decision".into());
        map.remove("controller_mode");
        map.insert("action".to_string(), "KEEP".into());
        map.insert("decision_mode".to_string(), "monetary".into());
        map.insert("q_keep".to_string(), 1.0.into());
        map.insert("q_compact".to_string(), 2.0.into());
        map.insert("predicted_post_compact_L".to_string(), serde_json::Value::Null);
    }
    if behavior == "identity" {
        let epoch = map["epoch"].as_u64().expect("epoch");
        map.insert("epoch".to_string(), (epoch + 1).into());
    }
    if behavior == "protocol" {
        map.insert("protocol_version".to_string(), "wrong".into());
    }
    ExchangeEvent::Line(request.to_string())
}

/// One exchange with a policy process of the given behavior.
fn exchange(behavior: &str, request: Json) -> Result<Json, PolicyError> {
    let mut exchange = Exchange::new(request);
    let line = match exchange.step(ExchangeEvent::ChildRunning) {
        ExchangeAction::Write(line) => line,
        other => panic!("a running child is written to: {other:?}"),
    };
    assert!(line.ends_with('\n'));
    assert!(!line[..line.len() - 1].contains('\n'));
    assert!(matches!(exchange.step(ExchangeEvent::Written), ExchangeAction::ReadLine));
    match exchange.step(policy(behavior, &line)) {
        ExchangeAction::Finish(result) => result,
        other => panic!("a line ends the exchange: {other:?}"),
    }
}

#[test]
fn protocol_version_is_phase8b_v1() {
    assert_eq!(PROTOCOL_VERSION, "phase8b-v1");
}

#[test]
fn rust_starts_child_and_exchanges_h1_and_full_decisions() {
    for mode in ["mpc_h1", "mpc"] {
        let initialize = json(
            &request("initialize", "init", 0)
                .to_text()
                .replace("\"controller_mode\":\"mpc_h1\"", &format!("\"controller_mode\":\"{mode}\"")),
        );
        let initialized = exchange("ok", initialize).expect("handshake");
        assert_eq!(initialized.get_str("controller_mode"), Some(mode));
        let decision = exchange("ok", request("decide", "decision", 0)).expect("decision");
        assert_eq!(decision.get_str("action"), Some("KEEP"));
    }
}

#[test]
fn one_child_preserves_multiple_exchange_epochs() {
    exchange("ok", request("initialize", "init", 0)).expect("handshake");
    assert!(exchange("ok", request("decide", "d0", 0)).is_ok());
    assert!(exchange("ok", request("decide", "d1", 1)).is_ok());
}

#[test]
fn malformed_identity_and_protocol_responses_fail_closed() {
    for (behavior, expected) in [
        ("malformed", "malformed response JSON"),
        ("nonfinite", "malformed response JSON"),
        ("identity", "identity mismatch"),
        ("protocol", "identity mismatch: protocol_version"),
    ] {
        let error = exchange(behavior, request("initialize", "init", 0))
            .expect_err("bad response must fail");
        assert!(error.message.contains(expected), "{error:?}");
    }
}

#[test]
fn child_exit_and_timeout_are_infrastructure_failures() {
    for (behavior, expected) in [("exit", "stdout closed"), ("timeout", "response timeout")] {
        let error = exchange(behavior, request("initialize", "init", 0))
            .expect_err("process failure must fail closed");
        assert!(error.message.contains(expected), "{error:?}");
        assert!(error.message.contains("infrastructure failure"));
    }
}

#[test]
fn a_child_that_has_exited_is_not_written_to() {
    let mut exchange = Exchange::new(request("decide", "d0", 0));
    let action = exchange.step(ExchangeEvent::ChildExited("exit status: 7".to_string()));
    match action {
        ExchangeAction::Finish(Err(error)) => {
            assert_eq!(error.kind, ErrorKind::Other);
            assert_eq!(
                error.message,
                "context policy infrastructure failure: child exited with exit status: 7"
            );
        }
        other => panic!("unexpected {other:?}"),
    }
}

#[test]
fn a_write_timeout_ends_the_exchange() {
    let mut exchange = Exchange::new(request("decide", "d0", 0));
    exchange.step(ExchangeEvent::ChildRunning);
    match exchange.step(ExchangeEvent::WriteTimedOut) {
        ExchangeAction::Finish(Err(error)) => {
            assert_eq!(error.message, "context policy infrastructure failure: write timeout");
        }
        other => panic!("unexpected {other:?}"),
    }
}

#[test]
fn the_request_is_written_as_one_compact_line() {
    let mut exchange = Exchange::new(json(r#"{ "b": [1, 2.5, null], "a": "x\ny" }"#));
    match exchange.step(ExchangeEvent::ChildRunning) {
        ExchangeAction::Write(line) => {
            assert_eq!(line, "{\"a\":\"x\\ny\",\"b\":[1,2.5,null]}\n");
        }
        other => panic!("unexpected {other:?}"),
    }
}

#[test]
fn a_reported_failure_is_passed_on() {
    let asked = request("decide", "d0", 0);
    let reported = json(
        r#"{"type": "infrastructure_error", "error_code": "stale_epoch", "message": "too late"}"#,
    );
    let error = check_response(&asked, &reported).expect_err("a failure is refused");
    assert_eq!(
        error.message,
        "context policy infrastructure failure: stale_epoch: too late"
    );
    let bare = json(r#"{"type": "infrastructure_error", "error_code": 7}"#);
    let error = check_response(&asked, &bare).expect_err("a failure is refused");
    assert_eq!(
        error.message,
        "context policy infrastructure failure: unknown: bridge rejected request"
    );
}

#[test]
fn each_identity_field_must_be_repeated() {
    for key in [
        "protocol_version",
        "request_id",
        "run_id",
        "task_id",
        "replicate_id",
        "thread_id",
        "epoch",
    ] {
        let asked = request("decide", "d0", 3);
        let mut answer = asked.to_value();
        answer.as_object_mut().expect("object").remove(key);
        let error = check_response(&asked, &Json::from_value(&answer))
            .expect_err("a missing field is refused");
        assert_eq!(
            error.message,
            format!("context policy infrastructure failure: response identity mismatch: {key}")
        );
        assert!(check_response(&asked, &asked).is_ok());
    }
}

#[test]
fn a_response_may_leave_out_what_the_request_leaves_out() {
    assert!(check_response(&json("{}"), &json(r#"{"type": "decision"}"#)).is_ok());
    assert!(check_response(&json("{}"), &json("[]")).is_ok());
}

#[test]
fn an_integer_does_not_repeat_a_float() {
    let asked = json(r#"{"epoch": 1}"#);
    assert!(check_response(&asked, &json(r#"{"epoch": 1.0}"#)).is_err());
    assert!(check_response(&asked, &json(r#"{"epoch": 1}"#)).is_ok());
    assert!(check_response(&json(r#"{"epoch": 0.0}"#), &json(r#"{"epoch": -0.0}"#)).is_ok());
}

#[test]
fn numbers_out_of_range_are_malformed() {
    let asked = request("decide", "d0", 0);
    let error = accept_response(&asked, Json::parse(r#"{"q_keep": 1e999}"#))
        .expect_err("a number out of range is refused");
    assert!(error.message.starts_with(
        "context policy infrastructure failure: malformed response JSON: number out of range"
    ));
    assert!(validate_finite(&json(r#"{"a": [1, 2.5, {"b": -1e300}]}"#)).is_ok());
}

#[test]
fn the_launch_follows_the_configuration() {
    let error = BridgeLaunch::from_config(&ContextPolicyConfig::default())
        .expect_err("nothing can be started without a command");
    assert_eq!(error.kind, ErrorKind::InvalidInput);
    assert_eq!(error.message, "MPC bridge_command is missing");

    let mut config = ContextPolicyConfig {
        bridge_command: Some("/usr/bin/policy".to_string()),
        bridge_args: vec!["--serve".to_string(), "ok".to_string()],
        ..Default::default()
    };
    let launch = BridgeLaunch::from_config(&config).expect("launch");
    assert_eq!(launch.command, "/usr/bin/policy");
    assert_eq!(launch.args, vec!["--serve".to_string(), "ok".to_string()]);
    assert_eq!(launch.working_directory, None);
    assert_eq!(launch.timeout_ms, DEFAULT_TIMEOUT_MS);
    assert_eq!(DEFAULT_TIMEOUT_MS, 5_000);

    config.bridge_timeout_ms = Some(20);
    config.bridge_working_directory = Some("/srv".to_string());
    let launch = BridgeLaunch::from_config(&config).expect("launch");
    assert_eq!(launch.timeout_ms, 20);
    assert_eq!(launch.working_directory, Some("/srv".to_string()));
}

#[test]
fn only_an_emergency_may_go_without_an_action() {
    let error = parse_bridge_decision(&json(r#"{"decision_mode": "monetary", "action": null}"#))
        .expect_err("no action outside an emergency");
    assert_eq!(
        error.message,
        "context policy infrastructure failure: bridge decision without a valid action"
    );
    assert!(parse_bridge_decision(&json(r#"{"decision_mode": "emergency"}"#)).is_err());
    let kept = parse_bridge_decision(&json(r#"{"decision_mode": "emergency", "action": "KEEP"}"#))
        .expect("an emergency may act");
    assert_eq!(kept.action, Some(ContextPolicyAction::Keep));
}

#[test]
fn a_predicted_length_is_an_integer() {
    for bad in ["1.5", "\"12\"", "[]", "18446744073709551615"] {
        let response = json(&format!(
            r#"{{"decision_mode": "monetary", "action": "KEEP", "predicted_post_compact_L": {bad}}}"#
        ));
        let error = parse_bridge_decision(&response).expect_err("no length");
        assert_eq!(
            error.message,
            "context policy infrastructure failure: bridge decision with an invalid predicted_post_compact_L"
        );
    }
}
