use context_policy::bridge::parse_bridge_decision;
use context_policy::config::{
    arm_name, native_context_limit_enabled, needs_bridge_terminal_shutdown,
    needs_compact_feedback, uses_external_bridge, uses_formal_prefix_state_k,
    uses_workload_prediction, validate_config, ContextPolicyConfig, ContextPolicyMode,
    ExternalContextPolicyStub,
};
use context_policy::decision::{ContextPolicyAction, ContextPolicyDecision};
use context_policy::error::ErrorKind;
use context_policy::json::Json;
use context_policy::record::ContextPolicyRecord;
use context_policy::seam::{
    clamp_count, estimated_request_tokens, ContextPolicyObservation, ContextPolicySeam, DecideStep, ModelInfo,
    Prompt, PROTOCOL_VERSION,
};
use serde_json::Value;

fn json(text: &str) -> Json {
    Json::parse(text).expect("valid JSON")
}

fn controlled_config(mode: ContextPolicyMode, raw_log_path: &str) -> ContextPolicyConfig {
    ContextPolicyConfig {
        mode,
        fixed_threshold_tokens: (mode == ContextPolicyMode::ControlledFixed).then_some(1),
        external_stub: (mode == ContextPolicyMode::ExternalStub)
            .then_some(ExternalContextPolicyStub::CompactAtEpoch),
        external_stub_compact_at_epoch: (mode == ContextPolicyMode::ExternalStub).then_some(0),
        run_id: Some("run-1".to_string()),
        task_id: Some("task-1".to_string()),
        replicate_id: Some(2),
        raw_log_path: Some(raw_log_path.to_string()),
        ..Default::default()
    }
}

/// A configuration that carries only what the accumulator needs: neither a seed
/// nor a recovery artifact.
fn tcp_config(raw_log_path: &str) -> ContextPolicyConfig {
    ContextPolicyConfig {
        mode: ContextPolicyMode::TcpAccumulator,
        run_id: Some("run-1".to_string()),
        task_id: Some("task-1".to_string()),
        replicate_id: Some(2),
        raw_log_path: Some(raw_log_path.to_string()),
        bridge_command: Some("/usr/bin/policy".to_string()),
        bridge_timeout_ms: Some(1_000),
        controller_config_id: Some("fixture-controller-v1".to_string()),
        z_schema_version: Some("phase4-observable-v1".to_string()),
        ..Default::default()
    }
}

fn approx_token_count(text: &str) -> usize {
    text.len().div_ceil(4)
}

fn prompt() -> Prompt {
    Prompt { input_item_count: 0, tool_count: 0 }
}

fn model_info() -> ModelInfo {
    ModelInfo {
        slug: "model-1".to_string(),
        context_window: Some(100),
        usable_context_window: Some(100),
    }
}

fn observation() -> ContextPolicyObservation {
    ContextPolicyObservation::new(
        &prompt(),
        json(r#"{"input": [], "instructions": "short instructions"}"#),
        &model_info(),
        "thread-1",
        "turn-1",
        "provider-1",
        &approx_token_count,
    )
}

/// The log of a seam, in memory.
struct Log {
    path: Option<String>,
    content: String,
}

impl Log {
    fn new() -> Self {
        Log { path: None, content: String::new() }
    }

    fn append(&mut self, seam: &ContextPolicySeam, record: ContextPolicyRecord) {
        let append = seam.append(self.path.is_some(), record).expect("log path");
        if self.path.is_none() {
            self.path = append.open;
        } else {
            assert_eq!(append.open, None);
        }
        self.content.push_str(&append.line);
    }

    fn records(&self) -> Vec<Value> {
        self.content
            .lines()
            .map(|line| serde_json::from_str::<Value>(line).expect("valid JSONL"))
            .collect()
    }
}

/// What a policy process answers to a request for a decision.
fn diagnostics_policy(behavior: &str, request: &Json) -> Json {
    let mut response = request.to_value();
    let map = response.as_object_mut().expect("object");
    if map["type"] == "initialize" {
        map.insert("type".to_string(), "initialized".into());
    } else {
        map.insert("type".to_string(), "decision".into());
        map.insert("action".to_string(), "KEEP".into());
        map.insert("decision_mode".to_string(), "tcp_accumulator".into());
        map.insert("predicted_post_compact_L".to_string(), Value::Null);
        if behavior == "with_diagnostics" {
            map.insert("diagnostics".to_string(), tcp_bridge_diagnostics().to_value());
        }
    }
    Json::from_value(&response)
}

fn tcp_bridge_diagnostics() -> Json {
    json(
        r#"{
        "controller_mode": "tcp_accumulator",
        "rent_increment": 7,
        "accumulator_before_increment": 11,
        "accumulator_after_increment": 18,
        "buy_price": 42,
        "summary_cost": 3,
        "cache_loss_diagnostic": 5,
        "predicted_postcompact_length": 900,
        "keep_feasible": true,
        "compact_feasible": true,
        "decision_mode": "tcp_accumulator"
    }"#,
    )
}

/// Decides with a policy process of the given behavior and records it.
fn decide_with_policy(
    seam: &mut ContextPolicySeam,
    log: &mut Log,
    behavior: &str,
) -> ContextPolicyDecision {
    let (opening, observation, request) = match seam.decide(0, observation()) {
        DecideStep::Ask { opening, observation, request } => (opening, observation, request),
        other => panic!("a policy process is asked: {other:?}"),
    };
    let opening = opening.expect("the first request opens the exchange");
    seam.check_initialized(&diagnostics_policy(behavior, &opening)).expect("handshake");
    let response = diagnostics_policy(behavior, &request);
    let (decision, record) = seam
        .decide_with_response(0, observation, &response)
        .expect("tcp decision");
    log.append(seam, record);
    decision
}

#[test]
fn fixed_and_external_stub_share_decision_and_recording_seam() {
    for (mode, filename) in [
        (ContextPolicyMode::ControlledFixed, "/tmp/fixed.jsonl"),
        (ContextPolicyMode::ExternalStub, "/tmp/stub.jsonl"),
    ] {
        let seam = ContextPolicySeam::new(controlled_config(mode, filename));
        let mut log = Log::new();
        let (decision, record) = match seam.decide(0, observation()) {
            DecideStep::Record { decision, record } => (decision, record),
            other => panic!("a decision in process is recorded: {other:?}"),
        };
        assert_eq!(decision.action, Some(ContextPolicyAction::Compact));
        log.append(&seam, record);
        let ready = seam
            .record_ready_to_invoke(decision, observation())
            .expect("record invocation");
        log.append(&seam, ready);

        assert_eq!(log.path, Some(filename.to_string()));
        let records = log.records();
        assert_eq!(records.len(), 2);
        assert_eq!(records[0]["event"], "decision");
        assert_eq!(records[0]["action"], "COMPACT");
        assert_eq!(records[0]["compaction_reason"], "context_limit");
        assert_eq!(records[1]["event"], "ready_to_invoke");
        assert_eq!(records[1]["epoch"], 0);

        assert_eq!(records[0]["decision_diagnostics"], Value::Null);
        assert!(records[1].get("decision_diagnostics").is_none());
    }
}

#[test]
fn tcp_bridge_diagnostics_reach_the_decision_record() {
    let mut seam = ContextPolicySeam::new(tcp_config("/tmp/tcp-diagnostics.jsonl"));
    let mut log = Log::new();
    let decision = decide_with_policy(&mut seam, &mut log, "with_diagnostics");
    assert_eq!(decision.action, Some(ContextPolicyAction::Keep));
    let ready = seam
        .record_ready_to_invoke(decision, observation())
        .expect("record invocation");
    log.append(&seam, ready);

    let records = log.records();
    assert_eq!(records.len(), 2);
    assert_eq!(records[0]["decision_diagnostics"], tcp_bridge_diagnostics().to_value());
}

#[test]
fn a_bridge_that_supplies_no_diagnostics_records_null_not_defaults() {
    let mut seam = ContextPolicySeam::new(tcp_config("/tmp/tcp-bare.jsonl"));
    let mut log = Log::new();
    let decision = decide_with_policy(&mut seam, &mut log, "bare");
    let ready = seam
        .record_ready_to_invoke(decision, observation())
        .expect("record invocation");
    log.append(&seam, ready);

    let records = log.records();
    assert_eq!(records[0]["decision_diagnostics"], Value::Null);
    assert_eq!(records[0]["decision_mode"], "tcp_accumulator");
}

#[test]
fn controlled_fixed_uses_formal_l_not_the_coarse_diagnostic_estimate() {
    let mut config = controlled_config(ContextPolicyMode::ControlledFixed, "/tmp/fixed-formal-l.jsonl");
    config.fixed_threshold_tokens = Some(50);
    let seam = ContextPolicySeam::new(config);

    let mut below = observation();
    below.estimated_input_tokens = 500;
    below.formal_input_tokens = 49;
    match seam.decide(0, below) {
        DecideStep::Record { decision, .. } => {
            assert_eq!(decision.action, Some(ContextPolicyAction::Keep));
        }
        other => panic!("unexpected {other:?}"),
    }

    let mut at_threshold = observation();
    at_threshold.estimated_input_tokens = 1;
    at_threshold.formal_input_tokens = 50;
    match seam.decide(1, at_threshold) {
        DecideStep::Record { decision, .. } => {
            assert_eq!(decision.action, Some(ContextPolicyAction::Compact));
        }
        other => panic!("unexpected {other:?}"),
    }
}

#[test]
fn planner_emergency_is_a_typed_actionless_decision() {
    let response = json(
        r#"{
        "decision_mode": "emergency",
        "action": null,
        "predicted_post_compact_L": null
    }"#,
    );
    let parsed = parse_bridge_decision(&response).expect("valid planner emergency");
    assert_eq!(parsed.action, None);
    assert_eq!(parsed.predicted, None);
    assert_eq!(parsed.mode, "emergency");
}

#[test]
fn tcp_bridge_diagnostics_are_preserved_verbatim() {
    let diagnostics = tcp_bridge_diagnostics();
    let response = Json::Object(vec![
        ("type".to_string(), Json::text("decision")),
        ("decision_mode".to_string(), Json::text("tcp_accumulator")),
        ("action".to_string(), Json::text("KEEP")),
        ("predicted_post_compact_L".to_string(), Json::Null),
        ("diagnostics".to_string(), diagnostics.copy()),
    ]);

    let parsed = parse_bridge_decision(&response).expect("valid tcp decision");

    assert_eq!(parsed.action, Some(ContextPolicyAction::Keep));
    assert_eq!(parsed.mode, "tcp_accumulator");
    let carried = parsed.diagnostics.expect("diagnostics");
    assert!(carried.equals(&diagnostics));
    assert_eq!(carried.to_value(), diagnostics.to_value());
}

#[test]
fn mpc_style_diagnostics_survive_without_tcp_specific_host_logic() {
    let diagnostics = json(
        r#"{
        "q_keep": 1.5,
        "q_compact": 2.25,
        "planner": {"H": 2, "delta": 0.5, "M": 64},
        "scenarios": [{"length": 10, "weight": 0.5}, {"length": 20, "weight": 0.5}],
        "workload_estimator_version": "phase8d-v1",
        "reset_estimator_version": "phase8d-v1"
    }"#,
    );
    let response = Json::Object(vec![
        ("type".to_string(), Json::text("decision")),
        ("decision_mode".to_string(), Json::text("monetary")),
        ("action".to_string(), Json::text("COMPACT")),
        ("predicted_post_compact_L".to_string(), Json::unsigned(1234)),
        ("diagnostics".to_string(), diagnostics.copy()),
    ]);

    let parsed = parse_bridge_decision(&response).expect("valid mpc decision");

    assert_eq!(parsed.action, Some(ContextPolicyAction::Compact));
    assert_eq!(parsed.predicted, Some(1234));
    assert_eq!(parsed.mode, "monetary");
    assert_eq!(
        parsed.diagnostics.expect("diagnostics").to_value(),
        diagnostics.to_value()
    );
}

#[test]
fn a_bridge_response_without_diagnostics_carries_none() {
    let response = json(
        r#"{
        "type": "decision",
        "decision_mode": "monetary",
        "action": "KEEP",
        "predicted_post_compact_L": null
    }"#,
    );

    let parsed = parse_bridge_decision(&response).expect("valid decision");

    assert!(
        parsed.diagnostics.is_none(),
        "an absent carrier must not be fabricated"
    );
}

#[test]
fn mandatory_fields_stay_fail_closed_when_diagnostics_are_present() {
    let diagnostics = tcp_bridge_diagnostics().to_text();
    for response in [
        format!(r#"{{"action": "KEEP", "diagnostics": {diagnostics}}}"#),
        format!(
            r#"{{"decision_mode": "monetary", "action": "SIDEWAYS",
                "diagnostics": {diagnostics}}}"#
        ),
        format!(
            r#"{{"decision_mode": "monetary", "action": "COMPACT",
                "predicted_post_compact_L": null, "diagnostics": {diagnostics}}}"#
        ),
    ] {
        assert!(
            parse_bridge_decision(&json(&response)).is_err(),
            "a decision missing a mandatory field was accepted: {response}"
        );
    }
}

#[test]
fn native_fixed_bypasses_the_controlled_seam_and_logging() {
    let config = ContextPolicyConfig {
        raw_log_path: Some("/tmp/native.jsonl".to_string()),
        ..Default::default()
    };
    let seam = ContextPolicySeam::new(config.clone());

    assert!(matches!(seam.decide(0, observation()), DecideStep::Bypass));
    assert!(native_context_limit_enabled(&config));
    assert!(!seam.is_controlled());
    let decision = ContextPolicyDecision { epoch: 0, action: Some(ContextPolicyAction::Keep) };
    assert!(seam.record_ready_to_invoke(decision, observation()).is_none());
}

#[test]
fn controlled_configuration_is_fail_closed() {
    let path = "/tmp/policy.jsonl";
    let controlled = controlled_config(ContextPolicyMode::ControlledFixed, path);
    assert!(validate_config(&controlled, false).is_ok());
    assert!(validate_config(&controlled, true).is_err());

    let missing_identity = ContextPolicyConfig {
        mode: ContextPolicyMode::ControlledFixed,
        fixed_threshold_tokens: Some(10),
        raw_log_path: Some(path.to_string()),
        ..Default::default()
    };
    assert!(validate_config(&missing_identity, false).is_err());

    let request_log_without_identity = ContextPolicyConfig {
        request_raw_log_path: controlled.raw_log_path,
        ..Default::default()
    };
    assert!(validate_config(&request_log_without_identity, false).is_err());

    let schedule_without_request_log = ContextPolicyConfig {
        pricing_schedule_id: Some("fixture-price-v1".to_string()),
        ..Default::default()
    };
    assert!(validate_config(&schedule_without_request_log, false).is_err());
}

#[test]
fn tcp_shares_bridge_capabilities_but_is_not_an_mpc_mode() {
    for mode in [
        ContextPolicyMode::TcpAccumulator,
        ContextPolicyMode::MpcH1,
        ContextPolicyMode::Mpc,
    ] {
        assert!(uses_external_bridge(mode), "{mode:?} uses the bridge");
        assert!(needs_compact_feedback(mode), "{mode:?} needs feedback");
        assert!(needs_bridge_terminal_shutdown(mode), "{mode:?} needs teardown");
        assert!(
            uses_formal_prefix_state_k(mode),
            "{mode:?} observes the formal reusable prefix"
        );
    }

    assert!(!uses_workload_prediction(ContextPolicyMode::TcpAccumulator));
    assert!(uses_workload_prediction(ContextPolicyMode::MpcH1));
    assert!(uses_workload_prediction(ContextPolicyMode::Mpc));

    for mode in [
        ContextPolicyMode::NativeFixed,
        ContextPolicyMode::ControlledFixed,
        ContextPolicyMode::ExternalStub,
    ] {
        assert!(!uses_external_bridge(mode), "{mode:?} is in-process");
        assert!(!needs_compact_feedback(mode));
        assert!(!needs_bridge_terminal_shutdown(mode));
        assert!(!uses_formal_prefix_state_k(mode));
        assert!(!uses_workload_prediction(mode));
    }
}

#[test]
fn tcp_accumulator_bridge_configuration_is_fail_closed() {
    let valid = tcp_config("/tmp/tcp.jsonl");
    assert!(validate_config(&valid, false).is_ok());
    assert!(validate_config(&valid, true).is_err());

    let cases: Vec<(&str, ContextPolicyConfig)> = vec![
        (
            "bridge_command",
            ContextPolicyConfig { bridge_command: None, ..valid.clone() },
        ),
        (
            "controller_config_id",
            ContextPolicyConfig { controller_config_id: None, ..valid.clone() },
        ),
        (
            "z_schema_version",
            ContextPolicyConfig {
                z_schema_version: Some("invented-v1".to_string()),
                ..valid.clone()
            },
        ),
        (
            "timeout",
            ContextPolicyConfig { bridge_timeout_ms: Some(0), ..valid.clone() },
        ),
        (
            "fixed_threshold_tokens",
            ContextPolicyConfig { fixed_threshold_tokens: Some(10), ..valid.clone() },
        ),
        (
            "external_stub",
            ContextPolicyConfig {
                external_stub: Some(ExternalContextPolicyStub::AlwaysKeep),
                ..valid
            },
        ),
    ];
    for (name, config) in cases {
        assert!(
            validate_config(&config, false).is_err(),
            "tcp_accumulator must reject an incomplete/inconsistent config ({name})"
        );
    }
}

#[test]
fn tcp_accumulator_does_not_require_mpc_only_provenance() {
    let tcp = tcp_config("/tmp/tcp-provenance.jsonl");
    assert!(tcp.seed.is_none() && tcp.recovery_artifact_id.is_none());

    let carrying = ContextPolicyConfig {
        seed: Some(7),
        recovery_artifact_id: Some("fixture-recovery-v1".to_string()),
        ..tcp.clone()
    };
    assert!(validate_config(&carrying, false).is_ok());

    let mpc_base = ContextPolicyConfig {
        mode: ContextPolicyMode::MpcH1,
        seed: Some(7),
        recovery_artifact_id: Some("fixture-recovery-v1".to_string()),
        ..tcp
    };
    assert!(validate_config(&mpc_base, false).is_ok());
    for (name, config) in [
        ("seed", ContextPolicyConfig { seed: None, ..mpc_base.clone() }),
        (
            "recovery_artifact_id",
            ContextPolicyConfig { recovery_artifact_id: None, ..mpc_base },
        ),
    ] {
        assert!(
            validate_config(&config, false).is_err(),
            "MPC bridge configuration must still require {name}"
        );
    }
}

/// The message with which a configuration is refused.
fn complaint(config: &ContextPolicyConfig) -> String {
    let error = validate_config(config, false).expect_err("the configuration is refused");
    assert_eq!(error.kind, ErrorKind::InvalidInput);
    error.message
}

#[test]
fn every_complaint_about_a_configuration_is_given() {
    let fixed = controlled_config(ContextPolicyMode::ControlledFixed, "/tmp/log");
    let stub = controlled_config(ContextPolicyMode::ExternalStub, "/tmp/log");
    let bridge = tcp_config("/tmp/log");

    let native = ContextPolicyConfig {
        mode: ContextPolicyMode::NativeFixed,
        request_raw_log_path: Some("/tmp/requests".to_string()),
        ..fixed.clone()
    };
    assert!(validate_config(&native, false).is_ok());
    for config in [
        ContextPolicyConfig { run_id: None, ..native.clone() },
        ContextPolicyConfig { task_id: None, ..native.clone() },
        ContextPolicyConfig { replicate_id: None, ..native.clone() },
    ] {
        assert_eq!(
            complaint(&config),
            "request_raw_log_path requires run_id, task_id, and replicate_id"
        );
    }
    let unnamed = ContextPolicyConfig {
        run_id: Some(String::new()),
        task_id: Some(String::new()),
        ..native
    };
    assert!(validate_config(&unnamed, false).is_ok());
    assert_eq!(
        complaint(&ContextPolicyConfig {
            request_raw_log_path: Some("/tmp/requests".to_string()),
            task_id: None,
            ..fixed.clone()
        }),
        "controlled context policy modes require run_id, task_id, replicate_id, and raw_log_path"
    );
    assert_eq!(
        complaint(&ContextPolicyConfig {
            pricing_schedule_id: Some("price".to_string()),
            fixed_threshold_tokens: None,
            ..fixed.clone()
        }),
        "controlled_fixed requires a positive fixed_threshold_tokens"
    );
    assert_eq!(
        complaint(&ContextPolicyConfig {
            pricing_schedule_id: Some("price".to_string()),
            ..fixed.clone()
        }),
        "pricing_schedule_id requires request_raw_log_path"
    );
    assert_eq!(
        validate_config(&fixed, true).expect_err("budget").message,
        "controlled context policy modes require TokenBudget to be disabled"
    );
    for config in [
        ContextPolicyConfig { run_id: None, ..fixed.clone() },
        ContextPolicyConfig { run_id: Some(String::new()), ..fixed.clone() },
        ContextPolicyConfig { task_id: Some(String::new()), ..fixed.clone() },
        ContextPolicyConfig { replicate_id: None, ..fixed.clone() },
        ContextPolicyConfig { raw_log_path: None, ..fixed.clone() },
    ] {
        assert_eq!(
            complaint(&config),
            "controlled context policy modes require run_id, task_id, replicate_id, and raw_log_path"
        );
    }
    for tokens in [None, Some(0), Some(-1)] {
        assert_eq!(
            complaint(&ContextPolicyConfig { fixed_threshold_tokens: tokens, ..fixed.clone() }),
            "controlled_fixed requires a positive fixed_threshold_tokens"
        );
    }
    assert_eq!(
        complaint(&ContextPolicyConfig {
            external_stub_compact_at_epoch: Some(1),
            ..fixed.clone()
        }),
        "controlled_fixed cannot include external stub settings"
    );
    assert_eq!(
        complaint(&ContextPolicyConfig { fixed_threshold_tokens: Some(1), ..stub.clone() }),
        "external_stub cannot include fixed_threshold_tokens"
    );
    assert_eq!(
        complaint(&ContextPolicyConfig {
            external_stub: Some(ExternalContextPolicyStub::AlwaysKeep),
            ..stub.clone()
        }),
        "always_keep cannot include external_stub_compact_at_epoch"
    );
    assert_eq!(
        complaint(&ContextPolicyConfig { external_stub_compact_at_epoch: None, ..stub.clone() }),
        "compact_at_epoch requires external_stub_compact_at_epoch"
    );
    assert_eq!(
        complaint(&ContextPolicyConfig { external_stub: None, ..stub }),
        "external_stub requires an explicit external_stub policy"
    );
    assert_eq!(
        complaint(&ContextPolicyConfig { controller_config_id: Some(String::new()), ..bridge.clone() }),
        "bridge modes require controller_config_id"
    );
    assert_eq!(
        complaint(&ContextPolicyConfig { bridge_command: None, ..bridge.clone() }),
        "bridge modes require bridge_command"
    );
    assert_eq!(
        complaint(&ContextPolicyConfig { bridge_timeout_ms: Some(0), ..bridge.clone() }),
        "bridge modes require a positive bridge_timeout_ms"
    );
    assert_eq!(
        complaint(&ContextPolicyConfig { z_schema_version: None, ..bridge.clone() }),
        "bridge modes require a supported z_schema_version"
    );
    assert_eq!(
        complaint(&ContextPolicyConfig { fixed_threshold_tokens: Some(5), ..bridge.clone() }),
        "bridge modes cannot include fixed_threshold_tokens"
    );
    assert_eq!(
        complaint(&ContextPolicyConfig { external_stub_compact_at_epoch: Some(5), ..bridge.clone() }),
        "bridge modes cannot include external stub settings"
    );
    assert_eq!(
        complaint(&ContextPolicyConfig { mode: ContextPolicyMode::Mpc, ..bridge.clone() }),
        "MPC modes require seed"
    );
    assert_eq!(
        complaint(&ContextPolicyConfig {
            mode: ContextPolicyMode::Mpc,
            seed: Some(0),
            recovery_artifact_id: Some(String::new()),
            ..bridge
        }),
        "MPC modes require recovery_artifact_id"
    );
}

#[test]
fn the_native_mode_takes_any_controlled_settings() {
    let config = ContextPolicyConfig {
        fixed_threshold_tokens: Some(-5),
        external_stub: Some(ExternalContextPolicyStub::AlwaysKeep),
        ..Default::default()
    };
    assert!(validate_config(&config, true).is_ok());
}

#[test]
fn arm_names_are_fixed() {
    let names: Vec<&str> = [
        ContextPolicyMode::NativeFixed,
        ContextPolicyMode::ControlledFixed,
        ContextPolicyMode::ExternalStub,
        ContextPolicyMode::TcpAccumulator,
        ContextPolicyMode::MpcH1,
        ContextPolicyMode::Mpc,
    ]
    .into_iter()
    .map(arm_name)
    .collect();
    assert_eq!(
        names,
        vec!["native_fixed", "controlled_fixed", "external_stub", "tcp_accumulator", "mpc_h1", "mpc"]
    );
}

#[test]
fn a_stub_compacts_at_its_epoch_only() {
    let seam = ContextPolicySeam::new(ContextPolicyConfig {
        external_stub_compact_at_epoch: Some(3),
        ..controlled_config(ContextPolicyMode::ExternalStub, "/tmp/log")
    });
    for epoch in 0..6 {
        match seam.decide(epoch, observation()) {
            DecideStep::Record { decision, .. } => {
                let expected = if epoch == 3 {
                    ContextPolicyAction::Compact
                } else {
                    ContextPolicyAction::Keep
                };
                assert_eq!(decision, ContextPolicyDecision { epoch, action: Some(expected) });
            }
            other => panic!("unexpected {other:?}"),
        }
    }
    let keeping = ContextPolicySeam::new(ContextPolicyConfig {
        external_stub: Some(ExternalContextPolicyStub::AlwaysKeep),
        external_stub_compact_at_epoch: None,
        ..controlled_config(ContextPolicyMode::ExternalStub, "/tmp/log")
    });
    match keeping.decide(0, observation()) {
        DecideStep::Record { decision, record } => {
            assert_eq!(decision.action, Some(ContextPolicyAction::Keep));
            let document = record.document().to_value();
            assert_eq!(document["action"], "KEEP");
            assert_eq!(document["compaction_reason"], Value::Null);
        }
        other => panic!("unexpected {other:?}"),
    }
}

#[test]
fn tokens_are_estimated_on_the_compact_text() {
    let request = json(r#"{ "input": [], "instructions": "short instructions" }"#);
    let text = r#"{"input":[],"instructions":"short instructions"}"#;
    assert_eq!(estimated_request_tokens(&request, &|t: &str| {
        assert_eq!(t, text);
        t.len()
    }), 48);
    assert_eq!(observation().estimated_input_tokens, 12);
    assert_eq!(observation().formal_input_tokens, 12);
    assert_eq!(estimated_request_tokens(&request, &|_: &str| usize::MAX), i64::MAX);
    assert_eq!(clamp_count(0), 0);
    assert_eq!(clamp_count(i64::MAX as usize), i64::MAX);
}

#[test]
fn a_record_says_what_was_observed_in_a_fixed_order() {
    let config = controlled_config(ContextPolicyMode::ControlledFixed, "/tmp/log");
    let seam = ContextPolicySeam::new(config);
    let mut observed = observation();
    observed.input_item_count = 4;
    observed.model_visible_tool_count = 5;
    let record = match seam.decide(7, observed) {
        DecideStep::Record { record, .. } => record,
        other => panic!("unexpected {other:?}"),
    };
    let document = record.document();
    let keys: Vec<&str> = match &document {
        Json::Object(pairs) => pairs.iter().map(|(key, _)| key.as_str()).collect(),
        other => panic!("a record is an object: {other:?}"),
    };
    assert_eq!(
        keys,
        vec![
            "event",
            "protocol_version",
            "run_id",
            "task_id",
            "replicate_id",
            "thread_id",
            "turn_id",
            "epoch",
            "policy_mode",
            "action",
            "compaction_reason",
            "decision_diagnostics",
            "estimated_input_tokens",
            "reusable_prefix_tokens",
            "nominal_context_window",
            "usable_context_window",
            "input_item_count",
            "model_visible_tool_count",
            "model_id",
            "provider_id",
            "measurement",
            "model_visible_request",
        ]
    );
    let value = document.to_value();
    assert_eq!(value["protocol_version"], PROTOCOL_VERSION);
    assert_eq!(value["protocol_version"], "phase8a-v1");
    assert_eq!(value["run_id"], "run-1");
    assert_eq!(value["task_id"], "task-1");
    assert_eq!(value["replicate_id"], 2);
    assert_eq!(value["thread_id"], "thread-1");
    assert_eq!(value["turn_id"], "turn-1");
    assert_eq!(value["epoch"], 7);
    assert_eq!(value["policy_mode"], "controlled_fixed");
    assert!(value.get("decision_mode").is_none());
    assert_eq!(value["estimated_input_tokens"], 12);
    assert_eq!(value["reusable_prefix_tokens"], Value::Null);
    assert_eq!(value["nominal_context_window"], 100);
    assert_eq!(value["usable_context_window"], 100);
    assert_eq!(value["input_item_count"], 4);
    assert_eq!(value["model_visible_tool_count"], 5);
    assert_eq!(value["model_id"], "model-1");
    assert_eq!(value["provider_id"], "provider-1");
    assert_eq!(value["measurement"], "codex_coarse_prompt_estimate_v1");
    assert_eq!(value["model_visible_request"]["instructions"], "short instructions");
}

#[test]
fn an_emergency_is_recorded_without_an_action() {
    let seam = ContextPolicySeam::new(tcp_config("/tmp/log"));
    let response = json(r#"{"decision_mode": "emergency", "action": null}"#);
    let (decision, record) = seam
        .decide_with_response(4, observation(), &response)
        .expect("an emergency is a decision");
    assert_eq!(decision, ContextPolicyDecision { epoch: 4, action: None });
    let value = record.document().to_value();
    assert_eq!(value["action"], Value::Null);
    assert_eq!(value["decision_mode"], "emergency");
    assert_eq!(value["compaction_reason"], Value::Null);
}

#[test]
fn a_malformed_decision_is_not_recorded() {
    let seam = ContextPolicySeam::new(tcp_config("/tmp/log"));
    let error = seam
        .decide_with_response(4, observation(), &json(r#"{"action": "KEEP"}"#))
        .expect_err("a decision names its mode");
    assert_eq!(error.kind, ErrorKind::Other);
    assert_eq!(
        error.message,
        "context policy infrastructure failure: bridge decision without decision_mode"
    );
}

#[test]
fn the_handshake_repeats_the_mode() {
    let mut seam = ContextPolicySeam::new(tcp_config("/tmp/log"));
    let request = seam.initialize_request("thread-1", 0);
    assert_eq!(request.get_str("type"), Some("initialize"));
    assert_eq!(request.get_str("request_id"), Some("run-1:initialize:0"));
    assert_eq!(request.get_str("controller_mode"), Some("tcp_accumulator"));
    assert_eq!(request.get_u64("replicate_id"), Some(2));
    let other = json(r#"{"type": "initialized", "controller_mode": "mpc"}"#);
    assert_eq!(
        seam.check_initialized(&other).expect_err("another mode").message,
        "context policy infrastructure failure: bridge initialized another controller_mode"
    );
    let decision = json(r#"{"type": "decision"}"#);
    assert_eq!(
        seam.check_initialized(&decision).expect_err("no handshake").message,
        "context policy infrastructure failure: bridge did not initialize"
    );
}

#[test]
fn a_log_without_a_path_is_refused() {
    let seam = ContextPolicySeam::new(ContextPolicyConfig {
        raw_log_path: None,
        ..controlled_config(ContextPolicyMode::ControlledFixed, "/tmp/log")
    });
    let decision = ContextPolicyDecision { epoch: 6, action: Some(ContextPolicyAction::Keep) };
    let ready = || {
        seam.record_ready_to_invoke(decision, observation())
            .expect("record invocation")
    };
    let error = seam.append(false, ready()).expect_err("no path");
    assert_eq!(error.kind, ErrorKind::Other);
    assert_eq!(error.message, "controlled policy log path is missing");
    let open = seam.append(true, ready()).expect("an open log needs no path");
    assert_eq!(
        open.line,
        concat_line(
            r#"{"event":"ready_to_invoke","protocol_version":"phase8a-v1","run_id":"run-1","task_id":"task-1","replicate_id":2,"thread_id":"thread-1","turn_id":"turn-1","epoch":6,"policy_mode":"controlled_fixed","action":"KEEP","estimated_input_tokens":12,"reusable_prefix_tokens":null,"nominal_context_window":100,"usable_context_window":100,"input_item_count":0,"model_visible_tool_count":0,"model_id":"model-1","provider_id":"provider-1","measurement":"codex_coarse_prompt_estimate_v1","model_visible_request":{"input":[],"instructions":"short instructions"}}"#
        )
    );
    assert_eq!(open.open, None);
}

fn concat_line(text: &str) -> String {
    format!("{text}\n")
}

#[test]
fn the_line_of_a_decision_has_its_entries_in_order() {
    let seam = ContextPolicySeam::new(tcp_config("/tmp/log"));
    let response = json(
        r#"{"decision_mode": "tcp_accumulator", "action": "COMPACT",
            "predicted_post_compact_L": 9, "diagnostics": {"z": 1, "a": "x\ny"}}"#,
    );
    let decide = || {
        seam.decide_with_response(1, observation(), &response)
            .expect("decision")
            .1
    };
    let line = decide().line();
    assert!(line.starts_with(
        r#"{"event":"decision","protocol_version":"phase8a-v1","run_id":"run-1","task_id":"task-1","replicate_id":2,"thread_id":"thread-1","turn_id":"turn-1","epoch":1,"policy_mode":"tcp_accumulator","action":"COMPACT","compaction_reason":"context_limit","decision_mode":"tcp_accumulator","decision_diagnostics":{"a":"x\ny","z":1},"estimated_input_tokens":12,"#
    ));
    assert_eq!(line.matches('\n').count(), 1);
    let read: Value = serde_json::from_str(&line).expect("JSON");
    assert_eq!(read, decide().document().to_value());
}

#[test]
fn the_opening_request_comes_first_and_once() {
    let mut seam = ContextPolicySeam::new(tcp_config("/tmp/log"));
    let opening = |seam: &ContextPolicySeam, epoch: u64| match seam.decide(epoch, observation()) {
        DecideStep::Ask { opening, request, .. } => {
            assert_eq!(request.get_str("type"), Some("decide"));
            opening
        }
        other => panic!("a policy process is asked: {other:?}"),
    };
    let first = opening(&seam, 3).expect("an opening request");
    assert_eq!(first.get_str("type"), Some("initialize"));
    assert_eq!(first.get_u64("epoch"), Some(3));
    assert!(seam.check_initialized(&json(r#"{"type": "decision"}"#)).is_err());
    assert!(opening(&seam, 4).is_some());
    seam.check_initialized(&diagnostics_policy("bare", &first)).expect("handshake");
    assert!(opening(&seam, 4).is_none());
    assert!(seam.check_initialized(&json("{}")).is_err());
    assert!(opening(&seam, 5).is_none());
}
