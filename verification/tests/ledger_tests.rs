use context_policy::config::{ContextPolicyConfig, ContextPolicyMode};
use context_policy::error::ErrorKind;
use context_policy::event::{
    attempt_identity, AttemptIdentity, LedgerIdentity, RawRequestHandle, RequestDescriptor,
    RequestLinkage, RequestPurpose, RAW_REQUEST_EVENT_SCHEMA_VERSION,
};
use context_policy::ledger::RawRequestLedger;
use context_policy::scan::{try_scan_existing, Counters};
use context_policy::usage::{provider_usage, TokenUsage};
use serde_json::{Number, Value};

fn config() -> ContextPolicyConfig {
    ContextPolicyConfig {
        mode: ContextPolicyMode::Mpc,
        run_id: Some("run".into()),
        task_id: Some("task".into()),
        replicate_id: Some(4),
        request_raw_log_path: Some("/tmp/requests.raw.jsonl".into()),
        pricing_schedule_id: Some("fixture-price-v1".into()),
        ..Default::default()
    }
}

fn descriptor<'a>() -> RequestDescriptor<'a> {
    RequestDescriptor {
        purpose: RequestPurpose::Serve,
        thread_id: "thread",
        session_id: Some("session"),
        turn_id: Some("turn"),
        provider_id: "fixture-provider",
        model_id: "fixture-model",
        linkage: RequestLinkage {
            decision_epoch: Some(2),
            decision_action: Some("KEEP"),
            ..Default::default()
        },
    }
}

fn open(config: &ContextPolicyConfig, content: &str) -> RawRequestLedger {
    RawRequestLedger::try_from_config(config, Some(content))
        .expect("indices in range")
        .expect("ledger")
        .expect("enabled")
}

fn begin(ledger: &mut RawRequestLedger, content: &mut String) -> RawRequestHandle {
    let (handle, line) = ledger.begin_request(descriptor());
    content.push_str(&line);
    handle
}

fn rows(content: &str) -> Vec<Value> {
    content
        .lines()
        .map(|line| serde_json::from_str::<Value>(line).expect("json"))
        .collect()
}

fn usage() -> TokenUsage {
    TokenUsage {
        input_tokens: 10,
        cached_input_tokens: 3,
        cache_write_input_tokens: 1,
        output_tokens: 6,
        reasoning_output_tokens: 2,
    }
}

#[test]
fn emits_one_logical_lifecycle_with_raw_usage() {
    let mut content = String::new();
    let mut ledger = open(&config(), &content);
    let request = begin(&mut ledger, &mut content);
    content.push_str(&ledger.attempt_started(&request, 0, None));
    content.push_str(&ledger.completed(
        &request,
        Some("response"),
        Some(&usage()),
        Some(4),
        Number::from_f64(0.25),
        "completed",
        None,
    ));
    let rows = rows(&content);
    assert_eq!(rows.len(), 3);
    assert!(rows.iter().all(|row| row["logical_request_id"] == "run:request:0"));
    assert_eq!(rows[2]["provider_usage"]["uncached_input_tokens"], 6);
    assert_eq!(rows[2]["provider_usage"]["billed_output_tokens"], 6);
    assert_eq!(rows[2]["provider_usage"]["reasoning_tokens"], 2);
    assert_eq!(rows[2]["visible_output_tokens"], 4);
    assert_eq!(rows[2]["latency_seconds"], 0.25);
}

#[test]
fn retry_stays_one_request_and_resume_continues_indices() {
    let cfg = config();
    let mut content = String::new();
    let mut ledger = open(&cfg, &content);
    let request = begin(&mut ledger, &mut content);
    content.push_str(&ledger.attempt_started(&request, 0, None));
    content.push_str(&ledger.attempt_failed(&request, 0, "rate_limit", "429", None));
    content.push_str(&ledger.retry_scheduled(&request, 0, Number::from_f64(1.0)));
    content.push_str(&ledger.attempt_started(&request, 1, None));
    content.push_str(&ledger.failed(&request, "provider", "unavailable", None, None));
    let written = ledger.next_indices();
    drop(ledger);

    let mut resumed = open(&cfg, &content);
    assert_eq!(resumed.next_indices(), written);
    let next = begin(&mut resumed, &mut content);
    assert_eq!(next.request_index, 1);
    assert_eq!(next.logical_request_id, "run:request:1");
    let indices = rows(&content)
        .iter()
        .map(|row| row["event_index"].as_u64().expect("index"))
        .collect::<Vec<_>>();
    assert_eq!(indices, (0..indices.len() as u64).collect::<Vec<_>>());
}

#[test]
fn fallback_attempt_records_its_own_provider_and_model_identity() {
    let mut content = String::new();
    let mut ledger = open(&config(), &content);
    let request = begin(&mut ledger, &mut content);
    content.push_str(&ledger.attempt_started(&request, 0, None));
    content.push_str(&ledger.attempt_failed(
        &request,
        0,
        "provider_context_rejection",
        "overflow",
        None,
    ));
    let fallback = AttemptIdentity {
        provider_id: "fallback-provider".into(),
        model_id: "fallback-model".into(),
        pricing_schedule_id: None,
    };
    content.push_str(&ledger.attempt_started(&request, 1, Some(&fallback)));
    content.push_str(&ledger.completed(
        &request,
        Some("response"),
        None,
        Some(1),
        Number::from_f64(1.0),
        "completed",
        Some(&fallback),
    ));
    let rows = rows(&content);
    assert_eq!(rows.len(), 5);
    assert!(rows.iter().all(|row| row["logical_request_id"] == "run:request:0"));
    assert!(rows.iter().all(|row| row["model_id"] == "fixture-model"));
    assert!(rows[1].get("attempt_model_id").is_none());
    assert_eq!(rows[3]["attempt_model_id"], "fallback-model");
    assert_eq!(rows[3]["attempt_provider_id"], "fallback-provider");
    assert_eq!(rows[4]["attempt_model_id"], "fallback-model");
    assert_eq!(rows[4]["attempt_provider_id"], "fallback-provider");
    assert!(rows[4]["attempt_pricing_schedule_id"].is_null());

    let mut resumed = open(&config(), &content);
    let next = begin(&mut resumed, &mut content);
    assert_eq!(next.request_index, 1);
}

/// The line of one request that has started, with further fields.
fn started(more: &str) -> String {
    format!(
        r#"{{"schema_version":"{RAW_REQUEST_EVENT_SCHEMA_VERSION}","event_id":"run:request:0:start","event_index":0,"event":"request_started","run_id":"run","task_id":"task","replicate_id":4,"arm":"mpc","request_index":0,{more}"pricing_schedule_id":"fixture-price-v1"}}
"#
    )
}

/// The message with which a ledger is refused.
fn refused(config: &ContextPolicyConfig, content: &str) -> String {
    let error = RawRequestLedger::try_from_config(config, Some(content))
        .expect("indices in range")
        .expect_err("the ledger is refused");
    assert_eq!(error.kind, ErrorKind::InvalidData);
    error.message
}

#[test]
fn resume_rejects_incompatible_frozen_run_identity() {
    let content = started("");
    open(&config(), &content);

    let cases: Vec<(&str, ContextPolicyConfig)> = vec![
        (
            "task_id",
            ContextPolicyConfig { task_id: Some("other-task".into()), ..config() },
        ),
        ("replicate_id", ContextPolicyConfig { replicate_id: Some(9), ..config() }),
        ("arm", ContextPolicyConfig { mode: ContextPolicyMode::MpcH1, ..config() }),
        (
            "pricing_schedule_id",
            ContextPolicyConfig { pricing_schedule_id: Some("other-price".into()), ..config() },
        ),
    ];
    for (name, cfg) in cases {
        let message = refused(&cfg, &content);
        assert!(message.contains(name), "{name}: unexpected error {message}");
    }

    let content = content.replace(RAW_REQUEST_EVENT_SCHEMA_VERSION, "codex-request-events-v0");
    let message = refused(&config(), &content);
    assert!(message.contains("unsupported schema"), "unexpected error {message}");
}

#[test]
fn provider_and_model_may_legitimately_change_within_one_run() {
    let content = started(r#""provider_id":"other-provider","model_id":"other-model","#);
    open(&config(), &content);
}

#[test]
fn schema_supports_all_current_and_future_purpose_classes() {
    let purposes = [
        RequestPurpose::Serve,
        RequestPurpose::CompactSummary,
        RequestPurpose::RefreshNative,
        RequestPurpose::EvaluationOnly,
        RequestPurpose::Prewarm,
        RequestPurpose::Memory,
    ];
    assert_eq!(
        purposes.iter().map(|purpose| purpose.name()).collect::<Vec<_>>(),
        vec![
            "serve",
            "compact_summary",
            "refresh_native",
            "evaluation_only",
            "prewarm",
            "memory"
        ]
    );
    let mut content = String::new();
    let mut ledger = open(&config(), &content);
    for purpose in purposes {
        let (_, line) = ledger.begin_request(RequestDescriptor { purpose, ..descriptor() });
        content.push_str(&line);
    }
    let recorded = rows(&content);
    for (row, purpose) in recorded.iter().zip(purposes) {
        assert_eq!(row["request_purpose"], purpose.name());
    }
}

#[test]
fn a_begun_request_is_recorded_in_full() {
    let mut content = String::new();
    let mut ledger = open(&config(), &content);
    assert_eq!(ledger.run_id(), "run");
    assert_eq!(ledger.log_path(), "/tmp/requests.raw.jsonl");
    begin(&mut ledger, &mut content);
    assert_eq!(
        content,
        concat_lines(&[
            r#"{"arm":"mpc","compaction_id":null,"compaction_kind":null,"decision_action":"KEEP","decision_epoch":2,"event":"request_started","event_id":"run:request:0:start","event_index":0,"logical_request_id":"run:request:0","model_id":"fixture-model","pricing_schedule_id":"fixture-price-v1","provider_id":"fixture-provider","replicate_id":4,"request_index":0,"request_purpose":"serve","reset_id":null,"run_id":"run","schema_version":"codex-request-events-v1","session_id":"session","task_id":"task","thread_id":"thread","turn_id":"turn"}"#,
        ])
    );
}

fn concat_lines(lines: &[&str]) -> String {
    lines.iter().map(|line| format!("{line}\n")).collect()
}

#[test]
fn events_say_what_happened() {
    let mut content = String::new();
    let mut ledger = open(&config(), &content);
    let request = begin(&mut ledger, &mut content);
    content.push_str(&ledger.attempt_failed(&request, 3, "rate_limit", "429", None));
    content.push_str(&ledger.retry_scheduled(&request, 3, None));
    content.push_str(&ledger.failed(&request, "provider", "gone", Number::from_f64(2.5), None));
    content.push_str(&ledger.completed(&request, None, Some(&usage()), None, None, "stop", None));
    let rows = rows(&content);
    assert_eq!(rows[1]["event"], "attempt_failed");
    assert_eq!(rows[1]["event_id"], "run:request:0:attempt:3:failed");
    assert_eq!(rows[1]["attempt_index"], 3);
    assert_eq!(rows[1]["failure_kind"], "rate_limit");
    assert_eq!(rows[1]["failure_reason"], "429");
    assert!(rows[1].get("billable").expect("billable").is_null());
    assert_eq!(rows[2]["event"], "retry_scheduled");
    assert_eq!(rows[2]["event_id"], "run:request:0:attempt:3:retry");
    assert!(rows[2].get("wait_seconds").expect("wait").is_null());
    assert_eq!(rows[3]["event"], "request_failed");
    assert_eq!(rows[3]["event_id"], "run:request:0:terminal");
    assert_eq!(rows[3]["latency_seconds"], 2.5);
    assert!(rows[3].get("provider_usage").expect("usage").is_null());
    assert_eq!(rows[3]["zero_cost_fixture"], false);
    assert_eq!(rows[4]["event"], "request_completed");
    assert_eq!(rows[4]["stop_reason"], "stop");
    assert_eq!(rows[4]["input_token_semantics"], "total_includes_cache");
    assert_eq!(
        rows[4]["usage_provenance"]["uncached_input_tokens"],
        "host_derived_from_codex_normalized_buckets"
    );
    assert!(rows[4].get("response_id").expect("id").is_null());
    assert!(rows[4].get("provider_reported_cost").expect("cost").is_null());
    assert_eq!(ledger.next_indices(), Counters { next_event_index: 5, next_request_index: 1 });
}

#[test]
fn usage_buckets_saturate() {
    let value = provider_usage(&usage()).to_value();
    assert_eq!(
        value.to_string(),
        r#"{"billed_output_tokens":6,"cache_read_tokens":3,"cache_write_tokens":1,"input_tokens_total":10,"reasoning_tokens":2,"uncached_input_tokens":6}"#
    );
    let extreme = TokenUsage {
        input_tokens: i64::MIN,
        cached_input_tokens: 1,
        cache_write_input_tokens: -5,
        ..usage()
    };
    assert_eq!(provider_usage(&extreme).get_i64("uncached_input_tokens"), Some(i64::MIN + 5));
    let lowest = TokenUsage { input_tokens: i64::MIN, cache_write_input_tokens: 1, ..usage() };
    assert_eq!(provider_usage(&lowest).get_i64("uncached_input_tokens"), Some(i64::MIN));
    let negative = TokenUsage { cached_input_tokens: 20, ..usage() };
    assert_eq!(provider_usage(&negative).get_i64("uncached_input_tokens"), Some(-11));
}

#[test]
fn a_configuration_without_a_ledger_opens_none() {
    let none = ContextPolicyConfig { request_raw_log_path: None, run_id: None, ..config() };
    assert!(RawRequestLedger::try_from_config(&none, Some("not-json"))
        .expect("indices in range")
        .expect("no ledger")
        .is_none());
    for (cfg, message) in [
        (ContextPolicyConfig { run_id: None, ..config() }, "request ledger requires run_id"),
        (ContextPolicyConfig { task_id: None, ..config() }, "request ledger requires task_id"),
        (
            ContextPolicyConfig { replicate_id: None, ..config() },
            "request ledger requires replicate_id",
        ),
    ] {
        let error = RawRequestLedger::try_from_config(&cfg, None)
            .expect("indices in range")
            .expect_err("no identity");
        assert_eq!(error.kind, ErrorKind::InvalidInput);
        assert_eq!(error.message, message);
    }
}

#[test]
fn a_new_ledger_starts_at_zero() {
    let missing = RawRequestLedger::try_from_config(&config(), None)
        .expect("indices in range")
        .expect("ledger")
        .expect("enabled");
    assert_eq!(missing.next_indices(), Counters::default());
    assert_eq!(open(&config(), "").next_indices(), Counters::default());
}

#[test]
fn each_defect_of_a_ledger_is_named() {
    let good = started("");
    let expected = serde_json::from_str::<Value>("{").expect_err("no JSON").to_string();
    assert_eq!(
        refused(&config(), &format!("{good}{{\n")),
        format!("invalid request ledger line 2: {expected}")
    );
    assert!(refused(&config(), "\n").starts_with("invalid request ledger line 1: EOF"));
    assert_eq!(
        refused(&ContextPolicyConfig { run_id: Some("other".into()), ..config() }, &good),
        "request ledger path contains a different run_id"
    );
    assert_eq!(
        refused(&ContextPolicyConfig { pricing_schedule_id: None, ..config() }, &good),
        "request ledger contains a different pricing_schedule_id"
    );
    assert_eq!(
        refused(&config(), &good.replace("\"event_id\"", "\"id\"")),
        "event_id is missing"
    );
    assert_eq!(
        refused(&config(), &good.replace("\"event_index\":0", "\"event_index\":-1")),
        "event_index is missing"
    );
    assert_eq!(
        refused(&config(), &good.replace("\"request_index\":0", "\"request_index\":1.0")),
        "request_index is missing"
    );
    let other = started(r#""model_id":"other","#);
    assert_eq!(
        refused(&config(), &format!("{good}{other}")),
        "request ledger contains a conflicting duplicate event_id"
    );
}

#[test]
fn an_exact_duplicate_changes_nothing() {
    let good = started("");
    let again = format!("{good}{good}");
    assert_eq!(open(&config(), &again).next_indices(), open(&config(), &good).next_indices());
    // The order of the fields is not part of the evidence.
    let value: Value = serde_json::from_str(good.trim()).expect("json");
    let sorted = format!("{good}{value}\r\n");
    assert_eq!(open(&config(), &sorted).next_indices(), open(&config(), &good).next_indices());
}

#[test]
fn counters_stand_behind_the_largest_indices() {
    let identity = LedgerIdentity::from_config(&config())
        .expect("identity")
        .expect("enabled");
    let a = started("").replace("\"event_index\":0", "\"event_index\":7");
    let b = started("")
        .replace("run:request:0:start", "run:request:9:start")
        .replace("\"event_index\":0", "\"event_index\":3")
        .replace("\"request_index\":0", "\"request_index\":9");
    let counters = try_scan_existing(Some(&format!("{a}{b}")), &identity)
        .expect("indices in range")
        .expect("accepted");
    assert_eq!(counters, Counters { next_event_index: 8, next_request_index: 10 });
}

#[test]
fn the_last_index_cannot_be_continued() {
    let max = format!("\"event_index\":{}", u64::MAX);
    let content = started("").replace("\"event_index\":0", &max);
    assert!(RawRequestLedger::try_from_config(&config(), Some(&content)).is_none());
    let before = format!("\"event_index\":{}", u64::MAX - 1);
    let content = started("").replace("\"event_index\":0", &before);
    assert_eq!(open(&config(), &content).next_indices().next_event_index, u64::MAX);
}

#[test]
fn line_breaks_in_evidence_stay_within_a_line() {
    let mut content = String::new();
    let mut ledger = open(&config(), &content);
    let request = begin(&mut ledger, &mut content);
    content.push_str(&ledger.failed(&request, "provider", "first\nsecond\r\n", None, None));
    assert_eq!(content.matches('\n').count(), 2);
    assert_eq!(rows(&content)[1]["failure_reason"], "first\nsecond\r\n");
    assert_eq!(open(&config(), &content).next_indices(), ledger.next_indices());
}

#[test]
fn ids_tell_requests_and_attempts_apart() {
    let mut content = String::new();
    let mut ledger = open(&config(), &content);
    for _ in 0..12 {
        let request = begin(&mut ledger, &mut content);
        for attempt in 0..11 {
            content.push_str(&ledger.attempt_started(&request, attempt, None));
        }
    }
    let rows = rows(&content);
    let mut ids: Vec<String> = rows.iter().map(|row| row["event_id"].to_string()).collect();
    ids.sort();
    ids.dedup();
    assert_eq!(ids.len(), rows.len());
}

#[test]
fn an_attempt_identity_has_no_pricing_schedule() {
    let identity = attempt_identity("provider", "model");
    assert_eq!(identity.provider_id, "provider");
    assert_eq!(identity.model_id, "model");
    assert_eq!(identity.pricing_schedule_id, None);
}

/// Asserts that a ledger cannot be resumed after the given calls on one request.
fn refused_after(calls: impl FnOnce(&mut RawRequestLedger, &RawRequestHandle) -> Vec<String>) {
    let mut content = String::new();
    let mut ledger = open(&config(), &content);
    let request = begin(&mut ledger, &mut content);
    for line in calls(&mut ledger, &request) {
        content.push_str(&line);
    }
    begin(&mut ledger, &mut content);
    assert_eq!(
        refused(&config(), &content),
        "request ledger contains a conflicting duplicate event_id"
    );
}

#[test]
fn an_event_that_is_recorded_twice_cannot_be_resumed() {
    refused_after(|ledger, request| {
        vec![
            ledger.completed(request, None, None, None, None, "stop", None),
            ledger.failed(request, "provider", "gone", None, None),
        ]
    });
    refused_after(|ledger, request| {
        vec![
            ledger.completed(request, None, None, None, None, "stop", None),
            ledger.completed(request, None, None, None, None, "stop", None),
        ]
    });
    refused_after(|ledger, request| {
        vec![
            ledger.failed(request, "provider", "gone", None, None),
            ledger.failed(request, "provider", "gone", None, None),
        ]
    });
    refused_after(|ledger, request| {
        vec![
            ledger.attempt_started(request, 0, None),
            ledger.attempt_started(request, 1, None),
            ledger.attempt_started(request, 0, None),
        ]
    });
}

#[test]
fn only_beginning_a_request_uses_up_a_request_index() {
    let mut content = String::new();
    let mut ledger = open(&config(), &content);
    for k in 0..4 {
        let request = begin(&mut ledger, &mut content);
        assert_eq!(request.request_index, k);
        assert_eq!(request.logical_request_id, format!("run:request:{k}"));
        content.push_str(&ledger.attempt_started(&request, 0, None));
        content.push_str(&ledger.attempt_failed(&request, 0, "kind", "reason", None));
        content.push_str(&ledger.retry_scheduled(&request, 0, None));
        content.push_str(&ledger.failed(&request, "kind", "reason", None, None));
    }
    let rows = rows(&content);
    for (i, row) in rows.iter().enumerate() {
        assert_eq!(row["event_index"], i);
    }
    assert_eq!(rows[5]["event_id"], "run:request:1:start");
    assert_eq!(rows[5]["event"], "request_started");
}

#[test]
fn an_index_whose_line_was_not_written_is_not_given_out_again() {
    let mut content = String::new();
    let mut ledger = open(&config(), &content);
    begin(&mut ledger, &mut content);
    let (lost, _) = ledger.begin_request(descriptor());
    assert_eq!(lost.request_index, 1);
    let next = begin(&mut ledger, &mut content);
    assert_eq!(next.request_index, 2);
    assert_eq!(next.logical_request_id, "run:request:2");
    assert_eq!(open(&config(), &content).next_indices(), ledger.next_indices());
}

#[test]
fn the_order_of_the_lines_does_not_matter() {
    let mut content = String::new();
    let mut ledger = open(&config(), &content);
    let request = begin(&mut ledger, &mut content);
    content.push_str(&ledger.attempt_started(&request, 0, None));
    begin(&mut ledger, &mut content);
    let backwards: String = content.lines().rev().map(|line| format!("{line}\n")).collect();
    assert_eq!(open(&config(), &backwards).next_indices(), ledger.next_indices());
    let repeated = format!("{backwards}{content}");
    assert_eq!(open(&config(), &repeated).next_indices(), ledger.next_indices());
}

#[test]
fn lost_lines_and_foreign_events_do_not_hide_an_event_recorded_twice() {
    let mut content = started("").replace("run:request:0:start", "event of another tool");
    let mut ledger = open(&config(), &content);
    let request = begin(&mut ledger, &mut content);
    content.push_str(&ledger.completed(&request, None, None, None, None, "stop", None));
    ledger.attempt_started(&request, 0, None);
    assert_eq!(
        open(&config(), &content).next_indices(),
        Counters { next_event_index: 3, next_request_index: 2 }
    );
    content.push_str(&ledger.failed(&request, "provider", "gone", None, None));
    assert_eq!(
        refused(&config(), &content),
        "request ledger contains a conflicting duplicate event_id"
    );
}
