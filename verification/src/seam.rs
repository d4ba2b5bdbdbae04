//! The seam between the host and a context policy: what is observed before a
//! request, what is decided on it, and the record from which both can be
//! reconstructed.

use vstd::prelude::*;

use crate::bridge::{
    decision_in, identity_fields, law_decision_is_what_the_response_says, opt_json,
    parse_bridge_decision,
};
use crate::config::{
    arm_name, arm_text, bridge_mode, uses_external_bridge, valid_config, ContextPolicyConfig,
    ContextPolicyMode, ExternalContextPolicyStub,
};
use crate::decision::{ContextPolicyAction, ContextPolicyDecision};
use crate::error::{
    infrastructure, infrastructure_error, other, other_error, ErrorKind, PolicyError,
};
use crate::json::{
    entries_readable, entries_text, entry, field, holds, int_json, json_text,
    lemma_entries_map_keys, object, opt_i64_json, pairs_view, text_field, Json, JsonView,
    NumberView,
};
use crate::keys::{key_code, lemma_entries_apart};
use crate::record::{
    law_document_keeps_every_entry, law_mode_is_left_out, record_entries, record_line,
    ContextPolicyRecord, RecordFields,
};
use crate::text::{decimal, decimal_text, join, opt_text, same_text};

verus! {

/// The version of the recorded protocol.
pub const PROTOCOL_VERSION: &'static str = "phase8a-v1";

/// How the tokens of a request are measured.
pub const MEASUREMENT: &'static str = "codex_coarse_prompt_estimate_v1";

// ---------------------------------------------------------------------------
// What is observed
// ---------------------------------------------------------------------------

/// The size of a prompt.
#[derive(Clone, Copy, Debug)]
pub struct Prompt {
    pub input_item_count: usize,
    pub tool_count: usize,
}

/// What is known of the model.
#[derive(Debug)]
pub struct ModelInfo {
    pub slug: String,
    pub context_window: Option<i64>,
    pub usable_context_window: Option<i64>,
}

/// What a policy sees of the next request.
#[derive(Debug)]
pub struct ContextPolicyObservation {
    /// A coarse estimate, for diagnosis only.
    pub estimated_input_tokens: i64,
    /// The length that decisions are based on.
    pub formal_input_tokens: i64,
    pub nominal_context_window: Option<i64>,
    pub usable_context_window: Option<i64>,
    pub input_item_count: usize,
    pub model_visible_tool_count: usize,
    pub model_id: String,
    pub provider_id: String,
    pub thread_id: String,
    pub turn_id: String,
    pub model_visible_request: Json,
}

/// A count of tokens, in the range of `i64`.
pub open spec fn clamped_count(count: usize) -> i64 {
    if count <= i64::MAX {
        count as i64
    } else {
        i64::MAX
    }
}

/// A count of tokens, in the range of `i64`.
pub fn clamp_count(count: usize) -> (tokens: i64)
    ensures
        tokens == clamped_count(count),
{
    if count as u128 <= i64::MAX as u128 {
        count as i64
    } else {
        i64::MAX
    }
}

/// Whether `tokens` is what `approx_token_count` says of the compact text of a
/// request, in the range of `i64`.
pub open spec fn estimates<F: Fn(&str) -> usize>(
    approx_token_count: F,
    request: JsonView,
    tokens: i64,
) -> bool {
    exists|text: &str, count: usize| #[trigger]
        call_ensures(approx_token_count, (text,), count) && text@ == json_text(request) && tokens
            == clamped_count(count)
}

/// The estimated tokens of a request.
pub fn estimated_request_tokens<F: Fn(&str) -> usize>(
    model_visible_request: &Json,
    approx_token_count: &F,
) -> (tokens: i64)
    requires
        forall|text: &str| call_requires(*approx_token_count, (text,)),
    ensures
        estimates(*approx_token_count, model_visible_request@, tokens),
{
    let text = model_visible_request.to_text();
    clamp_count(approx_token_count(text.as_str()))
}

/// Whether an observation is that of a request. The length that decisions are based on
/// is the estimate, until a better one is known.
pub open spec fn observes(
    observation: ContextPolicyObservation,
    prompt: Prompt,
    model_visible_request: Json,
    model_info: ModelInfo,
    thread_id: Seq<char>,
    turn_id: Seq<char>,
    provider_id: Seq<char>,
) -> bool {
    &&& observation.formal_input_tokens == observation.estimated_input_tokens
    &&& observation.nominal_context_window == model_info.context_window
    &&& observation.usable_context_window == model_info.usable_context_window
    &&& observation.input_item_count == prompt.input_item_count
    &&& observation.model_visible_tool_count == prompt.tool_count
    &&& observation.model_id@ == model_info.slug@
    &&& observation.provider_id@ == provider_id
    &&& observation.thread_id@ == thread_id
    &&& observation.turn_id@ == turn_id
    &&& observation.model_visible_request@ == model_visible_request@
}

impl ContextPolicyObservation {
    /// What a policy sees of a request. `approx_token_count` counts the tokens of
    /// a text; decisions are based on its count until a better one is known.
    pub fn new<F: Fn(&str) -> usize>(
        prompt: &Prompt,
        model_visible_request: Json,
        model_info: &ModelInfo,
        thread_id: &str,
        turn_id: &str,
        provider_id: &str,
        approx_token_count: &F,
    ) -> (observation: Self)
        requires
            forall|text: &str| call_requires(*approx_token_count, (text,)),
        ensures
            observes(
                observation,
                *prompt,
                model_visible_request,
                *model_info,
                thread_id@,
                turn_id@,
                provider_id@,
            ),
            estimates(
                *approx_token_count,
                model_visible_request@,
                observation.estimated_input_tokens,
            ),
    {
        let tokens: i64 = estimated_request_tokens(&model_visible_request, approx_token_count);
        ContextPolicyObservation {
            estimated_input_tokens: tokens,
            formal_input_tokens: tokens,
            nominal_context_window: model_info.context_window,
            usable_context_window: model_info.usable_context_window,
            input_item_count: prompt.input_item_count,
            model_visible_tool_count: prompt.tool_count,
            model_id: model_info.slug.clone(),
            provider_id: provider_id.to_owned(),
            thread_id: thread_id.to_owned(),
            turn_id: turn_id.to_owned(),
            model_visible_request,
        }
    }
}

// ---------------------------------------------------------------------------
// What is recorded
// ---------------------------------------------------------------------------

/// The text, or the empty one where it is missing.
pub open spec fn text_or_empty(text: Option<String>) -> Seq<char> {
    match text {
        Some(text) => text@,
        None => Seq::empty(),
    }
}

/// Whether the fields of a record are those of a decision on an observation
/// under a configuration.
pub open spec fn records(
    fields: RecordFields,
    config: ContextPolicyConfig,
    decision: ContextPolicyDecision,
    observation: ContextPolicyObservation,
) -> bool {
    &&& fields.protocol_version@ == PROTOCOL_VERSION@
    &&& fields.run_id@ == text_or_empty(config.run_id)
    &&& fields.task_id@ == text_or_empty(config.task_id)
    &&& fields.replicate_id == (match config.replicate_id {
        Some(id) => id,
        None => 0,
    })
    &&& fields.thread_id@ == observation.thread_id@
    &&& fields.turn_id@ == observation.turn_id@
    &&& fields.epoch == decision.epoch
    &&& fields.policy_mode == config.mode
    &&& fields.action == decision.action
    &&& fields.estimated_input_tokens == observation.estimated_input_tokens
    &&& fields.reusable_prefix_tokens is None
    &&& fields.nominal_context_window == observation.nominal_context_window
    &&& fields.usable_context_window == observation.usable_context_window
    &&& fields.input_item_count == observation.input_item_count
    &&& fields.model_visible_tool_count == observation.model_visible_tool_count
    &&& fields.model_id@ == observation.model_id@
    &&& fields.provider_id@ == observation.provider_id@
    &&& fields.measurement@ == MEASUREMENT@
    &&& fields.model_visible_request@ == observation.model_visible_request@
}

/// Whether a record is that of a decision. `mode` and `diagnostics` are what the
/// policy says of itself; a policy in process says nothing.
pub open spec fn decision_record(
    record: ContextPolicyRecord,
    config: ContextPolicyConfig,
    decision: ContextPolicyDecision,
    observation: ContextPolicyObservation,
    mode: Option<Seq<char>>,
    diagnostics: Option<JsonView>,
) -> bool {
    &&& record matches ContextPolicyRecord::Decision {
        fields,
        compaction_reason,
        decision_mode,
        decision_diagnostics,
    }
    &&& records(fields, config, decision, observation)
    &&& match compaction_reason {
        Some(reason) => decision.action == Some(ContextPolicyAction::Compact) && reason@
            == "context_limit"@,
        None => decision.action != Some(ContextPolicyAction::Compact),
    }
    &&& opt_text(decision_mode) == mode
    &&& opt_json(decision_diagnostics) == diagnostics
}

/// Whether a record is that of the model about to be invoked.
pub open spec fn ready_record(
    record: ContextPolicyRecord,
    config: ContextPolicyConfig,
    decision: ContextPolicyDecision,
    observation: ContextPolicyObservation,
) -> bool {
    record matches ContextPolicyRecord::ReadyToInvoke { fields } && records(
        fields,
        config,
        decision,
        observation,
    )
}

// ---------------------------------------------------------------------------
// What is decided
// ---------------------------------------------------------------------------

/// The action that a policy in process takes. With a fixed threshold it compacts
/// at the threshold and above, by the formal length.
pub open spec fn in_process_action(
    config: ContextPolicyConfig,
    epoch: u64,
    formal_input_tokens: i64,
) -> ContextPolicyAction {
    let compact = match config.mode {
        ContextPolicyMode::ControlledFixed => formal_input_tokens >= (
        match config.fixed_threshold_tokens {
            Some(threshold) => threshold,
            None => i64::MAX,
        }),
        ContextPolicyMode::ExternalStub => config.external_stub == Some(
            ExternalContextPolicyStub::CompactAtEpoch,
        ) && config.external_stub_compact_at_epoch == Some(epoch),
        _ => false,
    };
    if compact {
        ContextPolicyAction::Compact
    } else {
        ContextPolicyAction::Keep
    }
}

/// The identity of a request to the policy process, in the order of its fields.
pub open spec fn request_entries(
    config: ContextPolicyConfig,
    kind: Seq<char>,
    thread_id: Seq<char>,
    epoch: u64,
) -> Seq<(Seq<char>, JsonView)> {
    let run_id = text_or_empty(config.run_id);
    seq![
        ("type"@, JsonView::Text(kind)),
        ("protocol_version"@, JsonView::Text(crate::bridge::PROTOCOL_VERSION@)),
        ("request_id"@, JsonView::Text(run_id + ":"@ + kind + ":"@ + decimal_text(epoch as nat))),
        ("run_id"@, JsonView::Text(run_id)),
        ("task_id"@, JsonView::Text(text_or_empty(config.task_id))),
        (
            "replicate_id"@,
            int_json(
                match config.replicate_id {
                    Some(id) => id as int,
                    None => 0,
                },
            ),
        ),
        ("thread_id"@, JsonView::Text(thread_id)),
        ("epoch"@, int_json(epoch as int)),
        ("controller_mode"@, JsonView::Text(arm_text(config.mode))),
    ]
}

/// What a request for a decision says of the observation.
pub open spec fn observation_entries(observation: ContextPolicyObservation) -> Seq<
    (Seq<char>, JsonView),
> {
    seq![
        ("turn_id"@, JsonView::Text(observation.turn_id@)),
        ("model_id"@, JsonView::Text(observation.model_id@)),
        ("provider_id"@, JsonView::Text(observation.provider_id@)),
        ("estimated_input_tokens"@, int_json(observation.estimated_input_tokens as int)),
        ("formal_input_tokens"@, int_json(observation.formal_input_tokens as int)),
        ("nominal_context_window"@, opt_i64_json(observation.nominal_context_window)),
        ("usable_context_window"@, opt_i64_json(observation.usable_context_window)),
        ("input_item_count"@, int_json(observation.input_item_count as int)),
        ("model_visible_tool_count"@, int_json(observation.model_visible_tool_count as int)),
    ]
}

/// The request that opens the exchange with the policy process.
pub open spec fn initialize_request_view(
    config: ContextPolicyConfig,
    thread_id: Seq<char>,
    epoch: u64,
) -> JsonView {
    object(request_entries(config, "initialize"@, thread_id, epoch))
}

/// The request for a decision of the policy process.
pub open spec fn decide_request_view(
    config: ContextPolicyConfig,
    epoch: u64,
    observation: ContextPolicyObservation,
) -> JsonView {
    object(
        request_entries(config, "decide"@, observation.thread_id@, epoch) + observation_entries(
            observation,
        ),
    )
}

/// Why an answer to the opening request is refused, where it is.
pub open spec fn initialized_complaint(mode: ContextPolicyMode, response: JsonView) -> Option<
    Seq<char>,
> {
    if text_field(response, "type"@) != Some("initialized"@) {
        Some("bridge did not initialize"@)
    } else if text_field(response, "controller_mode"@) != Some(arm_text(mode)) {
        Some("bridge initialized another controller_mode"@)
    } else {
        None
    }
}

/// What a decision calls for.
#[derive(Debug)]
pub enum DecideStep {
    /// Nothing: the host's own limit applies, and nothing is recorded.
    Bypass,
    /// Append the record; then the decision stands.
    Record { decision: ContextPolicyDecision, record: ContextPolicyRecord },
    /// Send the request to the policy process and hand its response to
    /// `decide_with_response`. Where there is an opening request, start the process
    /// first, send that request, and hand its response to `check_initialized`.
    Ask { opening: Option<Json>, observation: ContextPolicyObservation, request: Json },
}

/// Whether a result is what a response of the policy process decides.
pub open spec fn decided_by(
    r: Result<(ContextPolicyDecision, ContextPolicyRecord), PolicyError>,
    config: ContextPolicyConfig,
    epoch: u64,
    observation: ContextPolicyObservation,
    response: JsonView,
) -> bool {
    match decision_in(response) {
        Ok(said) => r matches Ok((decision, record)) && {
            &&& decision == (ContextPolicyDecision { epoch, action: said.action })
            &&& decision_record(
                record,
                config,
                decision,
                observation,
                Some(said.mode),
                said.diagnostics,
            )
        },
        Err(message) => r matches Err(error) && error@ == infrastructure_error(message),
    }
}

/// Whether a step is what deciding on an observation calls for.
pub open spec fn decides(
    step: DecideStep,
    config: ContextPolicyConfig,
    bridge_open: bool,
    epoch: u64,
    observation: ContextPolicyObservation,
) -> bool {
    match step {
        DecideStep::Bypass => config.mode == ContextPolicyMode::NativeFixed,
        DecideStep::Record { decision, record } => {
            &&& config.mode == ContextPolicyMode::ControlledFixed || config.mode
                == ContextPolicyMode::ExternalStub
            &&& decision == (ContextPolicyDecision {
                epoch,
                action: Some(in_process_action(config, epoch, observation.formal_input_tokens)),
            })
            &&& decision_record(record, config, decision, observation, None, None)
        },
        DecideStep::Ask { opening, observation: kept, request } => {
            &&& bridge_mode(config.mode)
            &&& opt_json(opening) == (if bridge_open {
                None
            } else {
                Some(initialize_request_view(config, observation.thread_id@, epoch))
            })
            &&& kept == observation
            &&& request@ == decide_request_view(config, epoch, observation)
        },
    }
}

/// What has to be done to append a record to the log.
#[derive(Debug)]
pub struct LogAppend {
    /// The file to open first, where it is not open yet.
    pub open: Option<String>,
    /// The text to write and flush.
    pub line: String,
}

/// Whether a result says what has to be done to append a record to the log.
pub open spec fn appends(
    r: Result<LogAppend, PolicyError>,
    config: ContextPolicyConfig,
    log_open: bool,
    record: ContextPolicyRecord,
) -> bool {
    match r {
        Ok(append) => {
            &&& append.line@ == record_line(record)
            &&& log_open ==> append.open is None
            &&& !log_open ==> append.open is Some && opt_text(append.open) == opt_text(
                config.raw_log_path,
            )
        },
        Err(error) => {
            &&& !log_open && config.raw_log_path is None
            &&& error@ == other_error("controlled policy log path is missing"@)
        },
    }
}

/// The seam with its configuration, and whether the exchange with the policy
/// process has been opened.
#[derive(Debug)]
pub struct ContextPolicySeam {
    config: ContextPolicyConfig,
    bridge_open: bool,
}

impl ContextPolicySeam {
    /// The configuration of the seam.
    pub closed spec fn config(&self) -> ContextPolicyConfig {
        self.config
    }

    /// Whether the exchange with the policy process has been opened.
    pub closed spec fn bridge_open(&self) -> bool {
        self.bridge_open
    }

    /// A seam under a configuration.
    pub fn new(config: ContextPolicyConfig) -> (seam: Self)
        ensures
            seam.config() == config,
            !seam.bridge_open(),
    {
        ContextPolicySeam { config, bridge_open: false }
    }

    /// Whether decisions go through the seam.
    pub fn is_controlled(&self) -> (r: bool)
        ensures
            r == (self.config().mode != ContextPolicyMode::NativeFixed),
    {
        self.config.mode != ContextPolicyMode::NativeFixed
    }

    /// The run that is recorded.
    fn run_id(&self) -> (id: &str)
        ensures
            id@ == text_or_empty(self.config().run_id),
    {
        match &self.config.run_id {
            Some(id) => id.as_str(),
            None => {
                proof {
                    reveal_strlit("");
                    assert(""@ =~= Seq::<char>::empty());
                }
                ""
            },
        }
    }

    /// The task that is recorded.
    fn task_id(&self) -> (id: &str)
        ensures
            id@ == text_or_empty(self.config().task_id),
    {
        match &self.config.task_id {
            Some(id) => id.as_str(),
            None => {
                proof {
                    reveal_strlit("");
                    assert(""@ =~= Seq::<char>::empty());
                }
                ""
            },
        }
    }

    /// The replicate that is recorded.
    fn replicate_id(&self) -> (id: u64)
        ensures
            id == (match self.config().replicate_id {
                Some(id) => id,
                None => 0,
            }),
    {
        self.config.replicate_id.unwrap_or(0)
    }

    /// What every record says.
    fn record_fields(
        &self,
        decision: ContextPolicyDecision,
        observation: ContextPolicyObservation,
    ) -> (fields: RecordFields)
        ensures
            records(fields, self.config(), decision, observation),
    {
        RecordFields {
            protocol_version: PROTOCOL_VERSION,
            run_id: self.run_id().to_owned(),
            task_id: self.task_id().to_owned(),
            replicate_id: self.replicate_id(),
            thread_id: observation.thread_id,
            turn_id: observation.turn_id,
            epoch: decision.epoch,
            policy_mode: self.config.mode,
            action: decision.action,
            estimated_input_tokens: observation.estimated_input_tokens,
            reusable_prefix_tokens: None,
            nominal_context_window: observation.nominal_context_window,
            usable_context_window: observation.usable_context_window,
            input_item_count: observation.input_item_count,
            model_visible_tool_count: observation.model_visible_tool_count,
            model_id: observation.model_id,
            provider_id: observation.provider_id,
            measurement: MEASUREMENT,
            model_visible_request: observation.model_visible_request,
        }
    }

    /// The record of a decision.
    fn record_decision(
        &self,
        decision: ContextPolicyDecision,
        observation: ContextPolicyObservation,
        decision_mode: Option<String>,
        decision_diagnostics: Option<Json>,
    ) -> (record: ContextPolicyRecord)
        ensures
            decision_record(
                record,
                self.config(),
                decision,
                observation,
                opt_text(decision_mode),
                opt_json(decision_diagnostics),
            ),
    {
        let compaction_reason = match decision.action {
            Some(ContextPolicyAction::Compact) => Some("context_limit"),
            Some(ContextPolicyAction::Keep) | None => None,
        };
        ContextPolicyRecord::Decision {
            fields: self.record_fields(decision, observation),
            compaction_reason,
            decision_mode,
            decision_diagnostics,
        }
    }

    /// The action that a policy in process takes.
    fn in_process_action(&self, epoch: u64, formal_input_tokens: i64) -> (action:
        ContextPolicyAction)
        ensures
            action == in_process_action(self.config(), epoch, formal_input_tokens),
    {
        match self.config.mode {
            ContextPolicyMode::ControlledFixed => {
                if formal_input_tokens >= self.config.fixed_threshold_tokens.unwrap_or(i64::MAX) {
                    ContextPolicyAction::Compact
                } else {
                    ContextPolicyAction::Keep
                }
            },
            ContextPolicyMode::ExternalStub => match (
                self.config.external_stub,
                self.config.external_stub_compact_at_epoch,
            ) {
                (Some(ExternalContextPolicyStub::CompactAtEpoch), Some(at)) => {
                    if at == epoch {
                        ContextPolicyAction::Compact
                    } else {
                        ContextPolicyAction::Keep
                    }
                },
                _ => ContextPolicyAction::Keep,
            },
            _ => ContextPolicyAction::Keep,
        }
    }

    /// The identity of a request to the policy process.
    fn request_pairs(&self, kind: &str, thread_id: &str, epoch: u64) -> (pairs: Vec<(String, Json)>)
        ensures
            pairs_view(pairs@) == request_entries(self.config(), kind@, thread_id@, epoch),
    {
        let mut request_id = join(self.run_id(), ":");
        request_id.append(kind);
        request_id.append(":");
        request_id.append(decimal(epoch).as_str());
        let pairs = vec![
            entry("type", Json::text(kind)),
            entry("protocol_version", Json::text(crate::bridge::PROTOCOL_VERSION)),
            entry("request_id", Json::Text(request_id)),
            entry("run_id", Json::text(self.run_id())),
            entry("task_id", Json::text(self.task_id())),
            entry("replicate_id", Json::unsigned(self.replicate_id())),
            entry("thread_id", Json::text(thread_id)),
            entry("epoch", Json::unsigned(epoch)),
            entry("controller_mode", Json::text(arm_name(self.config.mode))),
        ];
        assert(pairs_view(pairs@) =~= request_entries(self.config(), kind@, thread_id@, epoch));
        pairs
    }

    /// The request that opens the exchange with the policy process.
    pub fn initialize_request(&self, thread_id: &str, epoch: u64) -> (request: Json)
        ensures
            request@ == initialize_request_view(self.config(), thread_id@, epoch),
    {
        Json::Object(self.request_pairs("initialize", thread_id, epoch))
    }

    /// Checks the answer to the opening request. The exchange is open where it is
    /// accepted, and stays as it was where it is refused.
    pub fn check_initialized(&mut self, response: &Json) -> (r: Result<(), PolicyError>)
        ensures
            match initialized_complaint(old(self).config().mode, response@) {
                Some(message) => r matches Err(error) && error@ == infrastructure_error(message),
                None => r is Ok,
            },
            final(self).config() == old(self).config(),
            final(self).bridge_open() == (old(self).bridge_open() || r is Ok),
    {
        let initialized = match response.get_str("type") {
            Some(kind) => same_text(kind, "initialized"),
            None => false,
        };
        if !initialized {
            return Err(infrastructure("bridge did not initialize"));
        }
        let same_mode = match response.get_str("controller_mode") {
            Some(mode) => same_text(mode, arm_name(self.config.mode)),
            None => false,
        };
        if !same_mode {
            return Err(infrastructure("bridge initialized another controller_mode"));
        }
        self.bridge_open = true;
        Ok(())
    }

    /// The request for a decision of the policy process.
    fn decide_request(&self, epoch: u64, observation: &ContextPolicyObservation) -> (request: Json)
        ensures
            request@ == decide_request_view(self.config(), epoch, *observation),
    {
        let mut pairs = self.request_pairs("decide", observation.thread_id.as_str(), epoch);
        let ghost identity = pairs@;
        let mut more = vec![
            entry("turn_id", Json::text(observation.turn_id.as_str())),
            entry("model_id", Json::text(observation.model_id.as_str())),
            entry("provider_id", Json::text(observation.provider_id.as_str())),
            entry("estimated_input_tokens", Json::signed(observation.estimated_input_tokens)),
            entry("formal_input_tokens", Json::signed(observation.formal_input_tokens)),
            entry("nominal_context_window", Json::opt_signed(observation.nominal_context_window)),
            entry("usable_context_window", Json::opt_signed(observation.usable_context_window)),
            entry("input_item_count", Json::unsigned(observation.input_item_count as u64)),
            entry(
                "model_visible_tool_count",
                Json::unsigned(observation.model_visible_tool_count as u64),
            ),
        ];
        assert(pairs_view(more@) =~= observation_entries(*observation));
        let ghost extra = more@;
        pairs.append(&mut more);
        assert(pairs_view(pairs@) =~= pairs_view(identity) + pairs_view(extra));
        Json::Object(pairs)
    }

    /// Decides on an observation, or says what to ask the policy process. The
    /// opening request comes first, until its answer has been accepted.
    pub fn decide(&self, epoch: u64, observation: ContextPolicyObservation) -> (step: DecideStep)
        ensures
            decides(step, self.config(), self.bridge_open(), epoch, observation),
    {
        if self.config.mode == ContextPolicyMode::NativeFixed {
            return DecideStep::Bypass;
        }
        if uses_external_bridge(self.config.mode) {
            let opening = if self.bridge_open {
                None
            } else {
                Some(self.initialize_request(observation.thread_id.as_str(), epoch))
            };
            let request = self.decide_request(epoch, &observation);
            return DecideStep::Ask { opening, observation, request };
        }
        let action = self.in_process_action(epoch, observation.formal_input_tokens);
        let decision = ContextPolicyDecision { epoch, action: Some(action) };
        let record = self.record_decision(decision, observation, None, None);
        DecideStep::Record { decision, record }
    }

    /// Decides on an observation as the response of the policy process says. Its
    /// diagnostics go into the record as they came.
    pub fn decide_with_response(
        &self,
        epoch: u64,
        observation: ContextPolicyObservation,
        response: &Json,
    ) -> (r: Result<(ContextPolicyDecision, ContextPolicyRecord), PolicyError>)
        ensures
            decided_by(r, self.config(), epoch, observation, response@),
    {
        match parse_bridge_decision(response) {
            Ok(said) => {
                let decision = ContextPolicyDecision { epoch, action: said.action };
                let record = self.record_decision(
                    decision,
                    observation,
                    Some(said.mode),
                    said.diagnostics,
                );
                Ok((decision, record))
            },
            Err(error) => Err(error),
        }
    }

    /// The record that the model is about to be invoked. The host's own limit is
    /// not recorded.
    pub fn record_ready_to_invoke(
        &self,
        decision: ContextPolicyDecision,
        observation: ContextPolicyObservation,
    ) -> (r: Option<ContextPolicyRecord>)
        ensures
            match r {
                None => self.config().mode == ContextPolicyMode::NativeFixed,
                Some(record) => self.config().mode != ContextPolicyMode::NativeFixed
                    && ready_record(record, self.config(), decision, observation),
            },
    {
        if self.config.mode == ContextPolicyMode::NativeFixed {
            return None;
        }
        let fields = self.record_fields(decision, observation);
        Some(ContextPolicyRecord::ReadyToInvoke { fields })
    }

    /// What has to be done to append a record to the log: the file is opened for
    /// the first record, and each record is one line that holds its document.
    pub fn append(&self, log_open: bool, record: ContextPolicyRecord) -> (r: Result<
        LogAppend,
        PolicyError,
    >)
        ensures
            appends(r, self.config(), log_open, record),
            r is Ok ==> !entries_text(record_entries(record)).contains('\n')
                && !entries_text(record_entries(record)).contains('\r'),
            r is Ok && entries_readable(record_entries(record)) ==> holds(
                entries_text(record_entries(record)),
                object(record_entries(record)),
            ),
    {
        let open = if log_open {
            None
        } else {
            match &self.config.raw_log_path {
                Some(path) => Some(path.clone()),
                None => {
                    return Err(other("controlled policy log path is missing"));
                },
            }
        };
        Ok(LogAppend { open, line: record.line() })
    }
}

// ---------------------------------------------------------------------------
// What holds of decisions and requests
// ---------------------------------------------------------------------------

/// A fixed threshold is one: a length at which it compacts stays one when the
/// length grows, in whatever epoch, and below the threshold it keeps.
pub proof fn law_fixed_threshold_is_a_threshold(
    config: ContextPolicyConfig,
    epoch: u64,
    later: u64,
    length: i64,
    longer: i64,
)
    requires
        config.mode == ContextPolicyMode::ControlledFixed,
        length <= longer,
    ensures
        in_process_action(config, epoch, length) == ContextPolicyAction::Compact
            ==> in_process_action(config, later, longer) == ContextPolicyAction::Compact,
        config.fixed_threshold_tokens matches Some(threshold) ==> (in_process_action(
            config,
            epoch,
            length,
        ) == ContextPolicyAction::Compact <==> length >= threshold),
{
}

/// A stub that can be used compacts at one epoch or never, whatever the length.
pub proof fn law_stub_compacts_at_one_epoch(
    config: ContextPolicyConfig,
    token_budget_enabled: bool,
    epoch: u64,
    length: i64,
)
    requires
        config.mode == ContextPolicyMode::ExternalStub,
        valid_config(config, token_budget_enabled),
    ensures
        in_process_action(config, epoch, length) == ContextPolicyAction::Compact
            <==> config.external_stub_compact_at_epoch == Some(epoch),
{
}

/// Every request to the policy process has all the fields that its response must
/// repeat, so that no response can agree with it by leaving them out.
pub proof fn law_requests_carry_their_identity(
    config: ContextPolicyConfig,
    thread_id: Seq<char>,
    epoch: u64,
    observation: ContextPolicyObservation,
    i: int,
)
    requires
        0 <= i < identity_fields().len(),
    ensures
        field(initialize_request_view(config, thread_id, epoch), identity_fields()[i]) is Some,
        field(decide_request_view(config, epoch, observation), identity_fields()[i]) is Some,
{
    let initialize = request_entries(config, "initialize"@, thread_id, epoch);
    let decide = request_entries(config, "decide"@, observation.thread_id@, epoch)
        + observation_entries(observation);
    lemma_entries_map_keys(initialize, i + 1);
    lemma_entries_map_keys(decide, i + 1);
    assert(initialize[i + 1].0 == identity_fields()[i]);
    assert(decide[i + 1].0 == identity_fields()[i]);
}

// ---------------------------------------------------------------------------
// What records and requests say
// ---------------------------------------------------------------------------

/// The record of a decision, and the document that it is written as, say under each key
/// what was configured, what was decided and what was observed.
pub proof fn law_decision_record_says_what_was_observed(
    record: ContextPolicyRecord,
    config: ContextPolicyConfig,
    decision: ContextPolicyDecision,
    observation: ContextPolicyObservation,
    mode: Option<Seq<char>>,
    diagnostics: Option<JsonView>,
)
    requires
        decision_record(record, config, decision, observation, mode, diagnostics),
    ensures
        ({
            let document = object(record_entries(record));
            let fields = record->Decision_fields;
            &&& record is Decision
            &&& fields.protocol_version@ == "phase8a-v1"@
            &&& config.run_id matches Some(id) ==> fields.run_id@ == id@
            &&& config.run_id is None ==> fields.run_id@.len() == 0
            &&& config.task_id matches Some(id) ==> fields.task_id@ == id@
            &&& config.task_id is None ==> fields.task_id@.len() == 0
            &&& config.replicate_id matches Some(id) ==> fields.replicate_id == id
            &&& config.replicate_id is None ==> fields.replicate_id == 0
            &&& fields.thread_id@ == observation.thread_id@
            &&& fields.turn_id@ == observation.turn_id@
            &&& fields.epoch == decision.epoch
            &&& fields.policy_mode == config.mode
            &&& fields.action == decision.action
            &&& fields.estimated_input_tokens == observation.estimated_input_tokens
            &&& fields.reusable_prefix_tokens is None
            &&& fields.nominal_context_window == observation.nominal_context_window
            &&& fields.usable_context_window == observation.usable_context_window
            &&& fields.input_item_count == observation.input_item_count
            &&& fields.model_visible_tool_count == observation.model_visible_tool_count
            &&& fields.model_id@ == observation.model_id@
            &&& fields.provider_id@ == observation.provider_id@
            &&& fields.measurement@ == "codex_coarse_prompt_estimate_v1"@
            &&& fields.model_visible_request@ == observation.model_visible_request@
            &&& field(document, "event"@) == Some(
                JsonView::Text("decision"@),
            )
            &&& field(document, "protocol_version"@) == Some(
                JsonView::Text("phase8a-v1"@),
            )
            &&& field(document, "run_id"@) == Some(
                match config.run_id {
                    Some(text) => JsonView::Text(text@),
                    None => JsonView::Text(Seq::empty()),
                },
            )
            &&& field(document, "task_id"@) == Some(
                match config.task_id {
                    Some(text) => JsonView::Text(text@),
                    None => JsonView::Text(Seq::empty()),
                },
            )
            &&& field(document, "replicate_id"@) == Some(
                match config.replicate_id {
                    Some(id) => JsonView::Number(NumberView::Integer(id as int)),
                    None => JsonView::Number(NumberView::Integer(0)),
                },
            )
            &&& field(document, "thread_id"@) == Some(
                JsonView::Text(observation.thread_id@),
            )
            &&& field(document, "turn_id"@) == Some(
                JsonView::Text(observation.turn_id@),
            )
            &&& field(document, "epoch"@) == Some(
                JsonView::Number(NumberView::Integer(decision.epoch as int)),
            )
            &&& field(document, "policy_mode"@) == Some(
                JsonView::Text(arm_text(config.mode)),
            )
            &&& field(document, "action"@) == Some(
                match decision.action {
                    Some(ContextPolicyAction::Keep) => JsonView::Text("KEEP"@),
                    Some(ContextPolicyAction::Compact) => JsonView::Text("COMPACT"@),
                    None => JsonView::Null,
                },
            )
            &&& field(document, "estimated_input_tokens"@) == Some(
                JsonView::Number(NumberView::Integer(observation.estimated_input_tokens as int)),
            )
            &&& field(document, "reusable_prefix_tokens"@) == Some(
                JsonView::Null,
            )
            &&& field(document, "nominal_context_window"@) == Some(
                match observation.nominal_context_window {
                    Some(n) => JsonView::Number(NumberView::Integer(n as int)),
                    None => JsonView::Null,
                },
            )
            &&& field(document, "usable_context_window"@) == Some(
                match observation.usable_context_window {
                    Some(n) => JsonView::Number(NumberView::Integer(n as int)),
                    None => JsonView::Null,
                },
            )
            &&& field(document, "input_item_count"@) == Some(
                JsonView::Number(NumberView::Integer(observation.input_item_count as int)),
            )
            &&& field(document, "model_visible_tool_count"@) == Some(
                JsonView::Number(NumberView::Integer(observation.model_visible_tool_count as int)),
            )
            &&& field(document, "model_id"@) == Some(
                JsonView::Text(observation.model_id@),
            )
            &&& field(document, "provider_id"@) == Some(
                JsonView::Text(observation.provider_id@),
            )
            &&& field(document, "measurement"@) == Some(
                JsonView::Text("codex_coarse_prompt_estimate_v1"@),
            )
            &&& field(document, "model_visible_request"@) == Some(
                observation.model_visible_request@,
            )
            &&& field(document, "compaction_reason"@) == Some(
                if decision.action == Some(ContextPolicyAction::Compact) {
                    JsonView::Text("context_limit"@)
                } else {
                    JsonView::Null
                },
            )
            &&& mode matches Some(text) ==> field(document, "decision_mode"@) == Some(
                JsonView::Text(text),
            )
            &&& mode is None ==> field(document, "decision_mode"@) is None
            &&& field(document, "decision_diagnostics"@) == Some(
                match diagnostics {
                    Some(json) => json,
                    None => JsonView::Null,
                },
            )
        }),
{
    let entries = record_entries(record);
    law_document_keeps_every_entry(record);
    assert(entries[0].0 == "event"@);
    assert(entries[1].0 == "protocol_version"@);
    assert(entries[2].0 == "run_id"@);
    assert(entries[3].0 == "task_id"@);
    assert(entries[4].0 == "replicate_id"@);
    assert(entries[5].0 == "thread_id"@);
    assert(entries[6].0 == "turn_id"@);
    assert(entries[7].0 == "epoch"@);
    assert(entries[8].0 == "policy_mode"@);
    assert(entries[9].0 == "action"@);
    assert(entries[10].0 == "compaction_reason"@);
    if mode is Some {
        assert(entries[11].0 == "decision_mode"@);
        assert(entries[12].0 == "decision_diagnostics"@);
        assert(entries[13].0 == "estimated_input_tokens"@);
        assert(entries[14].0 == "reusable_prefix_tokens"@);
        assert(entries[15].0 == "nominal_context_window"@);
        assert(entries[16].0 == "usable_context_window"@);
        assert(entries[17].0 == "input_item_count"@);
        assert(entries[18].0 == "model_visible_tool_count"@);
        assert(entries[19].0 == "model_id"@);
        assert(entries[20].0 == "provider_id"@);
        assert(entries[21].0 == "measurement"@);
        assert(entries[22].0 == "model_visible_request"@);
    } else {
        assert(entries[11].0 == "decision_diagnostics"@);
        assert(entries[12].0 == "estimated_input_tokens"@);
        assert(entries[13].0 == "reusable_prefix_tokens"@);
        assert(entries[14].0 == "nominal_context_window"@);
        assert(entries[15].0 == "usable_context_window"@);
        assert(entries[16].0 == "input_item_count"@);
        assert(entries[17].0 == "model_visible_tool_count"@);
        assert(entries[18].0 == "model_id"@);
        assert(entries[19].0 == "provider_id"@);
        assert(entries[20].0 == "measurement"@);
        assert(entries[21].0 == "model_visible_request"@);
        law_mode_is_left_out(record);
    }
}

/// The record of an invocation, and the document that it is written as, say under each
/// key what was configured, what was decided and what was observed. They say nothing of
/// why the decision was made.
pub proof fn law_ready_record_says_what_was_observed(
    record: ContextPolicyRecord,
    config: ContextPolicyConfig,
    decision: ContextPolicyDecision,
    observation: ContextPolicyObservation,
)
    requires
        ready_record(record, config, decision, observation),
    ensures
        ({
            let document = object(record_entries(record));
            let fields = record->ReadyToInvoke_fields;
            &&& record is ReadyToInvoke
            &&& fields.protocol_version@ == "phase8a-v1"@
            &&& config.run_id matches Some(id) ==> fields.run_id@ == id@
            &&& config.run_id is None ==> fields.run_id@.len() == 0
            &&& config.task_id matches Some(id) ==> fields.task_id@ == id@
            &&& config.task_id is None ==> fields.task_id@.len() == 0
            &&& config.replicate_id matches Some(id) ==> fields.replicate_id == id
            &&& config.replicate_id is None ==> fields.replicate_id == 0
            &&& fields.thread_id@ == observation.thread_id@
            &&& fields.turn_id@ == observation.turn_id@
            &&& fields.epoch == decision.epoch
            &&& fields.policy_mode == config.mode
            &&& fields.action == decision.action
            &&& fields.estimated_input_tokens == observation.estimated_input_tokens
            &&& fields.reusable_prefix_tokens is None
            &&& fields.nominal_context_window == observation.nominal_context_window
            &&& fields.usable_context_window == observation.usable_context_window
            &&& fields.input_item_count == observation.input_item_count
            &&& fields.model_visible_tool_count == observation.model_visible_tool_count
            &&& fields.model_id@ == observation.model_id@
            &&& fields.provider_id@ == observation.provider_id@
            &&& fields.measurement@ == "codex_coarse_prompt_estimate_v1"@
            &&& fields.model_visible_request@ == observation.model_visible_request@
            &&& field(document, "event"@) == Some(
                JsonView::Text("ready_to_invoke"@),
            )
            &&& field(document, "protocol_version"@) == Some(
                JsonView::Text("phase8a-v1"@),
            )
            &&& field(document, "run_id"@) == Some(
                match config.run_id {
                    Some(text) => JsonView::Text(text@),
                    None => JsonView::Text(Seq::empty()),
                },
            )
            &&& field(document, "task_id"@) == Some(
                match config.task_id {
                    Some(text) => JsonView::Text(text@),
                    None => JsonView::Text(Seq::empty()),
                },
            )
            &&& field(document, "replicate_id"@) == Some(
                match config.replicate_id {
                    Some(id) => JsonView::Number(NumberView::Integer(id as int)),
                    None => JsonView::Number(NumberView::Integer(0)),
                },
            )
            &&& field(document, "thread_id"@) == Some(
                JsonView::Text(observation.thread_id@),
            )
            &&& field(document, "turn_id"@) == Some(
                JsonView::Text(observation.turn_id@),
            )
            &&& field(document, "epoch"@) == Some(
                JsonView::Number(NumberView::Integer(decision.epoch as int)),
            )
            &&& field(document, "policy_mode"@) == Some(
                JsonView::Text(arm_text(config.mode)),
            )
            &&& field(document, "action"@) == Some(
                match decision.action {
                    Some(ContextPolicyAction::Keep) => JsonView::Text("KEEP"@),
                    Some(ContextPolicyAction::Compact) => JsonView::Text("COMPACT"@),
                    None => JsonView::Null,
                },
            )
            &&& field(document, "estimated_input_tokens"@) == Some(
                JsonView::Number(NumberView::Integer(observation.estimated_input_tokens as int)),
            )
            &&& field(document, "reusable_prefix_tokens"@) == Some(
                JsonView::Null,
            )
            &&& field(document, "nominal_context_window"@) == Some(
                match observation.nominal_context_window {
                    Some(n) => JsonView::Number(NumberView::Integer(n as int)),
                    None => JsonView::Null,
                },
            )
            &&& field(document, "usable_context_window"@) == Some(
                match observation.usable_context_window {
                    Some(n) => JsonView::Number(NumberView::Integer(n as int)),
                    None => JsonView::Null,
                },
            )
            &&& field(document, "input_item_count"@) == Some(
                JsonView::Number(NumberView::Integer(observation.input_item_count as int)),
            )
            &&& field(document, "model_visible_tool_count"@) == Some(
                JsonView::Number(NumberView::Integer(observation.model_visible_tool_count as int)),
            )
            &&& field(document, "model_id"@) == Some(
                JsonView::Text(observation.model_id@),
            )
            &&& field(document, "provider_id"@) == Some(
                JsonView::Text(observation.provider_id@),
            )
            &&& field(document, "measurement"@) == Some(
                JsonView::Text("codex_coarse_prompt_estimate_v1"@),
            )
            &&& field(document, "model_visible_request"@) == Some(
                observation.model_visible_request@,
            )
            &&& field(document, "compaction_reason"@) is None
            &&& field(document, "decision_mode"@) is None
            &&& field(document, "decision_diagnostics"@) is None
        }),
{
    let entries = record_entries(record);
    law_document_keeps_every_entry(record);
    law_mode_is_left_out(record);
    assert(entries[0].0 == "event"@);
    assert(entries[1].0 == "protocol_version"@);
    assert(entries[2].0 == "run_id"@);
    assert(entries[3].0 == "task_id"@);
    assert(entries[4].0 == "replicate_id"@);
    assert(entries[5].0 == "thread_id"@);
    assert(entries[6].0 == "turn_id"@);
    assert(entries[7].0 == "epoch"@);
    assert(entries[8].0 == "policy_mode"@);
    assert(entries[9].0 == "action"@);
    assert(entries[10].0 == "estimated_input_tokens"@);
    assert(entries[11].0 == "reusable_prefix_tokens"@);
    assert(entries[12].0 == "nominal_context_window"@);
    assert(entries[13].0 == "usable_context_window"@);
    assert(entries[14].0 == "input_item_count"@);
    assert(entries[15].0 == "model_visible_tool_count"@);
    assert(entries[16].0 == "model_id"@);
    assert(entries[17].0 == "provider_id"@);
    assert(entries[18].0 == "measurement"@);
    assert(entries[19].0 == "model_visible_request"@);
}

/// The request that opens the exchange says under each key what is configured.
pub proof fn law_opening_request_says_who_asks(
    config: ContextPolicyConfig,
    thread_id: Seq<char>,
    epoch: u64,
)
    ensures
        ({
            let document = initialize_request_view(config, thread_id, epoch);
            let run_id = match config.run_id {
                Some(text) => text@,
                None => Seq::empty(),
            };
            &&& field(document, "type"@) == Some(
                JsonView::Text("initialize"@),
            )
            &&& field(document, "protocol_version"@) == Some(
                JsonView::Text("phase8b-v1"@),
            )
            &&& field(document, "request_id"@) == Some(
                JsonView::Text(run_id + ":"@ + "initialize"@ + ":"@ + decimal_text(epoch as nat)),
            )
            &&& field(document, "run_id"@) == Some(
                JsonView::Text(run_id),
            )
            &&& field(document, "task_id"@) == Some(
                match config.task_id {
                    Some(text) => JsonView::Text(text@),
                    None => JsonView::Text(Seq::empty()),
                },
            )
            &&& field(document, "replicate_id"@) == Some(
                match config.replicate_id {
                    Some(id) => JsonView::Number(NumberView::Integer(id as int)),
                    None => JsonView::Number(NumberView::Integer(0)),
                },
            )
            &&& field(document, "thread_id"@) == Some(
                JsonView::Text(thread_id),
            )
            &&& field(document, "epoch"@) == Some(
                JsonView::Number(NumberView::Integer(epoch as int)),
            )
            &&& field(document, "controller_mode"@) == Some(
                JsonView::Text(arm_text(config.mode)),
            )
        }),
{
    reveal_strlit("type");
    assert(key_code("type"@) == 4_116_121);
    reveal_strlit("protocol_version");
    assert(key_code("protocol_version"@) == 16_112_114);
    reveal_strlit("request_id");
    assert(key_code("request_id"@) == 10_114_101);
    reveal_strlit("run_id");
    assert(key_code("run_id"@) == 6_114_117);
    reveal_strlit("task_id");
    assert(key_code("task_id"@) == 7_116_097);
    reveal_strlit("replicate_id");
    assert(key_code("replicate_id"@) == 12_114_101);
    reveal_strlit("thread_id");
    assert(key_code("thread_id"@) == 9_116_104);
    reveal_strlit("epoch");
    assert(key_code("epoch"@) == 5_101_112);
    reveal_strlit("controller_mode");
    assert(key_code("controller_mode"@) == 15_099_111);
    let entries = request_entries(config, "initialize"@, thread_id, epoch);
    assert(entries[0].0 == "type"@);
    assert(entries[1].0 == "protocol_version"@);
    assert(entries[2].0 == "request_id"@);
    assert(entries[3].0 == "run_id"@);
    assert(entries[4].0 == "task_id"@);
    assert(entries[5].0 == "replicate_id"@);
    assert(entries[6].0 == "thread_id"@);
    assert(entries[7].0 == "epoch"@);
    assert(entries[8].0 == "controller_mode"@);
    lemma_entries_apart(entries);
}

/// The request for a decision says under each key what is configured and observed.
pub proof fn law_decide_request_says_what_is_observed(
    config: ContextPolicyConfig,
    epoch: u64,
    observation: ContextPolicyObservation,
)
    ensures
        ({
            let document = decide_request_view(config, epoch, observation);
            let run_id = match config.run_id {
                Some(text) => text@,
                None => Seq::empty(),
            };
            &&& field(document, "type"@) == Some(
                JsonView::Text("decide"@),
            )
            &&& field(document, "protocol_version"@) == Some(
                JsonView::Text("phase8b-v1"@),
            )
            &&& field(document, "request_id"@) == Some(
                JsonView::Text(run_id + ":"@ + "decide"@ + ":"@ + decimal_text(epoch as nat)),
            )
            &&& field(document, "run_id"@) == Some(
                JsonView::Text(run_id),
            )
            &&& field(document, "task_id"@) == Some(
                match config.task_id {
                    Some(text) => JsonView::Text(text@),
                    None => JsonView::Text(Seq::empty()),
                },
            )
            &&& field(document, "replicate_id"@) == Some(
                match config.replicate_id {
                    Some(id) => JsonView::Number(NumberView::Integer(id as int)),
                    None => JsonView::Number(NumberView::Integer(0)),
                },
            )
            &&& field(document, "thread_id"@) == Some(
                JsonView::Text(observation.thread_id@),
            )
            &&& field(document, "epoch"@) == Some(
                JsonView::Number(NumberView::Integer(epoch as int)),
            )
            &&& field(document, "controller_mode"@) == Some(
                JsonView::Text(arm_text(config.mode)),
            )
            &&& field(document, "turn_id"@) == Some(
                JsonView::Text(observation.turn_id@),
            )
            &&& field(document, "model_id"@) == Some(
                JsonView::Text(observation.model_id@),
            )
            &&& field(document, "provider_id"@) == Some(
                JsonView::Text(observation.provider_id@),
            )
            &&& field(document, "estimated_input_tokens"@) == Some(
                JsonView::Number(NumberView::Integer(observation.estimated_input_tokens as int)),
            )
            &&& field(document, "formal_input_tokens"@) == Some(
                JsonView::Number(NumberView::Integer(observation.formal_input_tokens as int)),
            )
            &&& field(document, "nominal_context_window"@) == Some(
                match observation.nominal_context_window {
                    Some(n) => JsonView::Number(NumberView::Integer(n as int)),
                    None => JsonView::Null,
                },
            )
            &&& field(document, "usable_context_window"@) == Some(
                match observation.usable_context_window {
                    Some(n) => JsonView::Number(NumberView::Integer(n as int)),
                    None => JsonView::Null,
                },
            )
            &&& field(document, "input_item_count"@) == Some(
                JsonView::Number(NumberView::Integer(observation.input_item_count as int)),
            )
            &&& field(document, "model_visible_tool_count"@) == Some(
                JsonView::Number(NumberView::Integer(observation.model_visible_tool_count as int)),
            )
        }),
{
    reveal_strlit("type");
    assert(key_code("type"@) == 4_116_121);
    reveal_strlit("protocol_version");
    assert(key_code("protocol_version"@) == 16_112_114);
    reveal_strlit("request_id");
    assert(key_code("request_id"@) == 10_114_101);
    reveal_strlit("run_id");
    assert(key_code("run_id"@) == 6_114_117);
    reveal_strlit("task_id");
    assert(key_code("task_id"@) == 7_116_097);
    reveal_strlit("replicate_id");
    assert(key_code("replicate_id"@) == 12_114_101);
    reveal_strlit("thread_id");
    assert(key_code("thread_id"@) == 9_116_104);
    reveal_strlit("epoch");
    assert(key_code("epoch"@) == 5_101_112);
    reveal_strlit("controller_mode");
    assert(key_code("controller_mode"@) == 15_099_111);
    reveal_strlit("turn_id");
    assert(key_code("turn_id"@) == 7_116_117);
    reveal_strlit("model_id");
    assert(key_code("model_id"@) == 8_109_111);
    reveal_strlit("provider_id");
    assert(key_code("provider_id"@) == 11_112_114);
    reveal_strlit("estimated_input_tokens");
    assert(key_code("estimated_input_tokens"@) == 22_101_115);
    reveal_strlit("formal_input_tokens");
    assert(key_code("formal_input_tokens"@) == 19_102_111);
    reveal_strlit("nominal_context_window");
    assert(key_code("nominal_context_window"@) == 22_110_111);
    reveal_strlit("usable_context_window");
    assert(key_code("usable_context_window"@) == 21_117_115);
    reveal_strlit("input_item_count");
    assert(key_code("input_item_count"@) == 16_105_110);
    reveal_strlit("model_visible_tool_count");
    assert(key_code("model_visible_tool_count"@) == 24_109_111);
    let entries = request_entries(config, "decide"@, observation.thread_id@, epoch)
        + observation_entries(observation);
    assert(entries[0].0 == "type"@);
    assert(entries[1].0 == "protocol_version"@);
    assert(entries[2].0 == "request_id"@);
    assert(entries[3].0 == "run_id"@);
    assert(entries[4].0 == "task_id"@);
    assert(entries[5].0 == "replicate_id"@);
    assert(entries[6].0 == "thread_id"@);
    assert(entries[7].0 == "epoch"@);
    assert(entries[8].0 == "controller_mode"@);
    assert(entries[9].0 == "turn_id"@);
    assert(entries[10].0 == "model_id"@);
    assert(entries[11].0 == "provider_id"@);
    assert(entries[12].0 == "estimated_input_tokens"@);
    assert(entries[13].0 == "formal_input_tokens"@);
    assert(entries[14].0 == "nominal_context_window"@);
    assert(entries[15].0 == "usable_context_window"@);
    assert(entries[16].0 == "input_item_count"@);
    assert(entries[17].0 == "model_visible_tool_count"@);
    lemma_entries_apart(entries);
}

/// The exchange is opened exactly by an answer that says so and repeats the mode.
pub proof fn law_opening_is_answered(mode: ContextPolicyMode, response: JsonView)
    ensures
        initialized_complaint(mode, response) is None <==> field(response, "type"@) == Some(
            JsonView::Text("initialized"@),
        ) && field(response, "controller_mode"@) == Some(JsonView::Text(arm_text(mode))),
        field(response, "type"@) != Some(JsonView::Text("initialized"@)) ==> initialized_complaint(
            mode,
            response,
        ) == Some("bridge did not initialize"@),
        field(response, "type"@) == Some(JsonView::Text("initialized"@)) && field(
            response,
            "controller_mode"@,
        ) != Some(JsonView::Text(arm_text(mode))) ==> initialized_complaint(mode, response) == Some(
            "bridge initialized another controller_mode"@,
        ),
{
}

/// What a policy in process does: a threshold compacts from the threshold on, a stub at
/// its epoch or never, and nothing else compacts.
pub proof fn law_policy_in_process_acts(config: ContextPolicyConfig, epoch: u64, length: i64)
    ensures
        config.mode == ContextPolicyMode::ControlledFixed ==> (in_process_action(
            config,
            epoch,
            length,
        ) == ContextPolicyAction::Compact <==> (config.fixed_threshold_tokens is Some && length
            >= config.fixed_threshold_tokens->0) || (config.fixed_threshold_tokens is None && length
            == i64::MAX)),
        config.mode == ContextPolicyMode::ExternalStub ==> (in_process_action(config, epoch, length)
            == ContextPolicyAction::Compact <==> config.external_stub == Some(
            ExternalContextPolicyStub::CompactAtEpoch,
        ) && config.external_stub_compact_at_epoch == Some(epoch)),
        config.mode != ContextPolicyMode::ControlledFixed && config.mode
            != ContextPolicyMode::ExternalStub ==> in_process_action(config, epoch, length)
            == ContextPolicyAction::Keep,
{
}

/// A count of tokens is kept where it is in the range of `i64`, and cut off at its end.
pub proof fn law_counts_are_cut_off(count: usize)
    ensures
        count <= i64::MAX ==> clamped_count(count) == count,
        count > i64::MAX ==> clamped_count(count) == i64::MAX,
{
}

/// Where a counter gives one count for the compact text of a request, the estimate is
/// that count, cut off at the end of the range of `i64`.
pub proof fn law_estimate_is_the_count<F: Fn(&str) -> usize>(
    approx_token_count: F,
    request: JsonView,
    tokens: i64,
    count: usize,
)
    requires
        estimates(approx_token_count, request, tokens),
        forall|text: &str, n: usize| #[trigger]
            call_ensures(approx_token_count, (text,), n) && text@ == json_text(request) ==> n
                == count,
    ensures
        count <= i64::MAX ==> tokens == count,
        count > i64::MAX ==> tokens == i64::MAX,
{
}

/// The fixed texts of the recorded protocol.
pub proof fn law_recorded_protocol_is_fixed()
    ensures
        PROTOCOL_VERSION@ == "phase8a-v1"@,
        MEASUREMENT@ == "codex_coarse_prompt_estimate_v1"@,
{
}

/// An observation holds what is known of the prompt, the model and the request, each in
/// its own place.
pub proof fn law_observation_holds_what_is_known(
    observation: ContextPolicyObservation,
    prompt: Prompt,
    model_visible_request: Json,
    model_info: ModelInfo,
    thread_id: Seq<char>,
    turn_id: Seq<char>,
    provider_id: Seq<char>,
)
    requires
        observes(
            observation,
            prompt,
            model_visible_request,
            model_info,
            thread_id,
            turn_id,
            provider_id,
        ),
    ensures
        observation.nominal_context_window == model_info.context_window,
        observation.usable_context_window == model_info.usable_context_window,
        observation.input_item_count == prompt.input_item_count,
        observation.model_visible_tool_count == prompt.tool_count,
        observation.model_id@ == model_info.slug@,
        observation.provider_id@ == provider_id,
        observation.thread_id@ == thread_id,
        observation.turn_id@ == turn_id,
        observation.model_visible_request@ == model_visible_request@,
        observation.formal_input_tokens == observation.estimated_input_tokens,
{
}

/// Each mode decides in its own way: the host's own limit not at all, a threshold by the
/// formal length and a stub by the epoch, at once and with a record, and a policy process
/// by being asked, with the opening request first until the exchange is open.
pub proof fn law_each_mode_decides_in_its_own_way(
    step: DecideStep,
    config: ContextPolicyConfig,
    bridge_open: bool,
    epoch: u64,
    observation: ContextPolicyObservation,
)
    requires
        decides(step, config, bridge_open, epoch, observation),
    ensures
        step is Bypass <==> config.mode == ContextPolicyMode::NativeFixed,
        step is Record <==> config.mode == ContextPolicyMode::ControlledFixed || config.mode
            == ContextPolicyMode::ExternalStub,
        step is Ask <==> config.mode == ContextPolicyMode::TcpAccumulator || config.mode
            == ContextPolicyMode::MpcH1 || config.mode == ContextPolicyMode::Mpc,
        step matches DecideStep::Record { decision, record } ==> {
            &&& decision.epoch == epoch
            &&& decision.action is Some
            &&& config.mode == ContextPolicyMode::ControlledFixed && config.fixed_threshold_tokens
                is Some ==> (decision.action == Some(ContextPolicyAction::Compact)
                <==> observation.formal_input_tokens >= config.fixed_threshold_tokens->0)
            &&& config.mode == ContextPolicyMode::ExternalStub ==> (decision.action == Some(
                ContextPolicyAction::Compact,
            ) <==> config.external_stub == Some(ExternalContextPolicyStub::CompactAtEpoch)
                && config.external_stub_compact_at_epoch == Some(epoch))
            &&& decision_record(record, config, decision, observation, None, None)
        },
        step matches DecideStep::Ask { opening, observation: kept, request } ==> {
            &&& kept == observation
            &&& request@ == decide_request_view(config, epoch, observation)
            &&& opening is None <==> bridge_open
            &&& opening matches Some(first) ==> first@ == initialize_request_view(
                config,
                observation.thread_id@,
                epoch,
            )
        },
{
}

/// A response of the policy process decides for the epoch that it was asked for, by the
/// action that it names. The decision is recorded on the observation that was asked
/// about, with the mode and the diagnostics of the response. A response that does not
/// decide is a failure of the policy process.
pub proof fn law_policy_process_decides(
    r: Result<(ContextPolicyDecision, ContextPolicyRecord), PolicyError>,
    config: ContextPolicyConfig,
    epoch: u64,
    observation: ContextPolicyObservation,
    response: JsonView,
)
    requires
        decided_by(r, config, epoch, observation, response),
    ensures
        r is Ok <==> decision_in(response) is Ok,
        r matches Err(error) ==> error.kind == ErrorKind::Other && decision_in(response) is Err
            && error.message@ == "context policy infrastructure failure: "@ + decision_in(
            response,
        )->Err_0,
        r matches Ok((decision, record)) ==> {
            &&& decision.epoch == epoch
            &&& decision.action == Some(ContextPolicyAction::Keep) <==> field(response, "action"@)
                == Some(JsonView::Text("KEEP"@))
            &&& decision.action == Some(ContextPolicyAction::Compact) <==> field(
                response,
                "action"@,
            ) == Some(JsonView::Text("COMPACT"@))
            &&& decision.action is None <==> field(response, "action"@) == Some(JsonView::Null)
            &&& decision_record(
                record,
                config,
                decision,
                observation,
                text_field(response, "decision_mode"@),
                field(response, "diagnostics"@),
            )
        },
{
    if let Ok(said) = decision_in(response) {
        law_decision_is_what_the_response_says(response, said, 0);
    }
}

/// Appending opens the configured log for the first record only, and writes the line of
/// the record. It fails exactly where the log is not open and none is configured.
pub proof fn law_append_opens_the_log_once(
    r: Result<LogAppend, PolicyError>,
    config: ContextPolicyConfig,
    log_open: bool,
    record: ContextPolicyRecord,
)
    requires
        appends(r, config, log_open, record),
    ensures
        r is Err <==> !log_open && config.raw_log_path is None,
        r matches Err(error) ==> error.kind == ErrorKind::Other && error.message@
            == "controlled policy log path is missing"@,
        r matches Ok(append) ==> {
            &&& append.line@ == entries_text(record_entries(record)) + seq!['\n']
            &&& append.open is Some <==> !log_open
            &&& append.open is Some ==> config.raw_log_path is Some && append.open->0@
                == config.raw_log_path->0@
        },
{
}

} // verus!
