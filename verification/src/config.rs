//! The configuration of the context policy, and when it can be used.

use vstd::prelude::*;

use crate::error::{invalid, invalid_error, ErrorKind, PolicyError};
use crate::text::{opt_text, same_text};

verus! {

/// Who decides when the context is compacted.
#[derive(Clone, Copy, Debug, PartialEq, Eq, Structural)]
pub enum ContextPolicyMode {
    /// The host's own fixed limit, outside the controlled seam.
    NativeFixed,
    /// A fixed threshold, decided in process.
    ControlledFixed,
    /// A stub that stands for an outside policy, decided in process.
    ExternalStub,
    /// An accumulator policy in a process of its own.
    TcpAccumulator,
    /// A planner with horizon one in a process of its own.
    MpcH1,
    /// A planner in a process of its own.
    Mpc,
}

/// What the stub for an outside policy does.
#[derive(Clone, Copy, Debug, PartialEq, Eq, Structural)]
pub enum ExternalContextPolicyStub {
    AlwaysKeep,
    CompactAtEpoch,
}

/// The configuration of the context policy. Paths are absolute.
#[derive(Clone, Debug)]
pub struct ContextPolicyConfig {
    pub mode: ContextPolicyMode,
    pub fixed_threshold_tokens: Option<i64>,
    pub external_stub: Option<ExternalContextPolicyStub>,
    pub external_stub_compact_at_epoch: Option<u64>,
    pub run_id: Option<String>,
    pub task_id: Option<String>,
    pub replicate_id: Option<u64>,
    pub raw_log_path: Option<String>,
    pub request_raw_log_path: Option<String>,
    pub pricing_schedule_id: Option<String>,
    pub bridge_command: Option<String>,
    pub bridge_args: Vec<String>,
    pub bridge_working_directory: Option<String>,
    pub bridge_timeout_ms: Option<u64>,
    pub controller_config_id: Option<String>,
    pub z_schema_version: Option<String>,
    pub seed: Option<u64>,
    pub recovery_artifact_id: Option<String>,
}

impl Default for ContextPolicyConfig {
    /// The native mode with nothing else set.
    fn default() -> (config: Self)
        ensures
            config.mode == ContextPolicyMode::NativeFixed,
            config.fixed_threshold_tokens is None,
            config.external_stub is None,
            config.external_stub_compact_at_epoch is None,
            config.run_id is None,
            config.task_id is None,
            config.replicate_id is None,
            config.raw_log_path is None,
            config.request_raw_log_path is None,
            config.pricing_schedule_id is None,
            config.bridge_command is None,
            config.bridge_args@.len() == 0,
            config.bridge_working_directory is None,
            config.bridge_timeout_ms is None,
            config.controller_config_id is None,
            config.z_schema_version is None,
            config.seed is None,
            config.recovery_artifact_id is None,
    {
        ContextPolicyConfig {
            mode: ContextPolicyMode::NativeFixed,
            fixed_threshold_tokens: None,
            external_stub: None,
            external_stub_compact_at_epoch: None,
            run_id: None,
            task_id: None,
            replicate_id: None,
            raw_log_path: None,
            request_raw_log_path: None,
            pricing_schedule_id: None,
            bridge_command: None,
            bridge_args: Vec::new(),
            bridge_working_directory: None,
            bridge_timeout_ms: None,
            controller_config_id: None,
            z_schema_version: None,
            seed: None,
            recovery_artifact_id: None,
        }
    }
}

// ---------------------------------------------------------------------------
// What a mode needs
// ---------------------------------------------------------------------------

/// The modes whose policy runs in a process of its own.
pub open spec fn bridge_mode(mode: ContextPolicyMode) -> bool {
    mode == ContextPolicyMode::TcpAccumulator || mpc_mode(mode)
}

/// The modes whose policy plans ahead over a predicted workload.
pub open spec fn mpc_mode(mode: ContextPolicyMode) -> bool {
    mode == ContextPolicyMode::MpcH1 || mode == ContextPolicyMode::Mpc
}

/// Whether the policy of the mode runs in a process of its own.
pub fn uses_external_bridge(mode: ContextPolicyMode) -> (r: bool)
    ensures
        r == bridge_mode(mode),
{
    match mode {
        ContextPolicyMode::TcpAccumulator | ContextPolicyMode::MpcH1 | ContextPolicyMode::Mpc => {
            true
        },
        ContextPolicyMode::NativeFixed
        | ContextPolicyMode::ControlledFixed
        | ContextPolicyMode::ExternalStub => false,
    }
}

/// Whether the policy of the mode is told how a compaction went.
pub fn needs_compact_feedback(mode: ContextPolicyMode) -> (r: bool)
    ensures
        r == bridge_mode(mode),
{
    uses_external_bridge(mode)
}

/// Whether the policy of the mode has a process to shut down at the end.
pub fn needs_bridge_terminal_shutdown(mode: ContextPolicyMode) -> (r: bool)
    ensures
        r == bridge_mode(mode),
{
    uses_external_bridge(mode)
}

/// Whether the policy of the mode observes the reusable prefix.
pub fn uses_formal_prefix_state_k(mode: ContextPolicyMode) -> (r: bool)
    ensures
        r == bridge_mode(mode),
{
    uses_external_bridge(mode)
}

/// Whether the policy of the mode predicts future workload.
pub fn uses_workload_prediction(mode: ContextPolicyMode) -> (r: bool)
    ensures
        r == mpc_mode(mode),
{
    match mode {
        ContextPolicyMode::MpcH1 | ContextPolicyMode::Mpc => true,
        ContextPolicyMode::TcpAccumulator
        | ContextPolicyMode::NativeFixed
        | ContextPolicyMode::ControlledFixed
        | ContextPolicyMode::ExternalStub => false,
    }
}

/// The name of a mode in recorded evidence.
pub open spec fn arm_text(mode: ContextPolicyMode) -> Seq<char> {
    match mode {
        ContextPolicyMode::NativeFixed => "native_fixed"@,
        ContextPolicyMode::ControlledFixed => "controlled_fixed"@,
        ContextPolicyMode::ExternalStub => "external_stub"@,
        ContextPolicyMode::TcpAccumulator => "tcp_accumulator"@,
        ContextPolicyMode::MpcH1 => "mpc_h1"@,
        ContextPolicyMode::Mpc => "mpc"@,
    }
}

/// The name of a mode in recorded evidence.
pub fn arm_name(mode: ContextPolicyMode) -> (name: &'static str)
    ensures
        name@ == arm_text(mode),
{
    match mode {
        ContextPolicyMode::NativeFixed => "native_fixed",
        ContextPolicyMode::ControlledFixed => "controlled_fixed",
        ContextPolicyMode::ExternalStub => "external_stub",
        ContextPolicyMode::TcpAccumulator => "tcp_accumulator",
        ContextPolicyMode::MpcH1 => "mpc_h1",
        ContextPolicyMode::Mpc => "mpc",
    }
}

/// Different modes have different names.
pub proof fn law_arm_names_differ(a: ContextPolicyMode, b: ContextPolicyMode)
    ensures
        arm_text(a) == arm_text(b) ==> a == b,
{
    reveal_strlit("native_fixed");
    assert("native_fixed"@.len() == 12);
    reveal_strlit("controlled_fixed");
    assert("controlled_fixed"@.len() == 16);
    reveal_strlit("external_stub");
    assert("external_stub"@.len() == 13);
    reveal_strlit("tcp_accumulator");
    assert("tcp_accumulator"@.len() == 15);
    reveal_strlit("mpc_h1");
    assert("mpc_h1"@.len() == 6);
    reveal_strlit("mpc");
    assert("mpc"@.len() == 3);
}

/// Whether the host's own context limit applies.
pub fn native_context_limit_enabled(config: &ContextPolicyConfig) -> (r: bool)
    ensures
        r == (config.mode == ContextPolicyMode::NativeFixed),
{
    config.mode == ContextPolicyMode::NativeFixed
}

// ---------------------------------------------------------------------------
// When a configuration can be used
// ---------------------------------------------------------------------------

/// The only version of the observation schema that is understood.
pub const Z_SCHEMA_VERSION: &'static str = "phase4-observable-v1";

/// Whether an identifier is there and not empty.
pub open spec fn named(id: Option<String>) -> bool {
    id matches Some(text) && text@.len() > 0
}

/// Whether the run, the task and the replicate are named.
pub open spec fn run_named(config: ContextPolicyConfig) -> bool {
    named(config.run_id) && named(config.task_id) && config.replicate_id is Some
}

/// Whether the run, the task and the replicate are given. A name may be empty.
pub open spec fn run_given(config: ContextPolicyConfig) -> bool {
    config.run_id is Some && config.task_id is Some && config.replicate_id is Some
}

/// Whether the settings of the request ledger fit together.
pub open spec fn ledger_settings_fit(config: ContextPolicyConfig) -> bool {
    &&& config.request_raw_log_path is Some ==> run_given(config)
    &&& config.pricing_schedule_id is Some ==> config.request_raw_log_path is Some
}

/// Whether a stub is configured, in whole or in part.
pub open spec fn stub_configured(config: ContextPolicyConfig) -> bool {
    config.external_stub is Some || config.external_stub_compact_at_epoch is Some
}

/// Whether the settings of the mode are there, and those of other modes not.
pub open spec fn mode_settings_fit(config: ContextPolicyConfig) -> bool {
    match config.mode {
        ContextPolicyMode::NativeFixed => true,
        ContextPolicyMode::ControlledFixed => {
            &&& config.fixed_threshold_tokens matches Some(tokens) && tokens > 0
            &&& !stub_configured(config)
        },
        ContextPolicyMode::ExternalStub => {
            &&& config.fixed_threshold_tokens is None
            &&& config.external_stub is Some
            &&& config.external_stub == Some(ExternalContextPolicyStub::CompactAtEpoch) <==>
                config.external_stub_compact_at_epoch is Some
        },
        _ => {
            &&& config.fixed_threshold_tokens is None
            &&& !stub_configured(config)
            &&& config.bridge_command is Some
            &&& config.bridge_timeout_ms != Some(0u64)
            &&& named(config.controller_config_id)
            &&& opt_text(config.z_schema_version) == Some(Z_SCHEMA_VERSION@)
            &&& mpc_mode(config.mode) ==> config.seed is Some && named(config.recovery_artifact_id)
        },
    }
}

/// Whether a configuration can be used.
pub open spec fn valid_config(config: ContextPolicyConfig, token_budget_enabled: bool) -> bool {
    &&& ledger_settings_fit(config)
    &&& config.mode != ContextPolicyMode::NativeFixed ==> {
        &&& !token_budget_enabled
        &&& run_named(config)
        &&& config.raw_log_path is Some
        &&& mode_settings_fit(config)
    }
}

/// What is wrong with the settings of the request ledger, where something is.
pub open spec fn ledger_complaint(config: ContextPolicyConfig) -> Option<Seq<char>> {
    if config.request_raw_log_path is Some && !run_given(config) {
        Some("request_raw_log_path requires run_id, task_id, and replicate_id"@)
    } else if config.pricing_schedule_id is Some && config.request_raw_log_path is None {
        Some("pricing_schedule_id requires request_raw_log_path"@)
    } else {
        None
    }
}

/// What is wrong with what all controlled modes need, where something is.
pub open spec fn controlled_complaint(
    config: ContextPolicyConfig,
    token_budget_enabled: bool,
) -> Option<Seq<char>> {
    if token_budget_enabled {
        Some("controlled context policy modes require TokenBudget to be disabled"@)
    } else if !run_named(config) || config.raw_log_path is None {
        Some(
            "controlled context policy modes require run_id, task_id, replicate_id, and raw_log_path"@,
        )
    } else {
        None
    }
}

/// What is wrong with the settings of the fixed threshold, where something is.
pub open spec fn fixed_complaint(config: ContextPolicyConfig) -> Option<Seq<char>> {
    if !(config.fixed_threshold_tokens matches Some(tokens) && tokens > 0) {
        Some("controlled_fixed requires a positive fixed_threshold_tokens"@)
    } else if stub_configured(config) {
        Some("controlled_fixed cannot include external stub settings"@)
    } else {
        None
    }
}

/// What is wrong with the settings of the stub, where something is.
pub open spec fn stub_complaint(config: ContextPolicyConfig) -> Option<Seq<char>> {
    if config.fixed_threshold_tokens is Some {
        Some("external_stub cannot include fixed_threshold_tokens"@)
    } else {
        match config.external_stub {
            Some(ExternalContextPolicyStub::AlwaysKeep) => if config.external_stub_compact_at_epoch
                is Some {
                Some("always_keep cannot include external_stub_compact_at_epoch"@)
            } else {
                None
            },
            Some(
                ExternalContextPolicyStub::CompactAtEpoch,
            ) => if config.external_stub_compact_at_epoch is None {
                Some("compact_at_epoch requires external_stub_compact_at_epoch"@)
            } else {
                None
            },
            None => Some("external_stub requires an explicit external_stub policy"@),
        }
    }
}

/// What is wrong with the settings of a policy process, where something is.
pub open spec fn bridge_complaint(config: ContextPolicyConfig) -> Option<Seq<char>> {
    if config.fixed_threshold_tokens is Some {
        Some("bridge modes cannot include fixed_threshold_tokens"@)
    } else if stub_configured(config) {
        Some("bridge modes cannot include external stub settings"@)
    } else if config.bridge_command is None {
        Some("bridge modes require bridge_command"@)
    } else if config.bridge_timeout_ms == Some(0u64) {
        Some("bridge modes require a positive bridge_timeout_ms"@)
    } else if !named(config.controller_config_id) {
        Some("bridge modes require controller_config_id"@)
    } else if opt_text(config.z_schema_version) != Some(Z_SCHEMA_VERSION@) {
        Some("bridge modes require a supported z_schema_version"@)
    } else if mpc_mode(config.mode) && config.seed is None {
        Some("MPC modes require seed"@)
    } else if mpc_mode(config.mode) && !named(config.recovery_artifact_id) {
        Some("MPC modes require recovery_artifact_id"@)
    } else {
        None
    }
}

/// What is wrong with the settings of the mode, where something is: with what all
/// controlled modes need, or with what the mode itself needs.
pub open spec fn mode_complaint(
    config: ContextPolicyConfig,
    token_budget_enabled: bool,
) -> Option<Seq<char>> {
    if config.mode == ContextPolicyMode::NativeFixed {
        None
    } else if controlled_complaint(config, token_budget_enabled) is Some {
        controlled_complaint(config, token_budget_enabled)
    } else {
        match config.mode {
            ContextPolicyMode::NativeFixed => None,
            ContextPolicyMode::ControlledFixed => fixed_complaint(config),
            ContextPolicyMode::ExternalStub => stub_complaint(config),
            _ => bridge_complaint(config),
        }
    }
}

/// The first complaint about a configuration, where there is one: about the mode,
/// then about the request ledger.
pub open spec fn config_complaint(
    config: ContextPolicyConfig,
    token_budget_enabled: bool,
) -> Option<Seq<char>> {
    if mode_complaint(config, token_budget_enabled) is Some {
        mode_complaint(config, token_budget_enabled)
    } else {
        ledger_complaint(config)
    }
}

fn is_named(id: &Option<String>) -> (r: bool)
    ensures
        r == named(*id),
{
    match id {
        Some(text) => !text.as_str().is_empty(),
        None => false,
    }
}

/// Whether the run, the task and the replicate are named.
fn run_is_named(config: &ContextPolicyConfig) -> (r: bool)
    ensures
        r == run_named(*config),
{
    is_named(&config.run_id) && is_named(&config.task_id) && config.replicate_id.is_some()
}

/// The result that a complaint calls for.
pub open spec fn verdict(r: Result<(), PolicyError>, complaint: Option<Seq<char>>) -> bool {
    match complaint {
        Some(message) => r matches Err(error) && error@ == invalid_error(message),
        None => r is Ok,
    }
}

/// Checks the settings of the fixed threshold.
fn validate_fixed(config: &ContextPolicyConfig) -> (r: Result<(), PolicyError>)
    ensures
        verdict(r, fixed_complaint(*config)),
{
    let positive = match config.fixed_threshold_tokens {
        Some(tokens) => tokens > 0,
        None => false,
    };
    if !positive {
        return Err(invalid("controlled_fixed requires a positive fixed_threshold_tokens"));
    }
    if config.external_stub.is_some() || config.external_stub_compact_at_epoch.is_some() {
        return Err(invalid("controlled_fixed cannot include external stub settings"));
    }
    Ok(())
}

/// Checks the settings of the stub.
fn validate_stub(config: &ContextPolicyConfig) -> (r: Result<(), PolicyError>)
    ensures
        verdict(r, stub_complaint(*config)),
{
    if config.fixed_threshold_tokens.is_some() {
        return Err(invalid("external_stub cannot include fixed_threshold_tokens"));
    }
    match config.external_stub {
        Some(ExternalContextPolicyStub::AlwaysKeep) => {
            if config.external_stub_compact_at_epoch.is_some() {
                return Err(invalid("always_keep cannot include external_stub_compact_at_epoch"));
            }
        },
        Some(ExternalContextPolicyStub::CompactAtEpoch) => {
            if config.external_stub_compact_at_epoch.is_none() {
                return Err(invalid("compact_at_epoch requires external_stub_compact_at_epoch"));
            }
        },
        None => {
            return Err(invalid("external_stub requires an explicit external_stub policy"));
        },
    }
    Ok(())
}

/// Checks the settings of a policy process.
fn validate_bridge(config: &ContextPolicyConfig) -> (r: Result<(), PolicyError>)
    ensures
        verdict(r, bridge_complaint(*config)),
{
    if config.fixed_threshold_tokens.is_some() {
        return Err(invalid("bridge modes cannot include fixed_threshold_tokens"));
    }
    if config.external_stub.is_some() || config.external_stub_compact_at_epoch.is_some() {
        return Err(invalid("bridge modes cannot include external stub settings"));
    }
    if config.bridge_command.is_none() {
        return Err(invalid("bridge modes require bridge_command"));
    }
    if let Some(timeout) = config.bridge_timeout_ms {
        if timeout == 0 {
            return Err(invalid("bridge modes require a positive bridge_timeout_ms"));
        }
    }
    if !is_named(&config.controller_config_id) {
        return Err(invalid("bridge modes require controller_config_id"));
    }
    let supported = match &config.z_schema_version {
        Some(version) => same_text(version.as_str(), Z_SCHEMA_VERSION),
        None => false,
    };
    if !supported {
        return Err(invalid("bridge modes require a supported z_schema_version"));
    }
    if uses_workload_prediction(config.mode) {
        if config.seed.is_none() {
            return Err(invalid("MPC modes require seed"));
        }
        if !is_named(&config.recovery_artifact_id) {
            return Err(invalid("MPC modes require recovery_artifact_id"));
        }
    }
    Ok(())
}

/// Checks the settings of the mode.
fn validate_mode(config: &ContextPolicyConfig, token_budget_enabled: bool) -> (r: Result<
    (),
    PolicyError,
>)
    ensures
        verdict(r, mode_complaint(*config, token_budget_enabled)),
{
    if config.mode == ContextPolicyMode::NativeFixed {
        return Ok(());
    }
    if token_budget_enabled {
        return Err(invalid("controlled context policy modes require TokenBudget to be disabled"));
    }
    if !run_is_named(config) || config.raw_log_path.is_none() {
        return Err(
            invalid(
                "controlled context policy modes require run_id, task_id, replicate_id, and raw_log_path",
            ),
        );
    }
    match config.mode {
        ContextPolicyMode::NativeFixed => Ok(()),
        ContextPolicyMode::ControlledFixed => validate_fixed(config),
        ContextPolicyMode::ExternalStub => validate_stub(config),
        ContextPolicyMode::TcpAccumulator | ContextPolicyMode::MpcH1 | ContextPolicyMode::Mpc => {
            validate_bridge(config)
        },
    }
}

/// Checks the settings of the request ledger.
fn validate_ledger(config: &ContextPolicyConfig) -> (r: Result<(), PolicyError>)
    ensures
        verdict(r, ledger_complaint(*config)),
{
    let given = config.run_id.is_some() && config.task_id.is_some()
        && config.replicate_id.is_some();
    if config.request_raw_log_path.is_some() && !given {
        return Err(invalid("request_raw_log_path requires run_id, task_id, and replicate_id"));
    }
    if config.pricing_schedule_id.is_some() && config.request_raw_log_path.is_none() {
        return Err(invalid("pricing_schedule_id requires request_raw_log_path"));
    }
    Ok(())
}

/// Checks a configuration. It is accepted exactly where it can be used, and
/// refused with the first complaint about it.
pub fn validate_config(
    config: &ContextPolicyConfig,
    token_budget_enabled: bool,
) -> (r: Result<(), PolicyError>)
    ensures
        r is Ok <==> valid_config(*config, token_budget_enabled),
        verdict(r, config_complaint(*config, token_budget_enabled)),
        r matches Err(error) ==> error.kind == ErrorKind::InvalidInput && Some(error.message@)
            == config_complaint(*config, token_budget_enabled),
{
    match validate_mode(config, token_budget_enabled) {
        Ok(()) => validate_ledger(config),
        Err(error) => Err(error),
    }
}

/// A configuration is refused exactly where it cannot be used.
pub proof fn law_refused_exactly_where_unusable(
    config: ContextPolicyConfig,
    token_budget_enabled: bool,
)
    ensures
        config_complaint(config, token_budget_enabled) is None <==> valid_config(
            config,
            token_budget_enabled,
        ),
{
}

/// What controlled decisions need is there where the configuration can be used:
/// the identity of the run, the log, and no token budget beside it.
pub proof fn law_controlled_config_is_complete(
    config: ContextPolicyConfig,
    token_budget_enabled: bool,
)
    requires
        valid_config(config, token_budget_enabled),
        config.mode != ContextPolicyMode::NativeFixed,
    ensures
        !token_budget_enabled,
        run_named(config),
        config.raw_log_path is Some,
        bridge_mode(config.mode) ==> config.bridge_command is Some && config.bridge_timeout_ms
            != Some(0u64),
{
}

/// The seed and the recovery artifact are provenance only to the accumulator:
/// whether it can be used does not depend on them.
pub proof fn law_accumulator_ignores_mpc_provenance(
    a: ContextPolicyConfig,
    b: ContextPolicyConfig,
    token_budget_enabled: bool,
)
    requires
        a.mode == ContextPolicyMode::TcpAccumulator,
        b == (ContextPolicyConfig {
            seed: b.seed,
            recovery_artifact_id: b.recovery_artifact_id,
            ..a
        }),
    ensures
        valid_config(a, token_budget_enabled) == valid_config(b, token_budget_enabled),
        config_complaint(a, token_budget_enabled) == config_complaint(b, token_budget_enabled),
{
}

/// A planner cannot be used without a seed and a recovery artifact.
pub proof fn law_planner_needs_provenance(config: ContextPolicyConfig, token_budget_enabled: bool)
    requires
        mpc_mode(config.mode),
        valid_config(config, token_budget_enabled),
    ensures
        config.seed is Some,
        named(config.recovery_artifact_id),
{
}

/// The host's own limit needs nothing but settings of the request ledger that fit
/// together.
pub proof fn law_native_mode_needs_no_control(
    config: ContextPolicyConfig,
    token_budget_enabled: bool,
)
    requires
        config.mode == ContextPolicyMode::NativeFixed,
    ensures
        valid_config(config, token_budget_enabled) <==> ledger_settings_fit(config),
{
}

// ---------------------------------------------------------------------------
// Each mode by itself
// ---------------------------------------------------------------------------

/// Which modes run their policy in a process of its own, and which of these plan ahead.
pub proof fn law_modes_have_their_kind()
    ensures
        !bridge_mode(ContextPolicyMode::NativeFixed),
        !bridge_mode(ContextPolicyMode::ControlledFixed),
        !bridge_mode(ContextPolicyMode::ExternalStub),
        bridge_mode(ContextPolicyMode::TcpAccumulator),
        bridge_mode(ContextPolicyMode::MpcH1),
        bridge_mode(ContextPolicyMode::Mpc),
        !mpc_mode(ContextPolicyMode::NativeFixed),
        !mpc_mode(ContextPolicyMode::ControlledFixed),
        !mpc_mode(ContextPolicyMode::ExternalStub),
        !mpc_mode(ContextPolicyMode::TcpAccumulator),
        mpc_mode(ContextPolicyMode::MpcH1),
        mpc_mode(ContextPolicyMode::Mpc),
{
}

/// The name of each mode in recorded evidence, and the schema that is understood.
pub proof fn law_modes_have_their_names()
    ensures
        arm_text(ContextPolicyMode::NativeFixed) == "native_fixed"@,
        arm_text(ContextPolicyMode::ControlledFixed) == "controlled_fixed"@,
        arm_text(ContextPolicyMode::ExternalStub) == "external_stub"@,
        arm_text(ContextPolicyMode::TcpAccumulator) == "tcp_accumulator"@,
        arm_text(ContextPolicyMode::MpcH1) == "mpc_h1"@,
        arm_text(ContextPolicyMode::Mpc) == "mpc"@,
        Z_SCHEMA_VERSION@ == "phase4-observable-v1"@,
{
}

/// The host's own limit can be used exactly where a request ledger has a run, a task
/// and a replicate, and a pricing schedule has a request ledger.
pub proof fn law_native_limit_usable(config: ContextPolicyConfig, token_budget_enabled: bool)
    requires
        config.mode == ContextPolicyMode::NativeFixed,
    ensures
        valid_config(config, token_budget_enabled) <==> {
            &&& config.request_raw_log_path is None || (config.run_id is Some && config.task_id
                is Some && config.replicate_id is Some)
            &&& config.pricing_schedule_id is None || config.request_raw_log_path is Some
        },
        config.request_raw_log_path is Some && (config.run_id is None || config.task_id is None
            || config.replicate_id is None) ==> config_complaint(config, token_budget_enabled)
            == Some("request_raw_log_path requires run_id, task_id, and replicate_id"@),
        config.request_raw_log_path is None && config.pricing_schedule_id is Some
            ==> config_complaint(config, token_budget_enabled) == Some(
            "pricing_schedule_id requires request_raw_log_path"@,
        ),
{
}

/// No controlled mode can be used beside a token budget, or without a run and a task
/// that have names, a replicate and a log.
pub proof fn law_controlled_modes_need_a_run(
    config: ContextPolicyConfig,
    token_budget_enabled: bool,
)
    requires
        config.mode != ContextPolicyMode::NativeFixed,
    ensures
        token_budget_enabled ==> !valid_config(config, token_budget_enabled) && config_complaint(
            config,
            token_budget_enabled,
        ) == Some("controlled context policy modes require TokenBudget to be disabled"@),
        !token_budget_enabled && (config.run_id is None || config.run_id->0@.len() == 0
            || config.task_id is None || config.task_id->0@.len() == 0 || config.replicate_id
            is None || config.raw_log_path is None) ==> !valid_config(config, token_budget_enabled)
            && config_complaint(config, token_budget_enabled) == Some(
            "controlled context policy modes require run_id, task_id, replicate_id, and raw_log_path"@,
        ),
{
}

/// A fixed threshold can be used, with a run, a task, a replicate, a log and no token
/// budget, exactly where the threshold is positive, no stub is set, and a pricing
/// schedule has a request ledger. Otherwise it is said what is wrong.
pub proof fn law_fixed_threshold_usable(config: ContextPolicyConfig)
    requires
        config.mode == ContextPolicyMode::ControlledFixed,
        config.run_id is Some && config.run_id->0@.len() > 0,
        config.task_id is Some && config.task_id->0@.len() > 0,
        config.replicate_id is Some && config.raw_log_path is Some,
    ensures
        valid_config(config, false) <==> {
            &&& config.fixed_threshold_tokens is Some && config.fixed_threshold_tokens->0 > 0
            &&& config.external_stub is None
            &&& config.external_stub_compact_at_epoch is None
            &&& config.pricing_schedule_id is None || config.request_raw_log_path is Some
        },
        config.fixed_threshold_tokens is None || config.fixed_threshold_tokens->0 <= 0
            ==> config_complaint(config, false) == Some(
            "controlled_fixed requires a positive fixed_threshold_tokens"@,
        ),
        config.fixed_threshold_tokens is Some && config.fixed_threshold_tokens->0 > 0 && (
        config.external_stub is Some || config.external_stub_compact_at_epoch is Some)
            ==> config_complaint(config, false) == Some(
            "controlled_fixed cannot include external stub settings"@,
        ),
        config.fixed_threshold_tokens is Some && config.fixed_threshold_tokens->0 > 0
            && config.external_stub is None && config.external_stub_compact_at_epoch is None
            && config.pricing_schedule_id is Some && config.request_raw_log_path is None
            ==> config_complaint(config, false) == Some(
            "pricing_schedule_id requires request_raw_log_path"@,
        ),
{
}

/// A stub can be used, with a run, a task, a replicate, a log and no token budget,
/// exactly where no threshold is set, and it either always keeps and has no epoch, or
/// compacts at an epoch that is set. Otherwise it is said what is wrong.
pub proof fn law_stub_usable(config: ContextPolicyConfig)
    requires
        config.mode == ContextPolicyMode::ExternalStub,
        config.run_id is Some && config.run_id->0@.len() > 0,
        config.task_id is Some && config.task_id->0@.len() > 0,
        config.replicate_id is Some && config.raw_log_path is Some,
    ensures
        valid_config(config, false) <==> {
            &&& config.fixed_threshold_tokens is None
            &&& {
                ||| config.external_stub == Some(ExternalContextPolicyStub::AlwaysKeep)
                    && config.external_stub_compact_at_epoch is None
                ||| config.external_stub == Some(ExternalContextPolicyStub::CompactAtEpoch)
                    && config.external_stub_compact_at_epoch is Some
            }
            &&& config.pricing_schedule_id is None || config.request_raw_log_path is Some
        },
        config.fixed_threshold_tokens is Some ==> config_complaint(config, false) == Some(
            "external_stub cannot include fixed_threshold_tokens"@,
        ),
        config.fixed_threshold_tokens is None && config.external_stub is None ==> config_complaint(
            config,
            false,
        ) == Some("external_stub requires an explicit external_stub policy"@),
        config.fixed_threshold_tokens is None && config.external_stub == Some(
            ExternalContextPolicyStub::AlwaysKeep,
        ) && config.external_stub_compact_at_epoch is Some ==> config_complaint(config, false)
            == Some("always_keep cannot include external_stub_compact_at_epoch"@),
        config.fixed_threshold_tokens is None && config.external_stub == Some(
            ExternalContextPolicyStub::CompactAtEpoch,
        ) && config.external_stub_compact_at_epoch is None ==> config_complaint(config, false)
            == Some("compact_at_epoch requires external_stub_compact_at_epoch"@),
{
}

/// A policy in a process of its own can be used, with a run, a task, a replicate, a log
/// and no token budget, exactly where neither a threshold nor a stub is set, the
/// command and the controller are named, the schema is the one that is understood, the
/// time limit is not zero, and a planner has a seed and a recovery artifact.
pub proof fn law_policy_process_usable(config: ContextPolicyConfig)
    requires
        config.mode == ContextPolicyMode::TcpAccumulator || config.mode == ContextPolicyMode::MpcH1
            || config.mode == ContextPolicyMode::Mpc,
        config.run_id is Some && config.run_id->0@.len() > 0,
        config.task_id is Some && config.task_id->0@.len() > 0,
        config.replicate_id is Some && config.raw_log_path is Some,
    ensures
        valid_config(config, false) <==> {
            &&& config.fixed_threshold_tokens is None
            &&& config.external_stub is None
            &&& config.external_stub_compact_at_epoch is None
            &&& config.bridge_command is Some
            &&& config.bridge_timeout_ms is None || config.bridge_timeout_ms->0 > 0
            &&& config.controller_config_id is Some && config.controller_config_id->0@.len() > 0
            &&& config.z_schema_version is Some && config.z_schema_version->0@
                == "phase4-observable-v1"@
            &&& config.mode == ContextPolicyMode::TcpAccumulator || (config.seed is Some
                && config.recovery_artifact_id is Some && config.recovery_artifact_id->0@.len() > 0)
            &&& config.pricing_schedule_id is None || config.request_raw_log_path is Some
        },
{
}

/// What is said of a policy process that cannot be used: the first of these that is
/// wrong, in this order.
pub proof fn law_policy_process_complaints(config: ContextPolicyConfig)
    requires
        config.mode == ContextPolicyMode::TcpAccumulator || config.mode == ContextPolicyMode::MpcH1
            || config.mode == ContextPolicyMode::Mpc,
        config.run_id is Some && config.run_id->0@.len() > 0,
        config.task_id is Some && config.task_id->0@.len() > 0,
        config.replicate_id is Some && config.raw_log_path is Some,
    ensures
        ({
            let said = config_complaint(config, false);
            let planner = config.mode == ContextPolicyMode::MpcH1 || config.mode
                == ContextPolicyMode::Mpc;
            let threshold = config.fixed_threshold_tokens is Some;
            let stub = config.external_stub is Some || config.external_stub_compact_at_epoch
                is Some;
            let command = config.bridge_command is None;
            let timeout = config.bridge_timeout_ms is Some && config.bridge_timeout_ms->0 == 0;
            let controller = config.controller_config_id is None
                || config.controller_config_id->0@.len() == 0;
            let schema = config.z_schema_version is None || config.z_schema_version->0@
                != "phase4-observable-v1"@;
            let seed = planner && config.seed is None;
            let artifact = planner && (config.recovery_artifact_id is None
                || config.recovery_artifact_id->0@.len() == 0);
            let one = threshold || stub;
            let two = one || command || timeout;
            let three = two || controller || schema;
            &&& threshold ==> said == Some("bridge modes cannot include fixed_threshold_tokens"@)
            &&& !threshold && stub ==> said == Some(
                "bridge modes cannot include external stub settings"@,
            )
            &&& !one && command ==> said == Some("bridge modes require bridge_command"@)
            &&& !one && !command && timeout ==> said == Some(
                "bridge modes require a positive bridge_timeout_ms"@,
            )
            &&& !two && controller ==> said == Some("bridge modes require controller_config_id"@)
            &&& !two && !controller && schema ==> said == Some(
                "bridge modes require a supported z_schema_version"@,
            )
            &&& !three && seed ==> said == Some("MPC modes require seed"@)
            &&& !three && !seed && artifact ==> said == Some(
                "MPC modes require recovery_artifact_id"@,
            )
        }),
{
}

/// The result that a complaint calls for: an error about the configuration with
/// exactly that message, or success.
pub proof fn law_verdict_follows_the_complaint(
    r: Result<(), PolicyError>,
    complaint: Option<Seq<char>>,
)
    requires
        verdict(r, complaint),
    ensures
        r is Ok <==> complaint is None,
        r matches Err(error) ==> error.kind == ErrorKind::InvalidInput && complaint == Some(
            error.message@,
        ),
{
}

} // verus!
