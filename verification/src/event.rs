//! The events of the request ledger: what a request is, and what each event of
//! its lifecycle records.

use serde_json::Number;
use vstd::prelude::*;

use crate::json::{
    depth_at_most, entries_map, entry, int_json, lemma_entries_map_concat, lemma_object_depth,
    object, opt_i64_json, opt_number_json, opt_text_json, opt_u64_json, pairs_view, Json, JsonView,
};
use crate::text::{decimal, decimal_text, join, opt_text};
use crate::usage::{
    provider_usage, provider_usage_entries, usage_provenance, usage_provenance_entries, TokenUsage,
};

verus! {

/// The version of the recorded events.
pub const RAW_REQUEST_EVENT_SCHEMA_VERSION: &'static str = "codex-request-events-v1";

// ---------------------------------------------------------------------------
// Requests
// ---------------------------------------------------------------------------

/// What a request is made for.
#[derive(Clone, Copy, Debug, PartialEq, Eq, Structural)]
pub enum RequestPurpose {
    Serve,
    CompactSummary,
    RefreshNative,
    EvaluationOnly,
    Prewarm,
    Memory,
}

/// The name of a purpose in recorded evidence.
pub open spec fn purpose_text(purpose: RequestPurpose) -> Seq<char> {
    match purpose {
        RequestPurpose::Serve => "serve"@,
        RequestPurpose::CompactSummary => "compact_summary"@,
        RequestPurpose::RefreshNative => "refresh_native"@,
        RequestPurpose::EvaluationOnly => "evaluation_only"@,
        RequestPurpose::Prewarm => "prewarm"@,
        RequestPurpose::Memory => "memory"@,
    }
}

impl RequestPurpose {
    /// The name of the purpose in recorded evidence.
    pub fn name(self) -> (name: &'static str)
        ensures
            name@ == purpose_text(self),
    {
        match self {
            RequestPurpose::Serve => "serve",
            RequestPurpose::CompactSummary => "compact_summary",
            RequestPurpose::RefreshNative => "refresh_native",
            RequestPurpose::EvaluationOnly => "evaluation_only",
            RequestPurpose::Prewarm => "prewarm",
            RequestPurpose::Memory => "memory",
        }
    }
}

/// Different purposes have different names.
pub proof fn law_purpose_names_differ(a: RequestPurpose, b: RequestPurpose)
    ensures
        purpose_text(a) == purpose_text(b) ==> a == b,
{
    reveal_strlit("serve");
    reveal_strlit("compact_summary");
    reveal_strlit("refresh_native");
    reveal_strlit("evaluation_only");
    reveal_strlit("prewarm");
    reveal_strlit("memory");
    assert("serve"@.len() == 5 && "refresh_native"@.len() == 14);
    assert("compact_summary"@.len() == 15 && "compact_summary"@[0] == 'c');
    assert("evaluation_only"@.len() == 15 && "evaluation_only"@[0] == 'e');
    assert("prewarm"@.len() == 7 && "memory"@.len() == 6);
}

/// What an optional text slice holds.
pub open spec fn opt_str(text: Option<&str>) -> Option<Seq<char>> {
    match text {
        Some(text) => Some(text@),
        None => None,
    }
}

/// What a request is linked to.
#[derive(Clone, Debug)]
pub struct RequestLinkage {
    pub decision_epoch: Option<u64>,
    pub decision_action: Option<&'static str>,
    pub compaction_id: Option<String>,
    pub reset_id: Option<String>,
    pub compaction_kind: Option<&'static str>,
}

impl Default for RequestLinkage {
    /// A request that is linked to nothing.
    fn default() -> (linkage: Self)
        ensures
            linkage.decision_epoch is None,
            linkage.decision_action is None,
            linkage.compaction_id is None,
            linkage.reset_id is None,
            linkage.compaction_kind is None,
    {
        RequestLinkage {
            decision_epoch: None,
            decision_action: None,
            compaction_id: None,
            reset_id: None,
            compaction_kind: None,
        }
    }
}

/// A request that is about to begin.
#[derive(Clone, Debug)]
pub struct RequestDescriptor<'a> {
    pub purpose: RequestPurpose,
    pub thread_id: &'a str,
    pub session_id: Option<&'a str>,
    pub turn_id: Option<&'a str>,
    pub provider_id: &'a str,
    pub model_id: &'a str,
    pub linkage: RequestLinkage,
}

/// What a request stands for.
pub struct DescriptorView {
    pub purpose: RequestPurpose,
    pub thread_id: Seq<char>,
    pub session_id: Option<Seq<char>>,
    pub turn_id: Option<Seq<char>>,
    pub provider_id: Seq<char>,
    pub model_id: Seq<char>,
    pub decision_epoch: Option<u64>,
    pub decision_action: Option<Seq<char>>,
    pub compaction_id: Option<Seq<char>>,
    pub reset_id: Option<Seq<char>>,
    pub compaction_kind: Option<Seq<char>>,
}

impl<'a> View for RequestDescriptor<'a> {
    type V = DescriptorView;

    open spec fn view(&self) -> DescriptorView {
        DescriptorView {
            purpose: self.purpose,
            thread_id: self.thread_id@,
            session_id: opt_str(self.session_id),
            turn_id: opt_str(self.turn_id),
            provider_id: self.provider_id@,
            model_id: self.model_id@,
            decision_epoch: self.linkage.decision_epoch,
            decision_action: opt_str(self.linkage.decision_action),
            compaction_id: opt_text(self.linkage.compaction_id),
            reset_id: opt_text(self.linkage.reset_id),
            compaction_kind: opt_str(self.linkage.compaction_kind),
        }
    }
}

/// A request that has begun.
#[derive(Clone, Debug)]
pub struct OwnedRequestDescriptor {
    pub purpose: RequestPurpose,
    pub thread_id: String,
    pub session_id: Option<String>,
    pub turn_id: Option<String>,
    pub provider_id: String,
    pub model_id: String,
    pub linkage: RequestLinkage,
}

impl View for OwnedRequestDescriptor {
    type V = DescriptorView;

    open spec fn view(&self) -> DescriptorView {
        DescriptorView {
            purpose: self.purpose,
            thread_id: self.thread_id@,
            session_id: opt_text(self.session_id),
            turn_id: opt_text(self.turn_id),
            provider_id: self.provider_id@,
            model_id: self.model_id@,
            decision_epoch: self.linkage.decision_epoch,
            decision_action: opt_str(self.linkage.decision_action),
            compaction_id: opt_text(self.linkage.compaction_id),
            reset_id: opt_text(self.linkage.reset_id),
            compaction_kind: opt_str(self.linkage.compaction_kind),
        }
    }
}

/// The text as one of its own, where there is one.
fn own_text(text: Option<&str>) -> (r: Option<String>)
    ensures
        opt_text(r) == opt_str(text),
{
    match text {
        Some(text) => Some(text.to_owned()),
        None => None,
    }
}

impl OwnedRequestDescriptor {
    /// A request that begins.
    pub fn own(descriptor: RequestDescriptor<'_>) -> (owned: Self)
        ensures
            owned@ == descriptor@,
    {
        OwnedRequestDescriptor {
            purpose: descriptor.purpose,
            thread_id: descriptor.thread_id.to_owned(),
            session_id: own_text(descriptor.session_id),
            turn_id: own_text(descriptor.turn_id),
            provider_id: descriptor.provider_id.to_owned(),
            model_id: descriptor.model_id.to_owned(),
            linkage: descriptor.linkage,
        }
    }
}

/// A request that has begun, with its place among the requests of the run.
#[derive(Clone, Debug)]
pub struct RawRequestHandle {
    pub request_index: u64,
    pub logical_request_id: String,
    pub descriptor: OwnedRequestDescriptor,
}

/// What a request that has begun stands for.
pub struct HandleView {
    pub request_index: u64,
    pub logical_request_id: Seq<char>,
    pub descriptor: DescriptorView,
}

impl View for RawRequestHandle {
    type V = HandleView;

    open spec fn view(&self) -> HandleView {
        HandleView {
            request_index: self.request_index,
            logical_request_id: self.logical_request_id@,
            descriptor: self.descriptor@,
        }
    }
}

// ---------------------------------------------------------------------------
// Attempts
// ---------------------------------------------------------------------------

/// Identity of one attempt when it differs from that of the logical request.
///
/// A fallback retries the same logical request with another model or provider.
/// Its own identity keeps the attempt from being attributed to the model that
/// the request began with.
#[derive(Clone, Debug)]
pub struct AttemptIdentity {
    pub provider_id: String,
    pub model_id: String,
    pub pricing_schedule_id: Option<String>,
}

/// The identity of an attempt with a provider and a model. The pricing schedule
/// stays unknown.
pub fn attempt_identity(provider_id: &str, model_id: &str) -> (identity: AttemptIdentity)
    ensures
        identity.provider_id@ == provider_id@,
        identity.model_id@ == model_id@,
        identity.pricing_schedule_id is None,
{
    AttemptIdentity {
        provider_id: provider_id.to_owned(),
        model_id: model_id.to_owned(),
        pricing_schedule_id: None,
    }
}

/// What is recorded of the identity of an attempt.
pub open spec fn identity_entries(identity: AttemptIdentity) -> Seq<(Seq<char>, JsonView)> {
    seq![
        ("attempt_provider_id"@, JsonView::Text(identity.provider_id@)),
        ("attempt_model_id"@, JsonView::Text(identity.model_id@)),
        (
            "attempt_pricing_schedule_id"@,
            opt_text_json(opt_text(identity.pricing_schedule_id)),
        ),
    ]
}

/// The fields of an event, with the identity of the attempt where it has one.
pub open spec fn with_identity(fields: JsonView, identity: Option<&AttemptIdentity>) -> JsonView {
    match (identity, fields) {
        (Some(identity), JsonView::Object(map)) => JsonView::Object(
            map.union_prefer_right(entries_map(identity_entries(*identity))),
        ),
        _ => fields,
    }
}

/// Adds the identity of an attempt to the fields of an event. Fields that are no
/// object stay as they are.
pub fn with_attempt_identity(fields: Json, identity: Option<&AttemptIdentity>) -> (r: Json)
    ensures
        r@ == with_identity(fields@, identity),
{
    match (identity, fields) {
        (Some(identity), Json::Object(pairs)) => {
            let ghost before = pairs@;
            let mut pairs = pairs;
            let mut more = vec![
                entry("attempt_provider_id", Json::text(identity.provider_id.as_str())),
                entry("attempt_model_id", Json::text(identity.model_id.as_str())),
                entry("attempt_pricing_schedule_id", Json::opt_text(&identity.pricing_schedule_id)),
            ];
            let ghost extra = more@;
            assert(pairs_view(extra) =~= identity_entries(*identity));
            pairs.append(&mut more);
            assert(pairs_view(pairs@) =~= pairs_view(before) + pairs_view(extra));
            proof {
                lemma_entries_map_concat(pairs_view(before), pairs_view(extra));
            }
            Json::Object(pairs)
        },
        (_, fields) => fields,
    }
}

// ---------------------------------------------------------------------------
// What each event records
// ---------------------------------------------------------------------------

/// What is recorded of an attempt that starts.
pub open spec fn attempt_started_entries(attempt_index: u64) -> Seq<(Seq<char>, JsonView)> {
    seq![("attempt_index"@, int_json(attempt_index as int))]
}

/// What is recorded of an attempt that failed. Whether it is billed is not known,
/// and so it is not said to be free.
pub open spec fn attempt_failed_entries(
    attempt_index: u64,
    failure_kind: Seq<char>,
    failure_reason: Seq<char>,
) -> Seq<(Seq<char>, JsonView)> {
    seq![
        ("attempt_index"@, int_json(attempt_index as int)),
        ("failure_kind"@, JsonView::Text(failure_kind)),
        ("failure_reason"@, JsonView::Text(failure_reason)),
        ("billable"@, JsonView::Null),
    ]
}

/// What is recorded of a retry that is scheduled.
pub open spec fn retry_scheduled_entries(attempt_index: u64, wait_seconds: Option<Number>) -> Seq<
    (Seq<char>, JsonView),
> {
    seq![
        ("attempt_index"@, int_json(attempt_index as int)),
        ("wait_seconds"@, opt_number_json(wait_seconds)),
    ]
}

/// What is recorded of a request that completed.
pub open spec fn completed_entries(
    response_id: Option<Seq<char>>,
    usage: Option<&TokenUsage>,
    visible_output_tokens: Option<i64>,
    latency_seconds: Option<Number>,
    stop_reason: Seq<char>,
) -> Seq<(Seq<char>, JsonView)> {
    seq![
        ("response_id"@, opt_text_json(response_id)),
        (
            "provider_usage"@,
            match usage {
                Some(usage) => object(provider_usage_entries(*usage)),
                None => JsonView::Null,
            },
        ),
        (
            "usage_provenance"@,
            match usage {
                Some(_) => object(usage_provenance_entries()),
                None => JsonView::Null,
            },
        ),
        (
            "input_token_semantics"@,
            match usage {
                Some(_) => JsonView::Text("total_includes_cache"@),
                None => JsonView::Null,
            },
        ),
        ("visible_output_tokens"@, opt_i64_json(visible_output_tokens)),
        ("provider_reported_cost"@, JsonView::Null),
        ("zero_cost_fixture"@, JsonView::Bool(false)),
        ("latency_seconds"@, opt_number_json(latency_seconds)),
        ("stop_reason"@, JsonView::Text(stop_reason)),
    ]
}

/// What is recorded of a request that failed.
pub open spec fn failed_entries(
    failure_kind: Seq<char>,
    failure_reason: Seq<char>,
    latency_seconds: Option<Number>,
) -> Seq<(Seq<char>, JsonView)> {
    seq![
        ("provider_usage"@, JsonView::Null),
        ("input_token_semantics"@, JsonView::Null),
        ("visible_output_tokens"@, JsonView::Null),
        ("provider_reported_cost"@, JsonView::Null),
        ("zero_cost_fixture"@, JsonView::Bool(false)),
        ("latency_seconds"@, opt_number_json(latency_seconds)),
        ("failure_kind"@, JsonView::Text(failure_kind)),
        ("failure_reason"@, JsonView::Text(failure_reason)),
    ]
}

/// What is recorded of an attempt that starts.
pub(crate) fn attempt_started_fields(attempt_index: u64) -> (fields: Json)
    ensures
        fields@ == object(attempt_started_entries(attempt_index)),
{
    let pairs = vec![entry("attempt_index", Json::unsigned(attempt_index))];
    assert(pairs_view(pairs@) =~= attempt_started_entries(attempt_index));
    Json::Object(pairs)
}

/// What is recorded of an attempt that failed.
pub(crate) fn attempt_failed_fields(
    attempt_index: u64,
    failure_kind: &str,
    failure_reason: &str,
) -> (fields: Json)
    ensures
        fields@ == object(attempt_failed_entries(attempt_index, failure_kind@, failure_reason@)),
{
    let pairs = vec![
        entry("attempt_index", Json::unsigned(attempt_index)),
        entry("failure_kind", Json::text(failure_kind)),
        entry("failure_reason", Json::text(failure_reason)),
        entry("billable", Json::Null),
    ];
    assert(pairs_view(pairs@) =~= attempt_failed_entries(
        attempt_index,
        failure_kind@,
        failure_reason@,
    ));
    Json::Object(pairs)
}

/// What is recorded of a retry that is scheduled.
pub(crate) fn retry_scheduled_fields(
    attempt_index: u64,
    wait_seconds: Option<Number>,
) -> (fields: Json)
    ensures
        fields@ == object(retry_scheduled_entries(attempt_index, wait_seconds)),
{
    let pairs = vec![
        entry("attempt_index", Json::unsigned(attempt_index)),
        entry("wait_seconds", Json::opt_number(wait_seconds)),
    ];
    assert(pairs_view(pairs@) =~= retry_scheduled_entries(attempt_index, wait_seconds));
    Json::Object(pairs)
}

/// What is recorded of a request that completed.
pub(crate) fn completed_fields(
    response_id: Option<&str>,
    usage: Option<&TokenUsage>,
    visible_output_tokens: Option<i64>,
    latency_seconds: Option<Number>,
    stop_reason: &str,
) -> (fields: Json)
    ensures
        fields@ == object(
            completed_entries(
                opt_str(response_id),
                usage,
                visible_output_tokens,
                latency_seconds,
                stop_reason@,
            ),
        ),
{
    let (reported, provenance, semantics) = match usage {
        Some(usage) => (
            provider_usage(usage),
            usage_provenance(),
            Json::text("total_includes_cache"),
        ),
        None => (Json::Null, Json::Null, Json::Null),
    };
    let pairs = vec![
        entry("response_id", Json::opt_text(&own_text(response_id))),
        entry("provider_usage", reported),
        entry("usage_provenance", provenance),
        entry("input_token_semantics", semantics),
        entry("visible_output_tokens", Json::opt_signed(visible_output_tokens)),
        entry("provider_reported_cost", Json::Null),
        entry("zero_cost_fixture", Json::Bool(false)),
        entry("latency_seconds", Json::opt_number(latency_seconds)),
        entry("stop_reason", Json::text(stop_reason)),
    ];
    assert(pairs_view(pairs@) =~= completed_entries(
        opt_str(response_id),
        usage,
        visible_output_tokens,
        latency_seconds,
        stop_reason@,
    ));
    Json::Object(pairs)
}

/// What is recorded of a request that failed.
pub(crate) fn failed_fields(
    failure_kind: &str,
    failure_reason: &str,
    latency_seconds: Option<Number>,
) -> (fields: Json)
    ensures
        fields@ == object(failed_entries(failure_kind@, failure_reason@, latency_seconds)),
{
    let pairs = vec![
        entry("provider_usage", Json::Null),
        entry("input_token_semantics", Json::Null),
        entry("visible_output_tokens", Json::Null),
        entry("provider_reported_cost", Json::Null),
        entry("zero_cost_fixture", Json::Bool(false)),
        entry("latency_seconds", Json::opt_number(latency_seconds)),
        entry("failure_kind", Json::text(failure_kind)),
        entry("failure_reason", Json::text(failure_reason)),
    ];
    assert(pairs_view(pairs@) =~= failed_entries(failure_kind@, failure_reason@, latency_seconds));
    Json::Object(pairs)
}

// ---------------------------------------------------------------------------
// The record of an event
// ---------------------------------------------------------------------------

/// What is frozen for one run.
#[derive(Debug)]
pub struct LedgerIdentity {
    pub run_id: String,
    pub task_id: String,
    pub replicate_id: u64,
    pub arm: &'static str,
    pub pricing_schedule_id: Option<String>,
}

/// What the identity of a run stands for.
pub struct IdentityView {
    pub run_id: Seq<char>,
    pub task_id: Seq<char>,
    pub replicate_id: u64,
    pub arm: Seq<char>,
    pub pricing_schedule_id: Option<Seq<char>>,
}

impl View for LedgerIdentity {
    type V = IdentityView;

    open spec fn view(&self) -> IdentityView {
        IdentityView {
            run_id: self.run_id@,
            task_id: self.task_id@,
            replicate_id: self.replicate_id,
            arm: self.arm@,
            pricing_schedule_id: opt_text(self.pricing_schedule_id),
        }
    }
}

/// The id of the `index`-th request of a run.
pub open spec fn logical_id(run_id: Seq<char>, index: nat) -> Seq<char> {
    run_id + ":request:"@ + decimal_text(index)
}

/// The id of an event of a request.
pub open spec fn event_id(logical_request_id: Seq<char>, suffix: Seq<char>) -> Seq<char> {
    logical_request_id + ":"@ + suffix
}

/// The suffix in the id of an event of an attempt.
pub open spec fn attempt_suffix(attempt_index: u64, what: Seq<char>) -> Seq<char> {
    "attempt:"@ + decimal_text(attempt_index as nat) + ":"@ + what
}

/// What every record says: which event it is, of which request, in which run.
pub open spec fn base_entries(
    identity: IdentityView,
    event_index: u64,
    handle: HandleView,
    event: Seq<char>,
    suffix: Seq<char>,
) -> Seq<(Seq<char>, JsonView)> {
    let descriptor = handle.descriptor;
    seq![
        ("schema_version"@, JsonView::Text(RAW_REQUEST_EVENT_SCHEMA_VERSION@)),
        ("event_id"@, JsonView::Text(event_id(handle.logical_request_id, suffix))),
        ("event_index"@, int_json(event_index as int)),
        ("event"@, JsonView::Text(event)),
        ("run_id"@, JsonView::Text(identity.run_id)),
        ("task_id"@, JsonView::Text(identity.task_id)),
        ("replicate_id"@, int_json(identity.replicate_id as int)),
        ("arm"@, JsonView::Text(identity.arm)),
        ("thread_id"@, JsonView::Text(descriptor.thread_id)),
        ("request_index"@, int_json(handle.request_index as int)),
        ("logical_request_id"@, JsonView::Text(handle.logical_request_id)),
        ("request_purpose"@, JsonView::Text(purpose_text(descriptor.purpose))),
        ("decision_epoch"@, opt_u64_json(descriptor.decision_epoch)),
        ("decision_action"@, opt_text_json(descriptor.decision_action)),
        ("compaction_id"@, opt_text_json(descriptor.compaction_id)),
        ("reset_id"@, opt_text_json(descriptor.reset_id)),
        ("compaction_kind"@, opt_text_json(descriptor.compaction_kind)),
        ("session_id"@, opt_text_json(descriptor.session_id)),
        ("turn_id"@, opt_text_json(descriptor.turn_id)),
        ("provider_id"@, JsonView::Text(descriptor.provider_id)),
        ("model_id"@, JsonView::Text(descriptor.model_id)),
        ("pricing_schedule_id"@, opt_text_json(identity.pricing_schedule_id)),
    ]
}

/// The record of an event: what every record says, and over it the fields of the
/// event, where they are an object.
pub open spec fn event_record(
    identity: IdentityView,
    event_index: u64,
    handle: HandleView,
    event: Seq<char>,
    suffix: Seq<char>,
    fields: JsonView,
) -> JsonView {
    let base = entries_map(base_entries(identity, event_index, handle, event, suffix));
    match fields {
        JsonView::Object(map) => JsonView::Object(base.union_prefer_right(map)),
        _ => JsonView::Object(base),
    }
}

/// The id of the `index`-th request of a run.
pub(crate) fn request_id(run_id: &str, index: u64) -> (id: String)
    ensures
        id@ == logical_id(run_id@, index as nat),
{
    join(join(run_id, ":request:").as_str(), decimal(index).as_str())
}

/// The suffix in the id of an event of an attempt.
pub(crate) fn attempt_event_suffix(attempt_index: u64, what: &str) -> (suffix: String)
    ensures
        suffix@ == attempt_suffix(attempt_index, what@),
{
    let mut suffix = join("attempt:", decimal(attempt_index).as_str());
    suffix.append(":");
    suffix.append(what);
    suffix
}

/// The record of an event.
pub(crate) fn build_event_record(
    identity: &LedgerIdentity,
    event_index: u64,
    handle: &RawRequestHandle,
    event: &str,
    suffix: &str,
    fields: Json,
) -> (record: Json)
    ensures
        record@ == event_record(identity@, event_index, handle@, event@, suffix@, fields@),
{
    let descriptor = &handle.descriptor;
    let mut id = join(handle.logical_request_id.as_str(), ":");
    id.append(suffix);
    let mut pairs = vec![
        entry("schema_version", Json::text(RAW_REQUEST_EVENT_SCHEMA_VERSION)),
        entry("event_id", Json::Text(id)),
        entry("event_index", Json::unsigned(event_index)),
        entry("event", Json::text(event)),
        entry("run_id", Json::text(identity.run_id.as_str())),
        entry("task_id", Json::text(identity.task_id.as_str())),
        entry("replicate_id", Json::unsigned(identity.replicate_id)),
        entry("arm", Json::text(identity.arm)),
        entry("thread_id", Json::text(descriptor.thread_id.as_str())),
        entry("request_index", Json::unsigned(handle.request_index)),
        entry("logical_request_id", Json::text(handle.logical_request_id.as_str())),
        entry("request_purpose", Json::text(descriptor.purpose.name())),
        entry("decision_epoch", Json::opt_unsigned(descriptor.linkage.decision_epoch)),
        entry("decision_action", Json::opt_text(&own_text(descriptor.linkage.decision_action))),
        entry("compaction_id", Json::opt_text(&descriptor.linkage.compaction_id)),
        entry("reset_id", Json::opt_text(&descriptor.linkage.reset_id)),
        entry("compaction_kind", Json::opt_text(&own_text(descriptor.linkage.compaction_kind))),
        entry("session_id", Json::opt_text(&descriptor.session_id)),
        entry("turn_id", Json::opt_text(&descriptor.turn_id)),
        entry("provider_id", Json::text(descriptor.provider_id.as_str())),
        entry("model_id", Json::text(descriptor.model_id.as_str())),
        entry("pricing_schedule_id", Json::opt_text(&identity.pricing_schedule_id)),
    ];
    assert(pairs_view(pairs@) =~= base_entries(identity@, event_index, handle@, event@, suffix@));
    if let Json::Object(more) = fields {
        let ghost before = pairs@;
        let ghost extra = more@;
        let mut more = more;
        pairs.append(&mut more);
        assert(pairs_view(pairs@) =~= pairs_view(before) + pairs_view(extra));
        proof {
            lemma_entries_map_concat(pairs_view(before), pairs_view(extra));
        }
    }
    Json::Object(pairs)
}

// ---------------------------------------------------------------------------
// How deeply records are nested
// ---------------------------------------------------------------------------

/// What every record says is not nested.
proof fn lemma_base_depth(
    identity: IdentityView,
    event_index: u64,
    handle: HandleView,
    event: Seq<char>,
    suffix: Seq<char>,
    n: nat,
)
    ensures
        depth_at_most(object(base_entries(identity, event_index, handle, event, suffix)), n + 1),
{
    let base = base_entries(identity, event_index, handle, event, suffix);
    assert forall|i: int| 0 <= i < base.len() implies depth_at_most((#[trigger] base[i]).1, n) by {
        assert(base[i].1 is Text || base[i].1 is Number || base[i].1 is Null);
    }
    lemma_object_depth(base, n);
}

/// A record is nested no deeper than the fields of its event.
pub proof fn lemma_record_depth(
    identity: IdentityView,
    event_index: u64,
    handle: HandleView,
    event: Seq<char>,
    suffix: Seq<char>,
    fields: JsonView,
    n: nat,
)
    requires
        depth_at_most(fields, n + 1),
    ensures
        depth_at_most(event_record(identity, event_index, handle, event, suffix, fields), n + 1),
{
    let base = object(base_entries(identity, event_index, handle, event, suffix));
    lemma_base_depth(identity, event_index, handle, event, suffix, n);
    if fields is Object {
        lemma_union_depth(base->Object_0, fields->Object_0, n);
    }
}

/// An object with another over it is nested no deeper than both.
proof fn lemma_union_depth(
    under: Map<Seq<char>, JsonView>,
    over: Map<Seq<char>, JsonView>,
    n: nat,
)
    requires
        depth_at_most(JsonView::Object(under), n + 1),
        depth_at_most(JsonView::Object(over), n + 1),
    ensures
        depth_at_most(JsonView::Object(under.union_prefer_right(over)), n + 1),
{
    let a = JsonView::Object(under);
    let b = JsonView::Object(over);
    let both = under.union_prefer_right(over);
    assert forall|k: Seq<char>| #[trigger] both.dom().contains(k) implies depth_at_most(
        both[k],
        n,
    ) by {
        if over.dom().contains(k) {
            assert(b->Object_0.dom().contains(k));
        } else {
            assert(a->Object_0.dom().contains(k));
        }
    }
}

/// The identity of an attempt is not nested.
pub proof fn lemma_identity_depth(fields: JsonView, identity: Option<&AttemptIdentity>, n: nat)
    requires
        depth_at_most(fields, n + 1),
    ensures
        depth_at_most(with_identity(fields, identity), n + 1),
{
    if let (Some(identity), JsonView::Object(map)) = (identity, fields) {
        let entries = identity_entries(*identity);
        assert forall|i: int| 0 <= i < entries.len() implies depth_at_most(
            (#[trigger] entries[i]).1,
            n,
        ) by {
            assert(entries[i].1 is Text || entries[i].1 is Null);
        }
        lemma_object_depth(entries, n);
        lemma_union_depth(map, entries_map(entries), n);
    }
}

/// What is recorded of an event is not nested, but for what is recorded of the
/// tokens.
pub proof fn lemma_event_depth(entries: Seq<(Seq<char>, JsonView)>)
    requires
        forall|i: int|
            0 <= i < entries.len() ==> ({
                let v = (#[trigger] entries[i]).1;
                ||| v is Text
                ||| v is Number
                ||| v is Null
                ||| v is Bool
                ||| v == object(usage_provenance_entries())
                ||| exists|usage: TokenUsage| v == object(#[trigger] provider_usage_entries(usage))
            }),
    ensures
        depth_at_most(object(entries), 2),
{
    assert forall|i: int| 0 <= i < entries.len() implies depth_at_most(
        (#[trigger] entries[i]).1,
        1,
    ) by {
        let v = entries[i].1;
        if v == object(usage_provenance_entries()) {
            let inner = usage_provenance_entries();
            assert forall|j: int| 0 <= j < inner.len() implies depth_at_most(
                (#[trigger] inner[j]).1,
                0,
            ) by {
                assert(inner[j].1 is Text);
            }
            lemma_object_depth(inner, 0);
        } else if v is Object {
            let usage = choose|usage: TokenUsage|
                v == object(#[trigger] provider_usage_entries(usage));
            let inner = provider_usage_entries(usage);
            assert forall|j: int| 0 <= j < inner.len() implies depth_at_most(
                (#[trigger] inner[j]).1,
                0,
            ) by {
                assert(inner[j].1 is Number);
            }
            lemma_object_depth(inner, 0);
        }
    }
    lemma_object_depth(entries, 1);
}

// ---------------------------------------------------------------------------
// What names, ids and requests stand for
// ---------------------------------------------------------------------------

/// The name of each purpose, and the schema of the events.
pub proof fn law_purposes_have_their_names()
    ensures
        purpose_text(RequestPurpose::Serve) == "serve"@,
        purpose_text(RequestPurpose::CompactSummary) == "compact_summary"@,
        purpose_text(RequestPurpose::RefreshNative) == "refresh_native"@,
        purpose_text(RequestPurpose::EvaluationOnly) == "evaluation_only"@,
        purpose_text(RequestPurpose::Prewarm) == "prewarm"@,
        purpose_text(RequestPurpose::Memory) == "memory"@,
        RAW_REQUEST_EVENT_SCHEMA_VERSION@ == "codex-request-events-v1"@,
{
}

/// How ids are put together: that of a request of the run and its number, that of an
/// event of the request and a suffix, and that of an attempt of its number and what
/// happened.
pub proof fn law_ids_are_put_together(
    run_id: Seq<char>,
    index: nat,
    id: Seq<char>,
    suffix: Seq<char>,
    attempt_index: u64,
)
    ensures
        logical_id(run_id, index) == run_id + ":request:"@ + decimal_text(index),
        event_id(id, suffix) == id + ":"@ + suffix,
        attempt_suffix(attempt_index, suffix) == "attempt:"@ + decimal_text(attempt_index as nat)
            + ":"@ + suffix,
{
}

/// A request stands for its own parts, before and after it has begun, and each part of
/// its linkage for itself.
pub proof fn law_request_stands_for_its_parts(
    asked: RequestDescriptor<'_>,
    owned: OwnedRequestDescriptor,
    handle: RawRequestHandle,
    text: &str,
)
    ensures
        opt_str(Some(text)) == Some(text@),
        opt_str(None) is None,
        asked@.purpose == asked.purpose,
        asked@.thread_id == asked.thread_id@,
        asked@.session_id == (match asked.session_id {
            Some(id) => Some(id@),
            None => None,
        }),
        asked@.turn_id == (match asked.turn_id {
            Some(id) => Some(id@),
            None => None,
        }),
        asked@.provider_id == asked.provider_id@,
        asked@.model_id == asked.model_id@,
        asked@.decision_epoch == asked.linkage.decision_epoch,
        asked@.decision_action == (match asked.linkage.decision_action {
            Some(action) => Some(action@),
            None => None,
        }),
        asked@.compaction_id == (match asked.linkage.compaction_id {
            Some(id) => Some(id@),
            None => None,
        }),
        asked@.reset_id == (match asked.linkage.reset_id {
            Some(id) => Some(id@),
            None => None,
        }),
        asked@.compaction_kind == (match asked.linkage.compaction_kind {
            Some(kind) => Some(kind@),
            None => None,
        }),
        owned@.purpose == owned.purpose,
        owned@.thread_id == owned.thread_id@,
        owned@.session_id == (match owned.session_id {
            Some(id) => Some(id@),
            None => None,
        }),
        owned@.turn_id == (match owned.turn_id {
            Some(id) => Some(id@),
            None => None,
        }),
        owned@.provider_id == owned.provider_id@,
        owned@.model_id == owned.model_id@,
        owned@.decision_epoch == owned.linkage.decision_epoch,
        owned@.decision_action == (match owned.linkage.decision_action {
            Some(action) => Some(action@),
            None => None,
        }),
        owned@.compaction_id == (match owned.linkage.compaction_id {
            Some(id) => Some(id@),
            None => None,
        }),
        owned@.reset_id == (match owned.linkage.reset_id {
            Some(id) => Some(id@),
            None => None,
        }),
        owned@.compaction_kind == (match owned.linkage.compaction_kind {
            Some(kind) => Some(kind@),
            None => None,
        }),
        handle@.request_index == handle.request_index,
        handle@.logical_request_id == handle.logical_request_id@,
        handle@.descriptor == handle.descriptor@,
{
}

/// The identity of a run stands for its own parts.
pub proof fn law_run_identity_stands_for_its_parts(identity: LedgerIdentity)
    ensures
        identity@.run_id == identity.run_id@,
        identity@.task_id == identity.task_id@,
        identity@.replicate_id == identity.replicate_id,
        identity@.arm == identity.arm@,
        identity@.pricing_schedule_id == (match identity.pricing_schedule_id {
            Some(id) => Some(id@),
            None => None,
        }),
{
}

} // verus!
