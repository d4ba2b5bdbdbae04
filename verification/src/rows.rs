//! What the row of each event says, key by key.

use serde_json::Number;
use vstd::prelude::*;

use crate::event::{
    attempt_failed_entries, attempt_started_entries, attempt_suffix, base_entries,
    completed_entries, event_record, failed_entries, purpose_text, retry_scheduled_entries,
    with_identity, AttemptIdentity, DescriptorView, HandleView,
};
use crate::json::{
    field, i64_field, json_text, number_of, object, reads_back, JsonView, NumberView,
};
use crate::keys::{key_code, law_record_keeps_its_identity, lemma_event_fields};
use crate::ledger::{
    begins_request, records_attempt_failure, records_attempt_start, records_completion,
    records_failure, records_retry, writes_event, RawRequestLedger,
};
use crate::text::decimal_text;
use crate::usage::{
    law_buckets_are_recorded_as_reported, provider_usage_entries, usage_provenance_entries,
    TokenUsage,
};

verus! {

/// Every row says which event it is, of which request and in which run, under its own
/// key each: the linkage of the request to a decision, a compaction and a reset, its
/// session, turn, thread, provider and model, and the identity of the run.
pub proof fn law_every_row_says_where_it_belongs(
    line: Seq<char>,
    before: RawRequestLedger,
    after: RawRequestLedger,
    handle: HandleView,
    event: Seq<char>,
    suffix: Seq<char>,
    fields: JsonView,
) -> (record: JsonView)
    requires
        writes_event(line, before, after, handle, event, suffix, fields),
    ensures
        line == json_text(record) + seq!['\n'],
        reads_back(record),
        record == event_record(
            before.identity(),
            before.counters().next_event_index,
            handle,
            event,
            suffix,
            fields,
        ),
        field(record, "schema_version"@) == Some(
            JsonView::Text("codex-request-events-v1"@),
        ),
        field(record, "event_id"@) == Some(
            JsonView::Text(handle.logical_request_id + ":"@ + suffix),
        ),
        field(record, "event_index"@) == Some(
            JsonView::Number(NumberView::Integer(before.counters().next_event_index as int)),
        ),
        field(record, "event"@) == Some(
            JsonView::Text(event),
        ),
        field(record, "run_id"@) == Some(
            JsonView::Text(before.identity().run_id),
        ),
        field(record, "task_id"@) == Some(
            JsonView::Text(before.identity().task_id),
        ),
        field(record, "replicate_id"@) == Some(
            JsonView::Number(NumberView::Integer(before.identity().replicate_id as int)),
        ),
        field(record, "arm"@) == Some(
            JsonView::Text(before.identity().arm),
        ),
        field(record, "thread_id"@) == Some(
            JsonView::Text(handle.descriptor.thread_id),
        ),
        field(record, "request_index"@) == Some(
            JsonView::Number(NumberView::Integer(handle.request_index as int)),
        ),
        field(record, "logical_request_id"@) == Some(
            JsonView::Text(handle.logical_request_id),
        ),
        field(record, "request_purpose"@) == Some(
            JsonView::Text(purpose_text(handle.descriptor.purpose)),
        ),
        field(record, "decision_epoch"@) == Some(
            match handle.descriptor.decision_epoch {
                Some(n) => JsonView::Number(NumberView::Integer(n as int)),
                None => JsonView::Null,
            },
        ),
        field(record, "decision_action"@) == Some(
            match handle.descriptor.decision_action {
                Some(text) => JsonView::Text(text),
                None => JsonView::Null,
            },
        ),
        field(record, "compaction_id"@) == Some(
            match handle.descriptor.compaction_id {
                Some(text) => JsonView::Text(text),
                None => JsonView::Null,
            },
        ),
        field(record, "reset_id"@) == Some(
            match handle.descriptor.reset_id {
                Some(text) => JsonView::Text(text),
                None => JsonView::Null,
            },
        ),
        field(record, "compaction_kind"@) == Some(
            match handle.descriptor.compaction_kind {
                Some(text) => JsonView::Text(text),
                None => JsonView::Null,
            },
        ),
        field(record, "session_id"@) == Some(
            match handle.descriptor.session_id {
                Some(text) => JsonView::Text(text),
                None => JsonView::Null,
            },
        ),
        field(record, "turn_id"@) == Some(
            match handle.descriptor.turn_id {
                Some(text) => JsonView::Text(text),
                None => JsonView::Null,
            },
        ),
        field(record, "provider_id"@) == Some(
            JsonView::Text(handle.descriptor.provider_id),
        ),
        field(record, "model_id"@) == Some(
            JsonView::Text(handle.descriptor.model_id),
        ),
        field(record, "pricing_schedule_id"@) == Some(
            match before.identity().pricing_schedule_id {
                Some(text) => JsonView::Text(text),
                None => JsonView::Null,
            },
        ),
        after.counters().next_event_index == before.counters().next_event_index + 1,
        after.path() == before.path(),
        after.identity() == before.identity(),
{
    let identity = before.identity();
    let index = before.counters().next_event_index;
    law_record_keeps_its_identity(identity, index, handle, event, suffix, fields);
    let entries = base_entries(identity, index, handle, event, suffix);
    assert(entries[0].0 == "schema_version"@);
    assert(entries[1].0 == "event_id"@);
    assert(entries[2].0 == "event_index"@);
    assert(entries[3].0 == "event"@);
    assert(entries[4].0 == "run_id"@);
    assert(entries[5].0 == "task_id"@);
    assert(entries[6].0 == "replicate_id"@);
    assert(entries[7].0 == "arm"@);
    assert(entries[8].0 == "thread_id"@);
    assert(entries[9].0 == "request_index"@);
    assert(entries[10].0 == "logical_request_id"@);
    assert(entries[11].0 == "request_purpose"@);
    assert(entries[12].0 == "decision_epoch"@);
    assert(entries[13].0 == "decision_action"@);
    assert(entries[14].0 == "compaction_id"@);
    assert(entries[15].0 == "reset_id"@);
    assert(entries[16].0 == "compaction_kind"@);
    assert(entries[17].0 == "session_id"@);
    assert(entries[18].0 == "turn_id"@);
    assert(entries[19].0 == "provider_id"@);
    assert(entries[20].0 == "model_id"@);
    assert(entries[21].0 == "pricing_schedule_id"@);
    event_record(identity, index, handle, event, suffix, fields)
}

/// Beginning a request gives it the next index and the id with that index, keeps what
/// was asked, and writes one row which says that the request started.
pub proof fn law_begun_request_is_recorded(
    line: Seq<char>,
    before: RawRequestLedger,
    after: RawRequestLedger,
    descriptor: DescriptorView,
    handle: HandleView,
) -> (record: JsonView)
    requires
        begins_request(line, before, after, descriptor, handle),
    ensures
        handle.request_index == before.counters().next_request_index,
        handle.logical_request_id == before.identity().run_id + ":request:"@ + decimal_text(
            before.counters().next_request_index as nat,
        ),
        handle.descriptor == descriptor,
        line == json_text(record) + seq!['\n'],
        reads_back(record),
        field(record, "event"@) == Some(JsonView::Text("request_started"@)),
        field(record, "event_id"@) == Some(
            JsonView::Text(handle.logical_request_id + ":"@ + "start"@),
        ),
        field(record, "thread_id"@) == Some(
            JsonView::Text(descriptor.thread_id),
        ),
        field(record, "request_purpose"@) == Some(
            JsonView::Text(purpose_text(descriptor.purpose)),
        ),
        field(record, "decision_epoch"@) == Some(
            match descriptor.decision_epoch {
                Some(n) => JsonView::Number(NumberView::Integer(n as int)),
                None => JsonView::Null,
            },
        ),
        field(record, "decision_action"@) == Some(
            match descriptor.decision_action {
                Some(text) => JsonView::Text(text),
                None => JsonView::Null,
            },
        ),
        field(record, "compaction_id"@) == Some(
            match descriptor.compaction_id {
                Some(text) => JsonView::Text(text),
                None => JsonView::Null,
            },
        ),
        field(record, "reset_id"@) == Some(
            match descriptor.reset_id {
                Some(text) => JsonView::Text(text),
                None => JsonView::Null,
            },
        ),
        field(record, "compaction_kind"@) == Some(
            match descriptor.compaction_kind {
                Some(text) => JsonView::Text(text),
                None => JsonView::Null,
            },
        ),
        field(record, "session_id"@) == Some(
            match descriptor.session_id {
                Some(text) => JsonView::Text(text),
                None => JsonView::Null,
            },
        ),
        field(record, "turn_id"@) == Some(
            match descriptor.turn_id {
                Some(text) => JsonView::Text(text),
                None => JsonView::Null,
            },
        ),
        field(record, "provider_id"@) == Some(
            JsonView::Text(descriptor.provider_id),
        ),
        field(record, "model_id"@) == Some(
            JsonView::Text(descriptor.model_id),
        ),
        after.counters().next_event_index == before.counters().next_event_index + 1,
        after.counters().next_request_index == before.counters().next_request_index + 1,
        after.path() == before.path(),
        after.identity() == before.identity(),
{
    law_every_row_says_where_it_belongs(
        line,
        before,
        after,
        handle,
        "request_started"@,
        "start"@,
        JsonView::Null,
    )
}

/// The row of an attempt that starts says which attempt it is, and with which provider and
/// model where these are its own.
pub proof fn law_attempt_start_is_recorded(
    line: Seq<char>,
    before: RawRequestLedger,
    after: RawRequestLedger,
    handle: HandleView,
    attempt_index: u64,
    identity: Option<&AttemptIdentity>,
) -> (record: JsonView)
    requires
        records_attempt_start(line, before, after, handle, attempt_index, identity),
    ensures
        line == json_text(record) + seq!['\n'],
        reads_back(record),
        field(record, "event"@) == Some(JsonView::Text("attempt_started"@)),
        field(record, "event_id"@) == Some(
            JsonView::Text(
                handle.logical_request_id + ":"@ + ("attempt:"@ + decimal_text(
                    attempt_index as nat,
                ) + ":"@ + "start"@),
            ),
        ),
        field(record, "request_index"@) == Some(
            JsonView::Number(NumberView::Integer(handle.request_index as int)),
        ),
        field(record, "event_index"@) == Some(
            JsonView::Number(NumberView::Integer(before.counters().next_event_index as int)),
        ),
        field(record, "attempt_index"@) == Some(
            JsonView::Number(NumberView::Integer(attempt_index as int)),
        ),
        identity matches Some(attempt) ==> {
            &&& field(record, "attempt_provider_id"@) == Some(JsonView::Text(attempt.provider_id@))
            &&& field(record, "attempt_model_id"@) == Some(JsonView::Text(attempt.model_id@))
            &&& field(record, "attempt_pricing_schedule_id"@) == Some(
                match attempt.pricing_schedule_id {
                    Some(id) => JsonView::Text(id@),
                    None => JsonView::Null,
                },
            )
        },
        identity is None ==> {
            &&& field(record, "attempt_provider_id"@) is None
            &&& field(record, "attempt_model_id"@) is None
            &&& field(record, "attempt_pricing_schedule_id"@) is None
        },
        after.counters().next_event_index == before.counters().next_event_index + 1,
        after.counters().next_request_index == before.counters().next_request_index,
{
    let entries = attempt_started_entries(attempt_index);
    reveal_strlit("attempt_index");
    assert(key_code("attempt_index"@) == 13_097_116);
    assert(entries[0].0 == "attempt_index"@);
    lemma_event_fields(
        before.identity(),
        before.counters().next_event_index,
        handle,
        "attempt_started"@,
        attempt_suffix(attempt_index, "start"@),
        entries,
        identity,
    );
    law_every_row_says_where_it_belongs(
        line,
        before,
        after,
        handle,
        "attempt_started"@,
        attempt_suffix(attempt_index, "start"@),
        with_identity(object(entries), identity),
    )
}

/// The row of an attempt that failed says which attempt it is, how and why it failed, and
/// that it is not known whether it is billed.
pub proof fn law_attempt_failure_is_recorded(
    line: Seq<char>,
    before: RawRequestLedger,
    after: RawRequestLedger,
    handle: HandleView,
    attempt_index: u64,
    failure_kind: Seq<char>,
    failure_reason: Seq<char>,
    identity: Option<&AttemptIdentity>,
) -> (record: JsonView)
    requires
        records_attempt_failure(
            line,
            before,
            after,
            handle,
            attempt_index,
            failure_kind,
            failure_reason,
            identity,
        ),
    ensures
        line == json_text(record) + seq!['\n'],
        reads_back(record),
        field(record, "event"@) == Some(JsonView::Text("attempt_failed"@)),
        field(record, "event_id"@) == Some(
            JsonView::Text(
                handle.logical_request_id + ":"@ + ("attempt:"@ + decimal_text(
                    attempt_index as nat,
                ) + ":"@ + "failed"@),
            ),
        ),
        field(record, "request_index"@) == Some(
            JsonView::Number(NumberView::Integer(handle.request_index as int)),
        ),
        field(record, "event_index"@) == Some(
            JsonView::Number(NumberView::Integer(before.counters().next_event_index as int)),
        ),
        field(record, "attempt_index"@) == Some(
            JsonView::Number(NumberView::Integer(attempt_index as int)),
        ),
        field(record, "failure_kind"@) == Some(
            JsonView::Text(failure_kind),
        ),
        field(record, "failure_reason"@) == Some(
            JsonView::Text(failure_reason),
        ),
        field(record, "billable"@) == Some(
            JsonView::Null,
        ),
        identity matches Some(attempt) ==> {
            &&& field(record, "attempt_provider_id"@) == Some(JsonView::Text(attempt.provider_id@))
            &&& field(record, "attempt_model_id"@) == Some(JsonView::Text(attempt.model_id@))
            &&& field(record, "attempt_pricing_schedule_id"@) == Some(
                match attempt.pricing_schedule_id {
                    Some(id) => JsonView::Text(id@),
                    None => JsonView::Null,
                },
            )
        },
        identity is None ==> {
            &&& field(record, "attempt_provider_id"@) is None
            &&& field(record, "attempt_model_id"@) is None
            &&& field(record, "attempt_pricing_schedule_id"@) is None
        },
        after.counters().next_event_index == before.counters().next_event_index + 1,
        after.counters().next_request_index == before.counters().next_request_index,
{
    let entries = attempt_failed_entries(attempt_index, failure_kind, failure_reason);
    reveal_strlit("attempt_index");
    assert(key_code("attempt_index"@) == 13_097_116);
    reveal_strlit("failure_kind");
    assert(key_code("failure_kind"@) == 12_102_097);
    reveal_strlit("failure_reason");
    assert(key_code("failure_reason"@) == 14_102_097);
    reveal_strlit("billable");
    assert(key_code("billable"@) == 8_098_105);
    assert(entries[0].0 == "attempt_index"@);
    assert(entries[1].0 == "failure_kind"@);
    assert(entries[2].0 == "failure_reason"@);
    assert(entries[3].0 == "billable"@);
    lemma_event_fields(
        before.identity(),
        before.counters().next_event_index,
        handle,
        "attempt_failed"@,
        attempt_suffix(attempt_index, "failed"@),
        entries,
        identity,
    );
    law_every_row_says_where_it_belongs(
        line,
        before,
        after,
        handle,
        "attempt_failed"@,
        attempt_suffix(attempt_index, "failed"@),
        with_identity(object(entries), identity),
    )
}

/// The row of a scheduled retry says of which attempt, and how long it waits.
pub proof fn law_retry_is_recorded(
    line: Seq<char>,
    before: RawRequestLedger,
    after: RawRequestLedger,
    handle: HandleView,
    attempt_index: u64,
    wait_seconds: Option<Number>,
) -> (record: JsonView)
    requires
        records_retry(line, before, after, handle, attempt_index, wait_seconds),
    ensures
        line == json_text(record) + seq!['\n'],
        reads_back(record),
        field(record, "event"@) == Some(JsonView::Text("retry_scheduled"@)),
        field(record, "event_id"@) == Some(
            JsonView::Text(
                handle.logical_request_id + ":"@ + ("attempt:"@ + decimal_text(
                    attempt_index as nat,
                ) + ":"@ + "retry"@),
            ),
        ),
        field(record, "request_index"@) == Some(
            JsonView::Number(NumberView::Integer(handle.request_index as int)),
        ),
        field(record, "event_index"@) == Some(
            JsonView::Number(NumberView::Integer(before.counters().next_event_index as int)),
        ),
        field(record, "attempt_index"@) == Some(
            JsonView::Number(NumberView::Integer(attempt_index as int)),
        ),
        field(record, "wait_seconds"@) == Some(
            match wait_seconds {
                Some(n) => JsonView::Number(number_of(n)),
                None => JsonView::Null,
            },
        ),
        after.counters().next_event_index == before.counters().next_event_index + 1,
        after.counters().next_request_index == before.counters().next_request_index,
{
    let entries = retry_scheduled_entries(attempt_index, wait_seconds);
    reveal_strlit("attempt_index");
    assert(key_code("attempt_index"@) == 13_097_116);
    reveal_strlit("wait_seconds");
    assert(key_code("wait_seconds"@) == 12_119_097);
    assert(entries[0].0 == "attempt_index"@);
    assert(entries[1].0 == "wait_seconds"@);
    lemma_event_fields(
        before.identity(),
        before.counters().next_event_index,
        handle,
        "retry_scheduled"@,
        attempt_suffix(attempt_index, "retry"@),
        entries,
        None,
    );
    law_every_row_says_where_it_belongs(
        line,
        before,
        after,
        handle,
        "retry_scheduled"@,
        attempt_suffix(attempt_index, "retry"@),
        with_identity(object(entries), None),
    )
}

/// The row of a request that completed says what the provider reported, how long it took
/// and why it stopped. It prices nothing.
pub proof fn law_completion_is_recorded(
    line: Seq<char>,
    before: RawRequestLedger,
    after: RawRequestLedger,
    handle: HandleView,
    response_id: Option<Seq<char>>,
    usage: Option<&TokenUsage>,
    visible_output_tokens: Option<i64>,
    latency_seconds: Option<Number>,
    stop_reason: Seq<char>,
    identity: Option<&AttemptIdentity>,
) -> (record: JsonView)
    requires
        records_completion(
            line,
            before,
            after,
            handle,
            response_id,
            usage,
            visible_output_tokens,
            latency_seconds,
            stop_reason,
            identity,
        ),
    ensures
        line == json_text(record) + seq!['\n'],
        reads_back(record),
        field(record, "event"@) == Some(JsonView::Text("request_completed"@)),
        field(record, "event_id"@) == Some(
            JsonView::Text(handle.logical_request_id + ":"@ + "terminal"@),
        ),
        field(record, "request_index"@) == Some(
            JsonView::Number(NumberView::Integer(handle.request_index as int)),
        ),
        field(record, "event_index"@) == Some(
            JsonView::Number(NumberView::Integer(before.counters().next_event_index as int)),
        ),
        field(record, "response_id"@) == Some(
            match response_id {
                Some(text) => JsonView::Text(text),
                None => JsonView::Null,
            },
        ),
        usage matches Some(usage) ==> (field(record, "provider_usage"@) matches Some(reported) && {
            &&& i64_field(reported, "input_tokens_total"@) == Some(usage.input_tokens)
            &&& i64_field(reported, "cache_read_tokens"@) == Some(usage.cached_input_tokens)
            &&& i64_field(reported, "cache_write_tokens"@) == Some(usage.cache_write_input_tokens)
            &&& i64_field(reported, "billed_output_tokens"@) == Some(usage.output_tokens)
            &&& i64_field(reported, "reasoning_tokens"@) == Some(usage.reasoning_output_tokens)
            &&& reported == object(provider_usage_entries(*usage))
        }),
        usage is None ==> field(record, "provider_usage"@) == Some(JsonView::Null),
        usage is Some ==> field(record, "usage_provenance"@) == Some(
            object(usage_provenance_entries()),
        ),
        usage is None ==> field(record, "usage_provenance"@) == Some(JsonView::Null),
        usage is Some ==> field(record, "input_token_semantics"@) == Some(
            JsonView::Text("total_includes_cache"@),
        ),
        usage is None ==> field(record, "input_token_semantics"@) == Some(JsonView::Null),
        field(record, "visible_output_tokens"@) == Some(
            match visible_output_tokens {
                Some(n) => JsonView::Number(NumberView::Integer(n as int)),
                None => JsonView::Null,
            },
        ),
        field(record, "provider_reported_cost"@) == Some(
            JsonView::Null,
        ),
        field(record, "zero_cost_fixture"@) == Some(
            JsonView::Bool(false),
        ),
        field(record, "latency_seconds"@) == Some(
            match latency_seconds {
                Some(n) => JsonView::Number(number_of(n)),
                None => JsonView::Null,
            },
        ),
        field(record, "stop_reason"@) == Some(
            JsonView::Text(stop_reason),
        ),
        identity matches Some(attempt) ==> {
            &&& field(record, "attempt_provider_id"@) == Some(JsonView::Text(attempt.provider_id@))
            &&& field(record, "attempt_model_id"@) == Some(JsonView::Text(attempt.model_id@))
            &&& field(record, "attempt_pricing_schedule_id"@) == Some(
                match attempt.pricing_schedule_id {
                    Some(id) => JsonView::Text(id@),
                    None => JsonView::Null,
                },
            )
        },
        identity is None ==> {
            &&& field(record, "attempt_provider_id"@) is None
            &&& field(record, "attempt_model_id"@) is None
            &&& field(record, "attempt_pricing_schedule_id"@) is None
        },
        after.counters().next_event_index == before.counters().next_event_index + 1,
        after.counters().next_request_index == before.counters().next_request_index,
{
    let entries = completed_entries(
        response_id,
        usage,
        visible_output_tokens,
        latency_seconds,
        stop_reason,
    );
    reveal_strlit("response_id");
    assert(key_code("response_id"@) == 11_114_101);
    reveal_strlit("provider_usage");
    assert(key_code("provider_usage"@) == 14_112_114);
    reveal_strlit("usage_provenance");
    assert(key_code("usage_provenance"@) == 16_117_115);
    reveal_strlit("input_token_semantics");
    assert(key_code("input_token_semantics"@) == 21_105_110);
    reveal_strlit("visible_output_tokens");
    assert(key_code("visible_output_tokens"@) == 21_118_105);
    reveal_strlit("provider_reported_cost");
    assert(key_code("provider_reported_cost"@) == 22_112_114);
    reveal_strlit("zero_cost_fixture");
    assert(key_code("zero_cost_fixture"@) == 17_122_101);
    reveal_strlit("latency_seconds");
    assert(key_code("latency_seconds"@) == 15_108_097);
    reveal_strlit("stop_reason");
    assert(key_code("stop_reason"@) == 11_115_116);
    assert(entries[0].0 == "response_id"@);
    assert(entries[1].0 == "provider_usage"@);
    assert(entries[2].0 == "usage_provenance"@);
    assert(entries[3].0 == "input_token_semantics"@);
    assert(entries[4].0 == "visible_output_tokens"@);
    assert(entries[5].0 == "provider_reported_cost"@);
    assert(entries[6].0 == "zero_cost_fixture"@);
    assert(entries[7].0 == "latency_seconds"@);
    assert(entries[8].0 == "stop_reason"@);
    if let Some(usage) = usage {
        law_buckets_are_recorded_as_reported(*usage);
    }
    lemma_event_fields(
        before.identity(),
        before.counters().next_event_index,
        handle,
        "request_completed"@,
        "terminal"@,
        entries,
        identity,
    );
    law_every_row_says_where_it_belongs(
        line,
        before,
        after,
        handle,
        "request_completed"@,
        "terminal"@,
        with_identity(object(entries), identity),
    )
}

/// The row of a request that failed says how and why, and how long it took. It has no
/// usage, and prices nothing.
pub proof fn law_failure_is_recorded(
    line: Seq<char>,
    before: RawRequestLedger,
    after: RawRequestLedger,
    handle: HandleView,
    failure_kind: Seq<char>,
    failure_reason: Seq<char>,
    latency_seconds: Option<Number>,
    identity: Option<&AttemptIdentity>,
) -> (record: JsonView)
    requires
        records_failure(
            line,
            before,
            after,
            handle,
            failure_kind,
            failure_reason,
            latency_seconds,
            identity,
        ),
    ensures
        line == json_text(record) + seq!['\n'],
        reads_back(record),
        field(record, "event"@) == Some(JsonView::Text("request_failed"@)),
        field(record, "event_id"@) == Some(
            JsonView::Text(handle.logical_request_id + ":"@ + "terminal"@),
        ),
        field(record, "request_index"@) == Some(
            JsonView::Number(NumberView::Integer(handle.request_index as int)),
        ),
        field(record, "event_index"@) == Some(
            JsonView::Number(NumberView::Integer(before.counters().next_event_index as int)),
        ),
        field(record, "provider_usage"@) == Some(
            JsonView::Null,
        ),
        field(record, "input_token_semantics"@) == Some(
            JsonView::Null,
        ),
        field(record, "visible_output_tokens"@) == Some(
            JsonView::Null,
        ),
        field(record, "provider_reported_cost"@) == Some(
            JsonView::Null,
        ),
        field(record, "zero_cost_fixture"@) == Some(
            JsonView::Bool(false),
        ),
        field(record, "latency_seconds"@) == Some(
            match latency_seconds {
                Some(n) => JsonView::Number(number_of(n)),
                None => JsonView::Null,
            },
        ),
        field(record, "failure_kind"@) == Some(
            JsonView::Text(failure_kind),
        ),
        field(record, "failure_reason"@) == Some(
            JsonView::Text(failure_reason),
        ),
        identity matches Some(attempt) ==> {
            &&& field(record, "attempt_provider_id"@) == Some(JsonView::Text(attempt.provider_id@))
            &&& field(record, "attempt_model_id"@) == Some(JsonView::Text(attempt.model_id@))
            &&& field(record, "attempt_pricing_schedule_id"@) == Some(
                match attempt.pricing_schedule_id {
                    Some(id) => JsonView::Text(id@),
                    None => JsonView::Null,
                },
            )
        },
        identity is None ==> {
            &&& field(record, "attempt_provider_id"@) is None
            &&& field(record, "attempt_model_id"@) is None
            &&& field(record, "attempt_pricing_schedule_id"@) is None
        },
        after.counters().next_event_index == before.counters().next_event_index + 1,
        after.counters().next_request_index == before.counters().next_request_index,
{
    let entries = failed_entries(failure_kind, failure_reason, latency_seconds);
    reveal_strlit("provider_usage");
    assert(key_code("provider_usage"@) == 14_112_114);
    reveal_strlit("input_token_semantics");
    assert(key_code("input_token_semantics"@) == 21_105_110);
    reveal_strlit("visible_output_tokens");
    assert(key_code("visible_output_tokens"@) == 21_118_105);
    reveal_strlit("provider_reported_cost");
    assert(key_code("provider_reported_cost"@) == 22_112_114);
    reveal_strlit("zero_cost_fixture");
    assert(key_code("zero_cost_fixture"@) == 17_122_101);
    reveal_strlit("latency_seconds");
    assert(key_code("latency_seconds"@) == 15_108_097);
    reveal_strlit("failure_kind");
    assert(key_code("failure_kind"@) == 12_102_097);
    reveal_strlit("failure_reason");
    assert(key_code("failure_reason"@) == 14_102_097);
    assert(entries[0].0 == "provider_usage"@);
    assert(entries[1].0 == "input_token_semantics"@);
    assert(entries[2].0 == "visible_output_tokens"@);
    assert(entries[3].0 == "provider_reported_cost"@);
    assert(entries[4].0 == "zero_cost_fixture"@);
    assert(entries[5].0 == "latency_seconds"@);
    assert(entries[6].0 == "failure_kind"@);
    assert(entries[7].0 == "failure_reason"@);
    lemma_event_fields(
        before.identity(),
        before.counters().next_event_index,
        handle,
        "request_failed"@,
        "terminal"@,
        entries,
        identity,
    );
    law_every_row_says_where_it_belongs(
        line,
        before,
        after,
        handle,
        "request_failed"@,
        "terminal"@,
        with_identity(object(entries), identity),
    )
}

} // verus!
