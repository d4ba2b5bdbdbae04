//! The keys of recorded events, and that no event writes over what every record
//! says.

use vstd::prelude::*;

use crate::event::{
    attempt_failed_entries, attempt_started_entries, base_entries, completed_entries,
    event_record, failed_entries, identity_entries, retry_scheduled_entries, with_identity,
    AttemptIdentity, HandleView, IdentityView,
};
use crate::json::{
    entries_map, field, lemma_entries_map, lemma_entries_map_absent, object, JsonView,
};
use crate::usage::TokenUsage;
use serde_json::Number;

verus! {

/// A number that tells the keys of records apart: the length of the key and its
/// first two characters.
pub open spec fn key_code(key: Seq<char>) -> int {
    key.len() * 1_000_000 + (key[0] as int) * 1_000 + (key[1] as int)
}

/// The keys of what every record says.
pub open spec fn base_keys() -> Seq<Seq<char>> {
    seq![
        "schema_version"@,
        "event_id"@,
        "event_index"@,
        "event"@,
        "run_id"@,
        "task_id"@,
        "replicate_id"@,
        "arm"@,
        "thread_id"@,
        "request_index"@,
        "logical_request_id"@,
        "request_purpose"@,
        "decision_epoch"@,
        "decision_action"@,
        "compaction_id"@,
        "reset_id"@,
        "compaction_kind"@,
        "session_id"@,
        "turn_id"@,
        "provider_id"@,
        "model_id"@,
        "pricing_schedule_id"@,
    ]
}

/// The numbers of the keys of what every record says.
spec fn base_codes() -> Seq<int> {
    seq![
        14_115_099int,
        8_101_118int,
        11_101_118int,
        5_101_118int,
        6_114_117int,
        7_116_097int,
        12_114_101int,
        3_097_114int,
        9_116_104int,
        13_114_101int,
        18_108_111int,
        15_114_101int,
        14_100_101int,
        15_100_101int,
        13_099_111int,
        8_114_101int,
        15_099_111int,
        10_115_101int,
        7_116_117int,
        11_112_114int,
        8_109_111int,
        19_112_114int,
    ]
}

/// The numbers of the keys of what every record says.
proof fn lemma_base_codes()
    ensures
        forall|i: int|
            0 <= i < base_keys().len() ==> key_code(#[trigger] base_keys()[i]) == base_codes()[i],
        forall|i: int, j: int|
            0 <= i < j < base_keys().len() ==> base_codes()[i] != base_codes()[j],
{
    reveal_strlit("schema_version");
    assert(key_code("schema_version"@) == 14_115_099);
    reveal_strlit("event_id");
    assert(key_code("event_id"@) == 8_101_118);
    reveal_strlit("event_index");
    assert(key_code("event_index"@) == 11_101_118);
    reveal_strlit("event");
    assert(key_code("event"@) == 5_101_118);
    reveal_strlit("run_id");
    assert(key_code("run_id"@) == 6_114_117);
    reveal_strlit("task_id");
    assert(key_code("task_id"@) == 7_116_097);
    reveal_strlit("replicate_id");
    assert(key_code("replicate_id"@) == 12_114_101);
    reveal_strlit("arm");
    assert(key_code("arm"@) == 3_097_114);
    reveal_strlit("thread_id");
    assert(key_code("thread_id"@) == 9_116_104);
    reveal_strlit("request_index");
    assert(key_code("request_index"@) == 13_114_101);
    reveal_strlit("logical_request_id");
    assert(key_code("logical_request_id"@) == 18_108_111);
    reveal_strlit("request_purpose");
    assert(key_code("request_purpose"@) == 15_114_101);
    reveal_strlit("decision_epoch");
    assert(key_code("decision_epoch"@) == 14_100_101);
    reveal_strlit("decision_action");
    assert(key_code("decision_action"@) == 15_100_101);
    reveal_strlit("compaction_id");
    assert(key_code("compaction_id"@) == 13_099_111);
    reveal_strlit("reset_id");
    assert(key_code("reset_id"@) == 8_114_101);
    reveal_strlit("compaction_kind");
    assert(key_code("compaction_kind"@) == 15_099_111);
    reveal_strlit("session_id");
    assert(key_code("session_id"@) == 10_115_101);
    reveal_strlit("turn_id");
    assert(key_code("turn_id"@) == 7_116_117);
    reveal_strlit("provider_id");
    assert(key_code("provider_id"@) == 11_112_114);
    reveal_strlit("model_id");
    assert(key_code("model_id"@) == 8_109_111);
    reveal_strlit("pricing_schedule_id");
    assert(key_code("pricing_schedule_id"@) == 19_112_114);
}

/// The keys of what every record says are different.
proof fn lemma_base_keys_differ(i: int, j: int)
    requires
        0 <= i < base_keys().len(),
        0 <= j < base_keys().len(),
        i != j,
    ensures
        base_keys()[i] != base_keys()[j],
{
    lemma_base_codes();
    if i < j {
        assert(base_codes()[i] != base_codes()[j]);
    } else {
        assert(base_codes()[j] != base_codes()[i]);
    }
}

/// The keys of what events add.
spec fn event_keys() -> Seq<Seq<char>> {
    seq![
        "attempt_index"@,
        "failure_kind"@,
        "failure_reason"@,
        "billable"@,
        "wait_seconds"@,
        "response_id"@,
        "provider_usage"@,
        "usage_provenance"@,
        "input_token_semantics"@,
        "visible_output_tokens"@,
        "provider_reported_cost"@,
        "zero_cost_fixture"@,
        "latency_seconds"@,
        "stop_reason"@,
        "attempt_provider_id"@,
        "attempt_model_id"@,
        "attempt_pricing_schedule_id"@,
    ]
}

/// The numbers of the keys of what events add.
spec fn event_codes() -> Seq<int> {
    seq![
        13_097_116int,
        12_102_097int,
        14_102_097int,
        8_098_105int,
        12_119_097int,
        11_114_101int,
        14_112_114int,
        16_117_115int,
        21_105_110int,
        21_118_105int,
        22_112_114int,
        17_122_101int,
        15_108_097int,
        11_115_116int,
        19_097_116int,
        16_097_116int,
        27_097_116int,
    ]
}

/// No key of what events add is one of what every record says.
proof fn lemma_event_keys_apart(i: int, j: int)
    requires
        0 <= i < event_keys().len(),
        0 <= j < base_keys().len(),
    ensures
        event_keys()[i] != base_keys()[j],
{
    lemma_base_codes();
    reveal_strlit("attempt_index");
    assert(key_code("attempt_index"@) == 13_097_116);
    reveal_strlit("failure_kind");
    assert(key_code("failure_kind"@) == 12_102_097);
    reveal_strlit("failure_reason");
    assert(key_code("failure_reason"@) == 14_102_097);
    reveal_strlit("billable");
    assert(key_code("billable"@) == 8_098_105);
    reveal_strlit("wait_seconds");
    assert(key_code("wait_seconds"@) == 12_119_097);
    reveal_strlit("response_id");
    assert(key_code("response_id"@) == 11_114_101);
    reveal_strlit("provider_usage");
    assert(key_code("provider_usage"@) == 14_112_114);
    reveal_strlit("usage_provenance");
    assert(key_code("usage_provenance"@) == 16_117_115);
    reveal_strlit("input_token_semantics");
    assert(key_code("input_token_semantics"@) == 21_105_110);
    reveal_strlit("visible_output_tokens");
    assert(key_code("visible_output_tokens"@) == 21_118_105);
    reveal_strlit("provider_reported_cost");
    assert(key_code("provider_reported_cost"@) == 22_112_114);
    reveal_strlit("zero_cost_fixture");
    assert(key_code("zero_cost_fixture"@) == 17_122_101);
    reveal_strlit("latency_seconds");
    assert(key_code("latency_seconds"@) == 15_108_097);
    reveal_strlit("stop_reason");
    assert(key_code("stop_reason"@) == 11_115_116);
    reveal_strlit("attempt_provider_id");
    assert(key_code("attempt_provider_id"@) == 19_097_116);
    reveal_strlit("attempt_model_id");
    assert(key_code("attempt_model_id"@) == 16_097_116);
    reveal_strlit("attempt_pricing_schedule_id");
    assert(key_code("attempt_pricing_schedule_id"@) == 27_097_116);
    assert(key_code(event_keys()[i]) == event_codes()[i]);
    assert(event_codes()[i] != base_codes()[j]);
}

/// Whether the fields of an event leave what every record says alone.
pub open spec fn apart(fields: JsonView) -> bool {
    fields matches JsonView::Object(map) ==> forall|i: int|
        0 <= i < base_keys().len() ==> !map.dom().contains(#[trigger] base_keys()[i])
}

/// Whether the keys are all ones that events add.
spec fn with_event_keys(entries: Seq<(Seq<char>, JsonView)>) -> bool {
    forall|i: int|
        0 <= i < entries.len() ==> exists|j: int|
            0 <= j < event_keys().len() && (#[trigger] entries[i]).0 == #[trigger] event_keys()[j]
}

/// An object with the keys that events add leaves what every record says alone.
proof fn lemma_apart(entries: Seq<(Seq<char>, JsonView)>)
    requires
        with_event_keys(entries),
    ensures
        apart(object(entries)),
{
    assert forall|i: int| 0 <= i < base_keys().len() implies !entries_map(entries).dom().contains(
        #[trigger] base_keys()[i],
    ) by {
        assert forall|k: int| 0 <= k < entries.len() implies (#[trigger] entries[k]).0
            != base_keys()[i] by {
            let j = choose|j: int|
                0 <= j < event_keys().len() && entries[k].0 == #[trigger] event_keys()[j];
            lemma_event_keys_apart(j, i);
        }
        lemma_entries_map_absent(entries, base_keys()[i]);
    }
}

/// The identity of an attempt leaves what every record says alone.
proof fn lemma_identity_apart(fields: JsonView, identity: Option<&AttemptIdentity>)
    requires
        apart(fields),
    ensures
        apart(with_identity(fields, identity)),
{
    if let Some(identity) = identity {
        let entries = identity_entries(*identity);
        assert(entries[0].0 == event_keys()[14]);
        assert(entries[1].0 == event_keys()[15]);
        assert(entries[2].0 == event_keys()[16]);
        assert(with_event_keys(entries));
        lemma_apart(entries);
    }
}

/// What the events of a request record leaves what every record says alone.
pub proof fn law_events_stand_apart(
    attempt_index: u64,
    failure_kind: Seq<char>,
    failure_reason: Seq<char>,
    wait_seconds: Option<Number>,
    response_id: Option<Seq<char>>,
    usage: Option<&TokenUsage>,
    visible_output_tokens: Option<i64>,
    latency_seconds: Option<Number>,
    stop_reason: Seq<char>,
    identity: Option<&AttemptIdentity>,
)
    ensures
        apart(JsonView::Null),
        apart(with_identity(object(attempt_started_entries(attempt_index)), identity)),
        apart(
            with_identity(
                object(attempt_failed_entries(attempt_index, failure_kind, failure_reason)),
                identity,
            ),
        ),
        apart(object(retry_scheduled_entries(attempt_index, wait_seconds))),
        apart(
            with_identity(
                object(
                    completed_entries(
                        response_id,
                        usage,
                        visible_output_tokens,
                        latency_seconds,
                        stop_reason,
                    ),
                ),
                identity,
            ),
        ),
        apart(
            with_identity(
                object(failed_entries(failure_kind, failure_reason, latency_seconds)),
                identity,
            ),
        ),
{
    let keys = event_keys();
    let started = attempt_started_entries(attempt_index);
    assert(started[0].0 == keys[0]);
    lemma_apart(started);
    lemma_identity_apart(object(started), identity);

    let attempt = attempt_failed_entries(attempt_index, failure_kind, failure_reason);
    assert(attempt[0].0 == keys[0] && attempt[1].0 == keys[1] && attempt[2].0 == keys[2]
        && attempt[3].0 == keys[3]);
    lemma_apart(attempt);
    lemma_identity_apart(object(attempt), identity);

    let retry = retry_scheduled_entries(attempt_index, wait_seconds);
    assert(retry[0].0 == keys[0] && retry[1].0 == keys[4]);
    lemma_apart(retry);

    let completed = completed_entries(
        response_id,
        usage,
        visible_output_tokens,
        latency_seconds,
        stop_reason,
    );
    assert forall|i: int| 0 <= i < completed.len() implies (#[trigger] completed[i]).0 == keys[i
        + 5] by {}
    assert forall|i: int| 0 <= i < completed.len() implies exists|j: int|
        0 <= j < keys.len() && (#[trigger] completed[i]).0 == #[trigger] keys[j] by {
        assert(completed[i].0 == keys[i + 5]);
    }
    lemma_apart(completed);
    lemma_identity_apart(object(completed), identity);

    let failed = failed_entries(failure_kind, failure_reason, latency_seconds);
    assert(failed[0].0 == keys[6] && failed[1].0 == keys[8] && failed[2].0 == keys[9]
        && failed[3].0 == keys[10] && failed[4].0 == keys[11] && failed[5].0 == keys[12]
        && failed[6].0 == keys[1] && failed[7].0 == keys[2]);
    lemma_apart(failed);
    lemma_identity_apart(object(failed), identity);
}

/// A record says of its run, its request and its event what every record says,
/// whatever the event adds to it. So a fallback does not change the identity of
/// the logical request.
pub proof fn law_record_keeps_its_identity(
    identity: IdentityView,
    event_index: u64,
    handle: HandleView,
    event: Seq<char>,
    suffix: Seq<char>,
    fields: JsonView,
)
    requires
        apart(fields),
    ensures
        ({
            let record = event_record(identity, event_index, handle, event, suffix, fields);
            let base = base_entries(identity, event_index, handle, event, suffix);
            &&& base.len() == base_keys().len()
            &&& forall|i: int|
                0 <= i < base.len() ==> (#[trigger] base[i]).0 == base_keys()[i] && field(
                    record,
                    base[i].0,
                ) == Some(base[i].1)
        }),
{
    let record = event_record(identity, event_index, handle, event, suffix, fields);
    let base = base_entries(identity, event_index, handle, event, suffix);
    assert forall|i: int| 0 <= i < base.len() implies (#[trigger] base[i]).0 == base_keys()[i] by {}
    assert forall|i: int| 0 <= i < base.len() implies field(record, (#[trigger] base[i]).0) == Some(
        base[i].1,
    ) by {
        assert forall|j: int| i < j < base.len() implies (#[trigger] base[j]).0 != base[i].0 by {
            lemma_base_keys_differ(i, j);
            assert(base[j].0 == base_keys()[j]);
            assert(base[i].0 == base_keys()[i]);
        }
        lemma_entries_map(base, base[i].0, i);
        assert(base[i].0 == base_keys()[i]);
    }
}

/// A record with the identity of an attempt says which provider, model and pricing
/// schedule the attempt had.
pub proof fn law_record_tells_the_attempt(
    identity: IdentityView,
    event_index: u64,
    handle: HandleView,
    event: Seq<char>,
    suffix: Seq<char>,
    fields: JsonView,
    attempt: AttemptIdentity,
)
    requires
        fields is Object,
    ensures
        ({
            let record = event_record(
                identity,
                event_index,
                handle,
                event,
                suffix,
                with_identity(fields, Some(&attempt)),
            );
            let entries = identity_entries(attempt);
            forall|i: int|
                0 <= i < entries.len() ==> field(record, (#[trigger] entries[i]).0) == Some(
                    entries[i].1,
                )
        }),
{
    let entries = identity_entries(attempt);
    reveal_strlit("attempt_provider_id");
    reveal_strlit("attempt_model_id");
    reveal_strlit("attempt_pricing_schedule_id");
    assert("attempt_provider_id"@.len() == 19);
    assert("attempt_model_id"@.len() == 16);
    assert("attempt_pricing_schedule_id"@.len() == 27);
    lemma_entries_map(entries, entries[0].0, 0);
    lemma_entries_map(entries, entries[1].0, 1);
    lemma_entries_map(entries, entries[2].0, 2);
}

/// An object whose keys can be told apart by their numbers has each of its entries.
pub proof fn lemma_entries_apart(entries: Seq<(Seq<char>, JsonView)>)
    requires
        forall|i: int, j: int|
            0 <= i < j < entries.len() ==> key_code((#[trigger] entries[i]).0) != key_code(
                (#[trigger] entries[j]).0,
            ),
    ensures
        forall|i: int|
            0 <= i < entries.len() ==> field(object(entries), (#[trigger] entries[i]).0) == Some(
                entries[i].1,
            ),
{
    assert forall|i: int| 0 <= i < entries.len() implies field(
        object(entries),
        (#[trigger] entries[i]).0,
    ) == Some(entries[i].1) by {
        assert forall|j: int| i < j < entries.len() implies (#[trigger] entries[j]).0
            != entries[i].0 by {
            assert(key_code(entries[i].0) != key_code(entries[j].0));
        }
        lemma_entries_map(entries, entries[i].0, i);
    }
}

/// Whether a number is that of a key of the identity of an attempt.
spec fn attempt_code(code: int) -> bool {
    code == 19_097_116 || code == 16_097_116 || code == 27_097_116
}

/// The record of an event has each entry of the event, and the identity of the attempt
/// exactly where there is one.
pub proof fn lemma_event_fields(
    identity: IdentityView,
    event_index: u64,
    handle: HandleView,
    event: Seq<char>,
    suffix: Seq<char>,
    entries: Seq<(Seq<char>, JsonView)>,
    attempt: Option<&AttemptIdentity>,
)
    requires
        forall|i: int, j: int|
            0 <= i < j < entries.len() ==> key_code((#[trigger] entries[i]).0) != key_code(
                (#[trigger] entries[j]).0,
            ),
        forall|i: int|
            0 <= i < entries.len() ==> {
                let code = key_code((#[trigger] entries[i]).0);
                code != 19_097_116 && code != 16_097_116 && code != 27_097_116
            },
    ensures
        ({
            let record = event_record(
                identity,
                event_index,
                handle,
                event,
                suffix,
                with_identity(object(entries), attempt),
            );
            &&& forall|i: int|
                0 <= i < entries.len() ==> field(record, (#[trigger] entries[i]).0) == Some(
                    entries[i].1,
                )
            &&& match attempt {
                Some(attempt) => {
                    &&& field(record, "attempt_provider_id"@) == Some(
                        JsonView::Text(attempt.provider_id@),
                    )
                    &&& field(record, "attempt_model_id"@) == Some(
                        JsonView::Text(attempt.model_id@),
                    )
                    &&& field(record, "attempt_pricing_schedule_id"@) == Some(
                        match attempt.pricing_schedule_id {
                            Some(id) => JsonView::Text(id@),
                            None => JsonView::Null,
                        },
                    )
                },
                None => {
                    &&& field(record, "attempt_provider_id"@) is None
                    &&& field(record, "attempt_model_id"@) is None
                    &&& field(record, "attempt_pricing_schedule_id"@) is None
                },
            }
        }),
{
    reveal_strlit("attempt_provider_id");
    assert(key_code("attempt_provider_id"@) == 19_097_116);
    reveal_strlit("attempt_model_id");
    assert(key_code("attempt_model_id"@) == 16_097_116);
    reveal_strlit("attempt_pricing_schedule_id");
    assert(key_code("attempt_pricing_schedule_id"@) == 27_097_116);
    let fields = with_identity(object(entries), attempt);
    let record = event_record(identity, event_index, handle, event, suffix, fields);
    let base = base_entries(identity, event_index, handle, event, suffix);
    lemma_entries_apart(entries);
    match attempt {
        Some(attempt) => {
            let own = identity_entries(*attempt);
            law_record_tells_the_attempt(
                identity,
                event_index,
                handle,
                event,
                suffix,
                object(entries),
                *attempt,
            );
            assert(own[0].0 == "attempt_provider_id"@);
            assert(own[1].0 == "attempt_model_id"@);
            assert(own[2].0 == "attempt_pricing_schedule_id"@);
            assert forall|i: int| 0 <= i < entries.len() implies field(
                record,
                (#[trigger] entries[i]).0,
            ) == Some(entries[i].1) by {
                assert(!attempt_code(key_code(entries[i].0)));
                assert forall|j: int| 0 <= j < own.len() implies (#[trigger] own[j]).0
                    != entries[i].0 by {}
                lemma_entries_map_absent(own, entries[i].0);
                assert(field(object(entries), entries[i].0) == Some(entries[i].1));
            }
        },
        None => {
            assert forall|i: int| 0 <= i < entries.len() implies field(
                record,
                (#[trigger] entries[i]).0,
            ) == Some(entries[i].1) by {
                assert(field(object(entries), entries[i].0) == Some(entries[i].1));
            }
            lemma_no_attempt(base, entries, "attempt_provider_id"@, 14);
            lemma_no_attempt(base, entries, "attempt_model_id"@, 15);
            lemma_no_attempt(base, entries, "attempt_pricing_schedule_id"@, 16);
        },
    }
}

/// A key of the identity of an attempt stands neither in what every record says nor
/// among entries that do not have it.
proof fn lemma_no_attempt(
    base: Seq<(Seq<char>, JsonView)>,
    entries: Seq<(Seq<char>, JsonView)>,
    key: Seq<char>,
    place: int,
)
    requires
        14 <= place < 17,
        key == event_keys()[place],
        base.len() == base_keys().len(),
        forall|i: int| 0 <= i < base.len() ==> (#[trigger] base[i]).0 == base_keys()[i],
        forall|i: int|
            0 <= i < entries.len() ==> key_code((#[trigger] entries[i]).0) != key_code(key),
    ensures
        !entries_map(base).dom().contains(key),
        !entries_map(entries).dom().contains(key),
{
    assert forall|i: int| 0 <= i < base.len() implies (#[trigger] base[i]).0 != key by {
        lemma_event_keys_apart(place, i);
    }
    lemma_entries_map_absent(base, key);
    lemma_entries_map_absent(entries, key);
}

} // verus!
