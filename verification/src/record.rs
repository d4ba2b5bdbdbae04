//! The records of the reconstruction log, and the documents that they are written
//! as.

use vstd::prelude::*;

use crate::bridge::opt_json;
use crate::config::{arm_name, arm_text, ContextPolicyMode};
use crate::decision::{action_text, ContextPolicyAction};
use crate::json::{
    depth_at_most, entries_line, entries_readable, entries_text, entry, field, holds, int_json,
    lemma_entries_map, lemma_entries_map_absent, max_depth, object, opt_i64_json, pairs_view, Json,
    JsonView,
};
use crate::keys::key_code;
use crate::text::opt_text;

verus! {

/// What every record says.
#[derive(Debug)]
pub struct RecordFields {
    pub protocol_version: &'static str,
    pub run_id: String,
    pub task_id: String,
    pub replicate_id: u64,
    pub thread_id: String,
    pub turn_id: String,
    pub epoch: u64,
    pub policy_mode: ContextPolicyMode,
    pub action: Option<ContextPolicyAction>,
    pub estimated_input_tokens: i64,
    pub reusable_prefix_tokens: Option<i64>,
    pub nominal_context_window: Option<i64>,
    pub usable_context_window: Option<i64>,
    pub input_item_count: usize,
    pub model_visible_tool_count: usize,
    pub model_id: String,
    pub provider_id: String,
    pub measurement: &'static str,
    pub model_visible_request: Json,
}

/// One record of the reconstruction log.
#[derive(Debug)]
pub enum ContextPolicyRecord {
    /// A decision was made.
    Decision {
        fields: RecordFields,
        compaction_reason: Option<&'static str>,
        decision_mode: Option<String>,
        decision_diagnostics: Option<Json>,
    },
    /// The model is about to be invoked.
    ReadyToInvoke { fields: RecordFields },
}

// ---------------------------------------------------------------------------
// The document of a record
// ---------------------------------------------------------------------------

/// What an action is written as. No action is nothing.
pub open spec fn action_json(action: Option<ContextPolicyAction>) -> JsonView {
    match action {
        Some(action) => JsonView::Text(action_text(action)),
        None => JsonView::Null,
    }
}

/// What a document that may be missing is written as.
pub open spec fn opt_document(json: Option<Json>) -> JsonView {
    match opt_json(json) {
        Some(json) => json,
        None => JsonView::Null,
    }
}

/// What the reason of a compaction is written as.
pub open spec fn reason_json(reason: Option<&'static str>) -> JsonView {
    match reason {
        Some(reason) => JsonView::Text(reason@),
        None => JsonView::Null,
    }
}

/// What stands first in the document of a record: the event, and the decision
/// that it belongs to.
pub open spec fn decision_entries(event: Seq<char>, fields: RecordFields) -> Seq<
    (Seq<char>, JsonView),
> {
    seq![
        ("event"@, JsonView::Text(event)),
        ("protocol_version"@, JsonView::Text(fields.protocol_version@)),
        ("run_id"@, JsonView::Text(fields.run_id@)),
        ("task_id"@, JsonView::Text(fields.task_id@)),
        ("replicate_id"@, int_json(fields.replicate_id as int)),
        ("thread_id"@, JsonView::Text(fields.thread_id@)),
        ("turn_id"@, JsonView::Text(fields.turn_id@)),
        ("epoch"@, int_json(fields.epoch as int)),
        ("policy_mode"@, JsonView::Text(arm_text(fields.policy_mode))),
        ("action"@, action_json(fields.action)),
    ]
}

/// What stands last in the document of a record: the observation.
pub open spec fn observed_entries(fields: RecordFields) -> Seq<(Seq<char>, JsonView)> {
    seq![
        ("estimated_input_tokens"@, int_json(fields.estimated_input_tokens as int)),
        ("reusable_prefix_tokens"@, opt_i64_json(fields.reusable_prefix_tokens)),
        ("nominal_context_window"@, opt_i64_json(fields.nominal_context_window)),
        ("usable_context_window"@, opt_i64_json(fields.usable_context_window)),
        ("input_item_count"@, int_json(fields.input_item_count as int)),
        ("model_visible_tool_count"@, int_json(fields.model_visible_tool_count as int)),
        ("model_id"@, JsonView::Text(fields.model_id@)),
        ("provider_id"@, JsonView::Text(fields.provider_id@)),
        ("measurement"@, JsonView::Text(fields.measurement@)),
        ("model_visible_request"@, fields.model_visible_request@),
    ]
}

/// What a policy process calls the way in which it decided. A policy in process
/// says nothing, and has no entry.
pub open spec fn mode_entries(decision_mode: Option<Seq<char>>) -> Seq<(Seq<char>, JsonView)> {
    match decision_mode {
        Some(mode) => seq![("decision_mode"@, JsonView::Text(mode))],
        None => Seq::empty(),
    }
}

/// The entries of the document of a record, in their order. Only a decision says
/// why it compacts and what the policy says of itself.
pub open spec fn record_entries(record: ContextPolicyRecord) -> Seq<(Seq<char>, JsonView)> {
    match record {
        ContextPolicyRecord::Decision {
            fields,
            compaction_reason,
            decision_mode,
            decision_diagnostics,
        } => decision_entries("decision"@, fields) + seq![
            ("compaction_reason"@, reason_json(compaction_reason)),
        ] + mode_entries(opt_text(decision_mode)) + seq![
            ("decision_diagnostics"@, opt_document(decision_diagnostics)),
        ] + observed_entries(fields),
        ContextPolicyRecord::ReadyToInvoke { fields } => decision_entries(
            "ready_to_invoke"@,
            fields,
        ) + observed_entries(fields),
    }
}

/// The line that a record is written as.
pub open spec fn record_line(record: ContextPolicyRecord) -> Seq<char> {
    entries_text(record_entries(record)) + seq!['\n']
}

/// The entries that stand first in a document.
fn decision_pairs(event: &str, fields: &RecordFields) -> (pairs: Vec<(String, Json)>)
    ensures
        pairs_view(pairs@) == decision_entries(event@, *fields),
{
    let action = match fields.action {
        Some(action) => Json::text(action.name()),
        None => Json::Null,
    };
    let pairs = vec![
        entry("event", Json::text(event)),
        entry("protocol_version", Json::text(fields.protocol_version)),
        entry("run_id", Json::text(fields.run_id.as_str())),
        entry("task_id", Json::text(fields.task_id.as_str())),
        entry("replicate_id", Json::unsigned(fields.replicate_id)),
        entry("thread_id", Json::text(fields.thread_id.as_str())),
        entry("turn_id", Json::text(fields.turn_id.as_str())),
        entry("epoch", Json::unsigned(fields.epoch)),
        entry("policy_mode", Json::text(arm_name(fields.policy_mode))),
        entry("action", action),
    ];
    assert(pairs_view(pairs@) =~= decision_entries(event@, *fields));
    pairs
}

/// The entries that stand last in a document.
fn observed_pairs(fields: RecordFields) -> (pairs: Vec<(String, Json)>)
    ensures
        pairs_view(pairs@) == observed_entries(fields),
{
    let pairs = vec![
        entry("estimated_input_tokens", Json::signed(fields.estimated_input_tokens)),
        entry("reusable_prefix_tokens", Json::opt_signed(fields.reusable_prefix_tokens)),
        entry("nominal_context_window", Json::opt_signed(fields.nominal_context_window)),
        entry("usable_context_window", Json::opt_signed(fields.usable_context_window)),
        entry("input_item_count", Json::unsigned(fields.input_item_count as u64)),
        entry("model_visible_tool_count", Json::unsigned(fields.model_visible_tool_count as u64)),
        entry("model_id", Json::Text(fields.model_id)),
        entry("provider_id", Json::Text(fields.provider_id)),
        entry("measurement", Json::text(fields.measurement)),
        entry("model_visible_request", fields.model_visible_request),
    ];
    assert(pairs_view(pairs@) =~= observed_entries(fields));
    pairs
}

impl ContextPolicyRecord {
    /// The document that the record is written as, with its entries in their
    /// order.
    pub fn document(self) -> (json: Json)
        ensures
            json matches Json::Object(pairs) && pairs_view(pairs@) == record_entries(self),
            json@ == object(record_entries(self)),
    {
        Json::Object(self.pairs())
    }

    /// The line that the record is written as: its document as compact text, with
    /// the entries in their order, and a line feed. The text holds the document
    /// when it is read again.
    pub fn line(self) -> (line: String)
        ensures
            line@ == record_line(self),
            !entries_text(record_entries(self)).contains('\n'),
            !entries_text(record_entries(self)).contains('\r'),
            entries_readable(record_entries(self)) ==> holds(
                entries_text(record_entries(self)),
                object(record_entries(self)),
            ),
    {
        let pairs = self.pairs();
        let mut line = entries_line(&pairs);
        line.push('\n');
        assert(line@ =~= record_line(self));
        line
    }

    /// The entries of the document, in their order.
    fn pairs(self) -> (pairs: Vec<(String, Json)>)
        ensures
            pairs_view(pairs@) == record_entries(self),
    {
        let ghost entries = record_entries(self);
        match self {
            ContextPolicyRecord::Decision {
                fields,
                compaction_reason,
                decision_mode,
                decision_diagnostics,
            } => {
                let reason = match compaction_reason {
                    Some(reason) => Json::text(reason),
                    None => Json::Null,
                };
                let diagnostics = match decision_diagnostics {
                    Some(diagnostics) => diagnostics,
                    None => Json::Null,
                };
                let mut pairs = decision_pairs("decision", &fields);
                pairs.push(entry("compaction_reason", reason));
                if let Some(mode) = decision_mode {
                    pairs.push(entry("decision_mode", Json::Text(mode)));
                }
                pairs.push(entry("decision_diagnostics", diagnostics));
                let mut observed = observed_pairs(fields);
                pairs.append(&mut observed);
                assert(pairs_view(pairs@) =~= entries);
                pairs
            },
            ContextPolicyRecord::ReadyToInvoke { fields } => {
                let mut pairs = decision_pairs("ready_to_invoke", &fields);
                let mut observed = observed_pairs(fields);
                pairs.append(&mut observed);
                assert(pairs_view(pairs@) =~= entries);
                pairs
            },
        }
    }
}

// ---------------------------------------------------------------------------
// Nothing is lost
// ---------------------------------------------------------------------------

/// The keys of the document of a decision, in their order.
spec fn record_keys() -> Seq<Seq<char>> {
    seq![
        "event"@,
        "protocol_version"@,
        "run_id"@,
        "task_id"@,
        "replicate_id"@,
        "thread_id"@,
        "turn_id"@,
        "epoch"@,
        "policy_mode"@,
        "action"@,
        "compaction_reason"@,
        "decision_mode"@,
        "decision_diagnostics"@,
        "estimated_input_tokens"@,
        "reusable_prefix_tokens"@,
        "nominal_context_window"@,
        "usable_context_window"@,
        "input_item_count"@,
        "model_visible_tool_count"@,
        "model_id"@,
        "provider_id"@,
        "measurement"@,
        "model_visible_request"@,
    ]
}

/// The numbers of the keys of the document of a decision.
spec fn record_codes() -> Seq<int> {
    seq![
        5_101_118int,
        16_112_114int,
        6_114_117int,
        7_116_097int,
        12_114_101int,
        9_116_104int,
        7_116_117int,
        5_101_112int,
        11_112_111int,
        6_097_099int,
        17_099_111int,
        13_100_101int,
        20_100_101int,
        22_101_115int,
        22_114_101int,
        22_110_111int,
        21_117_115int,
        16_105_110int,
        24_109_111int,
        8_109_111int,
        11_112_114int,
        11_109_101int,
        21_109_111int,
    ]
}

/// The keys of the document of a decision are different.
proof fn lemma_record_keys_differ(i: int, j: int)
    requires
        0 <= i < j < record_keys().len(),
    ensures
        record_keys()[i] != record_keys()[j],
{
    reveal_strlit("event");
    assert(key_code("event"@) == 5_101_118);
    reveal_strlit("protocol_version");
    assert(key_code("protocol_version"@) == 16_112_114);
    reveal_strlit("run_id");
    assert(key_code("run_id"@) == 6_114_117);
    reveal_strlit("task_id");
    assert(key_code("task_id"@) == 7_116_097);
    reveal_strlit("replicate_id");
    assert(key_code("replicate_id"@) == 12_114_101);
    reveal_strlit("thread_id");
    assert(key_code("thread_id"@) == 9_116_104);
    reveal_strlit("turn_id");
    assert(key_code("turn_id"@) == 7_116_117);
    reveal_strlit("epoch");
    assert(key_code("epoch"@) == 5_101_112);
    reveal_strlit("policy_mode");
    assert(key_code("policy_mode"@) == 11_112_111);
    reveal_strlit("action");
    assert(key_code("action"@) == 6_097_099);
    reveal_strlit("compaction_reason");
    assert(key_code("compaction_reason"@) == 17_099_111);
    reveal_strlit("decision_mode");
    assert(key_code("decision_mode"@) == 13_100_101);
    reveal_strlit("decision_diagnostics");
    assert(key_code("decision_diagnostics"@) == 20_100_101);
    reveal_strlit("estimated_input_tokens");
    assert(key_code("estimated_input_tokens"@) == 22_101_115);
    reveal_strlit("reusable_prefix_tokens");
    assert(key_code("reusable_prefix_tokens"@) == 22_114_101);
    reveal_strlit("nominal_context_window");
    assert(key_code("nominal_context_window"@) == 22_110_111);
    reveal_strlit("usable_context_window");
    assert(key_code("usable_context_window"@) == 21_117_115);
    reveal_strlit("input_item_count");
    assert(key_code("input_item_count"@) == 16_105_110);
    reveal_strlit("model_visible_tool_count");
    assert(key_code("model_visible_tool_count"@) == 24_109_111);
    reveal_strlit("model_id");
    assert(key_code("model_id"@) == 8_109_111);
    reveal_strlit("provider_id");
    assert(key_code("provider_id"@) == 11_112_114);
    reveal_strlit("measurement");
    assert(key_code("measurement"@) == 11_109_101);
    reveal_strlit("model_visible_request");
    assert(key_code("model_visible_request"@) == 21_109_111);
    assert forall|n: int| 0 <= n < record_keys().len() implies key_code(#[trigger] record_keys()[n])
        == record_codes()[n] by {}
    assert forall|a: int, b: int| 0 <= a < b < record_codes().len() implies record_codes()[a]
        != record_codes()[b] by {}
    assert(record_codes()[i] != record_codes()[j]);
}

/// The place of an entry of a record among all the keys that there are.
spec fn key_place(record: ContextPolicyRecord, i: int) -> int {
    match record {
        ContextPolicyRecord::Decision { decision_mode: Some(_), .. } => i,
        ContextPolicyRecord::Decision { decision_mode: None, .. } => if i < 11 {
            i
        } else {
            i + 1
        },
        ContextPolicyRecord::ReadyToInvoke { .. } => if i < 10 {
            i
        } else {
            i + 3
        },
    }
}

/// The document of a record has each of its entries: none is written over by
/// another, so that the decision and the observation can be reconstructed.
pub proof fn law_document_keeps_every_entry(record: ContextPolicyRecord)
    ensures
        forall|i: int|
            0 <= i < record_entries(record).len() ==> field(
                object(record_entries(record)),
                (#[trigger] record_entries(record)[i]).0,
            ) == Some(record_entries(record)[i].1),
{
    let entries = record_entries(record);
    assert forall|i: int| 0 <= i < entries.len() implies (#[trigger] entries[i]).0
        == record_keys()[key_place(record, i)] && 0 <= key_place(record, i)
        < record_keys().len() by {}
    assert forall|i: int| 0 <= i < entries.len() implies field(
        object(entries),
        (#[trigger] entries[i]).0,
    ) == Some(entries[i].1) by {
        assert forall|j: int| i < j < entries.len() implies (#[trigger] entries[j]).0
            != entries[i].0 by {
            lemma_record_keys_differ(key_place(record, i), key_place(record, j));
        }
        lemma_entries_map(entries, entries[i].0, i);
    }
}

/// The line of a record can be read where the request and the diagnostics in it
/// are not nested too deeply.
pub proof fn law_record_can_be_read(record: ContextPolicyRecord)
    requires
        match record {
            ContextPolicyRecord::Decision { fields, decision_diagnostics, .. } => {
                &&& depth_at_most(fields.model_visible_request@, (max_depth() - 1) as nat)
                &&& depth_at_most(opt_document(decision_diagnostics), (max_depth() - 1) as nat)
            },
            ContextPolicyRecord::ReadyToInvoke { fields } => depth_at_most(
                fields.model_visible_request@,
                (max_depth() - 1) as nat,
            ),
        },
    ensures
        entries_readable(record_entries(record)),
{
}

/// A decision of a policy in process has no entry for a mode, and an invocation none
/// that only a decision has.
pub proof fn law_mode_is_left_out(record: ContextPolicyRecord)
    ensures
        record is Decision && record->decision_mode is None ==> field(
            object(record_entries(record)),
            "decision_mode"@,
        ) is None,
        record is ReadyToInvoke ==> {
            &&& field(object(record_entries(record)), "compaction_reason"@) is None
            &&& field(object(record_entries(record)), "decision_mode"@) is None
            &&& field(object(record_entries(record)), "decision_diagnostics"@) is None
        },
{
    let entries = record_entries(record);
    assert forall|i: int| 0 <= i < entries.len() implies (#[trigger] entries[i]).0
        == record_keys()[key_place(record, i)] && 0 <= key_place(record, i)
        < record_keys().len() by {}
    if record is ReadyToInvoke || record->decision_mode is None {
        assert forall|i: int| 0 <= i < entries.len() implies (#[trigger] entries[i]).0
            != record_keys()[11] by {
            lemma_any_keys_differ(key_place(record, i), 11);
        }
        lemma_entries_map_absent(entries, record_keys()[11]);
    }
    if record is ReadyToInvoke {
        assert forall|i: int| 0 <= i < entries.len() implies (#[trigger] entries[i]).0
            != record_keys()[10] && entries[i].0 != record_keys()[12] by {
            lemma_any_keys_differ(key_place(record, i), 10);
            lemma_any_keys_differ(key_place(record, i), 12);
        }
        lemma_entries_map_absent(entries, record_keys()[10]);
        lemma_entries_map_absent(entries, record_keys()[12]);
    }
}

/// The keys of the document of a decision are different, whichever comes first.
proof fn lemma_any_keys_differ(i: int, j: int)
    requires
        0 <= i < record_keys().len(),
        0 <= j < record_keys().len(),
        i != j,
    ensures
        record_keys()[i] != record_keys()[j],
{
    if i < j {
        lemma_record_keys_differ(i, j);
    } else {
        lemma_record_keys_differ(j, i);
    }
}

/// The order in which the entries of a record are written.
pub proof fn law_entries_stand_in_order(record: ContextPolicyRecord)
    ensures
        ({
            let keys = Seq::new(record_entries(record).len(), |i: int| record_entries(record)[i].0);
            let moded = seq![
                "event"@,
                "protocol_version"@,
                "run_id"@,
                "task_id"@,
                "replicate_id"@,
                "thread_id"@,
                "turn_id"@,
                "epoch"@,
                "policy_mode"@,
                "action"@,
                "compaction_reason"@,
                "decision_mode"@,
                "decision_diagnostics"@,
                "estimated_input_tokens"@,
                "reusable_prefix_tokens"@,
                "nominal_context_window"@,
                "usable_context_window"@,
                "input_item_count"@,
                "model_visible_tool_count"@,
                "model_id"@,
                "provider_id"@,
                "measurement"@,
                "model_visible_request"@,
            ];
            let unmoded = seq![
                "event"@,
                "protocol_version"@,
                "run_id"@,
                "task_id"@,
                "replicate_id"@,
                "thread_id"@,
                "turn_id"@,
                "epoch"@,
                "policy_mode"@,
                "action"@,
                "compaction_reason"@,
                "decision_diagnostics"@,
                "estimated_input_tokens"@,
                "reusable_prefix_tokens"@,
                "nominal_context_window"@,
                "usable_context_window"@,
                "input_item_count"@,
                "model_visible_tool_count"@,
                "model_id"@,
                "provider_id"@,
                "measurement"@,
                "model_visible_request"@,
            ];
            let ready = seq![
                "event"@,
                "protocol_version"@,
                "run_id"@,
                "task_id"@,
                "replicate_id"@,
                "thread_id"@,
                "turn_id"@,
                "epoch"@,
                "policy_mode"@,
                "action"@,
                "estimated_input_tokens"@,
                "reusable_prefix_tokens"@,
                "nominal_context_window"@,
                "usable_context_window"@,
                "input_item_count"@,
                "model_visible_tool_count"@,
                "model_id"@,
                "provider_id"@,
                "measurement"@,
                "model_visible_request"@,
            ];
            &&& record is Decision && record->decision_mode is Some ==> keys == moded
            &&& record is Decision && record->decision_mode is None ==> keys == unmoded
            &&& record is ReadyToInvoke ==> keys == ready
        }),
{
    let keys = Seq::new(record_entries(record).len(), |i: int| record_entries(record)[i].0);
    let moded = seq![
                "event"@,
                "protocol_version"@,
                "run_id"@,
                "task_id"@,
                "replicate_id"@,
                "thread_id"@,
                "turn_id"@,
                "epoch"@,
                "policy_mode"@,
                "action"@,
                "compaction_reason"@,
                "decision_mode"@,
                "decision_diagnostics"@,
                "estimated_input_tokens"@,
                "reusable_prefix_tokens"@,
                "nominal_context_window"@,
                "usable_context_window"@,
                "input_item_count"@,
                "model_visible_tool_count"@,
                "model_id"@,
                "provider_id"@,
                "measurement"@,
                "model_visible_request"@,
            ];
    let unmoded = seq![
                "event"@,
                "protocol_version"@,
                "run_id"@,
                "task_id"@,
                "replicate_id"@,
                "thread_id"@,
                "turn_id"@,
                "epoch"@,
                "policy_mode"@,
                "action"@,
                "compaction_reason"@,
                "decision_diagnostics"@,
                "estimated_input_tokens"@,
                "reusable_prefix_tokens"@,
                "nominal_context_window"@,
                "usable_context_window"@,
                "input_item_count"@,
                "model_visible_tool_count"@,
                "model_id"@,
                "provider_id"@,
                "measurement"@,
                "model_visible_request"@,
            ];
    let ready = seq![
                "event"@,
                "protocol_version"@,
                "run_id"@,
                "task_id"@,
                "replicate_id"@,
                "thread_id"@,
                "turn_id"@,
                "epoch"@,
                "policy_mode"@,
                "action"@,
                "estimated_input_tokens"@,
                "reusable_prefix_tokens"@,
                "nominal_context_window"@,
                "usable_context_window"@,
                "input_item_count"@,
                "model_visible_tool_count"@,
                "model_id"@,
                "provider_id"@,
                "measurement"@,
                "model_visible_request"@,
            ];
    if record is ReadyToInvoke {
        assert(keys =~= ready);
    } else if record->decision_mode is Some {
        assert(keys =~= moded);
    } else {
        assert(keys =~= unmoded);
    }
}

/// The line of a record is the text of its entries in their order, and a line feed.
pub proof fn law_record_line_ends_with_a_line_feed(record: ContextPolicyRecord)
    ensures
        record_line(record).len() == entries_text(record_entries(record)).len() + 1,
        record_line(record).drop_last() == entries_text(record_entries(record)),
        record_line(record).last() == '\n',
{
    assert(record_line(record).drop_last() =~= entries_text(record_entries(record)));
}

} // verus!
