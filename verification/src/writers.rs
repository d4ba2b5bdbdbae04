//! Several callers that write to one ledger. A caller holds the only permit from
//! before its call until its line is written, as one permit of a semaphore gives it.
//! The lines may be written in parts.

use vstd::prelude::*;

use crate::history::{
    is_history, law_events_are_numbered, law_rows_stand_in_order, leads, row_text, written,
    LedgerCall,
};
use crate::json::{parsed_json, u64_field};
use crate::ledger::RawRequestLedger;
use crate::text::{text_lines, whole_lines};

verus! {

/// The ledger and its file, while callers write.
pub struct Writing {
    /// Who holds the permit.
    pub holder: Option<nat>,
    pub ledger: RawRequestLedger,
    /// What the file holds.
    pub file: Seq<char>,
    /// What has yet to be written of the last line.
    pub pending: Seq<char>,
}

/// What a caller does.
pub enum WriterStep {
    /// It gets the permit.
    Acquire { caller: nat },
    /// It calls the ledger.
    Call { caller: nat, call: LedgerCall },
    /// It writes a part of its line.
    Write { caller: nat, part: Seq<char> },
    /// It gives the permit back.
    Release { caller: nat },
}

/// Whether a step leads from one state to another. Only the holder of the permit
/// calls, writes and gives the permit back, and that only when its line is written.
pub open spec fn moves(before: Writing, step: WriterStep, after: Writing) -> bool {
    match step {
        WriterStep::Acquire { caller } => {
            &&& before.holder is None
            &&& after == (Writing { holder: Some(caller), ..before })
        },
        WriterStep::Call { caller, call } => {
            &&& before.holder == Some(caller)
            &&& before.pending.len() == 0
            &&& leads(before.ledger, call, after.ledger)
            &&& after == (Writing { ledger: after.ledger, pending: call.line(), ..before })
        },
        WriterStep::Write { caller, part } => {
            &&& before.holder == Some(caller)
            &&& before.pending == part + after.pending
            &&& after == (Writing {
                file: before.file + part,
                pending: after.pending,
                ..before
            })
        },
        WriterStep::Release { caller } => {
            &&& before.holder == Some(caller)
            &&& before.pending.len() == 0
            &&& after == (Writing { holder: None, ..before })
        },
    }
}

/// Whether the steps of the callers, in the order in which they happen, lead through
/// these states.
pub open spec fn is_run(states: Seq<Writing>, steps: Seq<WriterStep>) -> bool {
    &&& states.len() == steps.len() + 1
    &&& forall|i: int|
        0 <= i < steps.len() ==> moves(states[i], #[trigger] steps[i], states[i + 1])
}

/// The calls among the steps, in their order.
pub open spec fn calls_of(steps: Seq<WriterStep>) -> Seq<LedgerCall>
    decreases steps.len(),
{
    if steps.len() == 0 {
        Seq::empty()
    } else {
        match steps.last() {
            WriterStep::Call { call, .. } => calls_of(steps.drop_last()).push(call),
            _ => calls_of(steps.drop_last()),
        }
    }
}

/// The file and what has yet to be written are the lines of the calls in their order,
/// and the ledger went through these calls one after another.
proof fn lemma_run(states: Seq<Writing>, steps: Seq<WriterStep>) -> (ledgers: Seq<RawRequestLedger>)
    requires
        is_run(states, steps),
        states[0].pending.len() == 0,
    ensures
        is_history(ledgers, calls_of(steps)),
        ledgers[0] == states[0].ledger,
        ledgers.last() == states.last().ledger,
        states.last().file + states.last().pending == states[0].file + written(calls_of(steps)),
    decreases steps.len(),
{
    if steps.len() == 0 {
        let ledgers = seq![states[0].ledger];
        assert(states[0].file + states[0].pending =~= states[0].file);
        assert(states[0].file + written(calls_of(steps)) =~= states[0].file);
        ledgers
    } else {
        let fewer = steps.drop_last();
        let earlier = states.drop_last();
        let n = steps.len() - 1;
        assert forall|i: int| 0 <= i < fewer.len() implies moves(
            earlier[i],
            #[trigger] fewer[i],
            earlier[i + 1],
        ) by {
            assert(fewer[i] == steps[i]);
        }
        let ledgers = lemma_run(earlier, fewer);
        let before = states[n];
        let after = states[n + 1];
        assert(moves(before, steps[n], after));
        let calls = calls_of(fewer);
        let file = states[0].file;
        match steps.last() {
            WriterStep::Call { caller, call } => {
                let longer = ledgers.push(after.ledger);
                let more = calls.push(call);
                assert forall|i: int| 0 <= i < more.len() implies leads(
                    longer[i],
                    #[trigger] more[i],
                    longer[i + 1],
                ) by {
                    if i < calls.len() {
                        assert(calls[i] == more[i]);
                    }
                }
                assert(more.drop_last() =~= calls);
                assert(before.file + before.pending =~= before.file);
                assert(after.file + after.pending =~= file + (written(calls) + call.line()));
                longer
            },
            WriterStep::Write { caller, part } => {
                assert(after.file + after.pending =~= before.file + before.pending);
                ledgers
            },
            _ => ledgers,
        }
    }
}

/// Where callers write to one ledger under one permit, in whatever order they come,
/// the rows stand in the file in the order of their event indices, from the first
/// index of the ledger on, with no gap, no repeat and no swap, and no row is mixed with
/// another. So it is whenever no line is half written.
pub proof fn law_concurrent_rows_stand_in_order(states: Seq<Writing>, steps: Seq<WriterStep>)
    requires
        is_run(states, steps),
        whole_lines(states[0].file),
        states[0].pending.len() == 0,
        states.last().pending.len() == 0,
    ensures
        ({
            let calls = calls_of(steps);
            let rows = text_lines(states.last().file);
            let first = text_lines(states[0].file).len();
            let index = states[0].ledger.counters().next_event_index;
            &&& whole_lines(states.last().file)
            &&& rows.len() == first + calls.len()
            &&& rows.take(first as int) == text_lines(states[0].file)
            &&& forall|i: int|
                0 <= i < calls.len() ==> (#[trigger] calls[i]).line() == rows[first + i]
                    + seq!['\n'] && (parsed_json(rows[first + i]) matches Ok(row) && u64_field(
                    row,
                    "event_index"@,
                ) == Some((index + i) as u64) && index + i < u64::MAX)
        }),
{
    let calls = calls_of(steps);
    let ledgers = lemma_run(states, steps);
    let file = states[0].file;
    assert(states.last().file + states.last().pending =~= states.last().file);
    law_rows_stand_in_order(file, ledgers, calls);
    let rows = text_lines(states.last().file);
    let first = text_lines(file).len();
    assert(rows.take(first as int) =~= text_lines(file));
    assert forall|i: int| 0 <= i < calls.len() implies (#[trigger] calls[i]).line() == rows[first
        + i] + seq!['\n'] && (parsed_json(rows[first + i]) matches Ok(row) && u64_field(
        row,
        "event_index"@,
    ) == Some((states[0].ledger.counters().next_event_index + i) as u64)
        && states[0].ledger.counters().next_event_index + i < u64::MAX) by {
        law_events_are_numbered(ledgers, calls, i);
        assert(rows[first + i] == row_text(ledgers, calls, i));
    }
}

/// Only the holder of the permit has a line half written.
pub proof fn law_free_permit_means_whole_lines(
    states: Seq<Writing>,
    steps: Seq<WriterStep>,
)
    requires
        is_run(states, steps),
        states[0].holder is None ==> states[0].pending.len() == 0,
    ensures
        states.last().holder is None ==> states.last().pending.len() == 0,
    decreases steps.len(),
{
    if steps.len() > 0 {
        let n = steps.len() - 1;
        let fewer = steps.drop_last();
        let earlier = states.drop_last();
        assert forall|i: int| 0 <= i < fewer.len() implies moves(
            earlier[i],
            #[trigger] fewer[i],
            earlier[i + 1],
        ) by {
            assert(fewer[i] == steps[i]);
        }
        law_free_permit_means_whole_lines(earlier, fewer);
        assert(moves(states[n], steps[n], states[n + 1]));
    }
}

} // verus!
