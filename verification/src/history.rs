//! What holds of a ledger over any number of calls on it.

use vstd::prelude::*;

use crate::config::ContextPolicyConfig;
use crate::error::{data_error, ErrorView, PolicyError};
use crate::event::{event_id, event_record, logical_id, DescriptorView, HandleView, IdentityView};
use crate::json::{json_text, parsed_json, u64_field, JsonView};
use crate::ledger::{
    begins_request, config_identity, opened, records_event, writes_event, RawRequestLedger,
};
use crate::resume::{
    conflict, continues, follows, holds_event, law_event_follows, law_new_ledger_starts_at_zero,
    law_requests_have_different_ids, law_resuming_continues, law_second_event_cannot_be_resumed,
    law_written_row_tells_its_place, stands_behind,
};
use crate::scan::scan_outcome;
use crate::text::{lemma_append_line, text_lines, whole_lines};

verus! {

/// One call on a ledger, with what it gave.
pub enum LedgerCall {
    /// A request was begun.
    Begin { descriptor: DescriptorView, handle: HandleView, line: Seq<char> },
    /// Another event of a request was recorded.
    Record {
        handle: HandleView,
        event: Seq<char>,
        suffix: Seq<char>,
        fields: JsonView,
        line: Seq<char>,
    },
}

impl LedgerCall {
    /// The request that the call is about.
    pub open spec fn handle(self) -> HandleView {
        match self {
            LedgerCall::Begin { handle, .. } => handle,
            LedgerCall::Record { handle, .. } => handle,
        }
    }

    /// The line that the call gave.
    pub open spec fn line(self) -> Seq<char> {
        match self {
            LedgerCall::Begin { line, .. } => line,
            LedgerCall::Record { line, .. } => line,
        }
    }

    /// The event that the call recorded.
    pub open spec fn event(self) -> Seq<char> {
        match self {
            LedgerCall::Begin { .. } => "request_started"@,
            LedgerCall::Record { event, .. } => event,
        }
    }

    /// The suffix of the id of the event.
    pub open spec fn suffix(self) -> Seq<char> {
        match self {
            LedgerCall::Begin { .. } => "start"@,
            LedgerCall::Record { suffix, .. } => suffix,
        }
    }

    /// The fields of the event.
    pub open spec fn fields(self) -> JsonView {
        match self {
            LedgerCall::Begin { .. } => JsonView::Null,
            LedgerCall::Record { fields, .. } => fields,
        }
    }

    /// The id of the event.
    pub open spec fn id(self) -> Seq<char> {
        event_id(self.handle().logical_request_id, self.suffix())
    }

    /// The record of the event, under the given index.
    pub open spec fn record(self, identity: IdentityView, event_index: u64) -> JsonView {
        event_record(
            identity,
            event_index,
            self.handle(),
            self.event(),
            self.suffix(),
            self.fields(),
        )
    }
}

/// Whether a handle is that of a request that the ledger has begun, or that was begun
/// in the evidence that the ledger continues.
pub open spec fn has_begun(ledger: RawRequestLedger, handle: HandleView) -> bool {
    &&& handle.request_index < ledger.counters().next_request_index
    &&& handle.logical_request_id == logical_id(
        ledger.identity().run_id,
        handle.request_index as nat,
    )
}

/// Whether a call leads from one state of a ledger to another.
pub open spec fn leads(
    before: RawRequestLedger,
    call: LedgerCall,
    after: RawRequestLedger,
) -> bool {
    match call {
        LedgerCall::Begin { descriptor, handle, line } => begins_request(
            line,
            before,
            after,
            descriptor,
            handle,
        ),
        LedgerCall::Record { handle, event, suffix, fields, line } => has_begun(before, handle)
            && records_event(line, before, after, handle, event, suffix, fields),
    }
}

/// Whether calls on one ledger lead it through these states, from the first to the
/// last. Nothing is said of whether the lines were written.
pub open spec fn is_history(states: Seq<RawRequestLedger>, calls: Seq<LedgerCall>) -> bool {
    &&& states.len() == calls.len() + 1
    &&& forall|i: int|
        0 <= i < calls.len() ==> leads(states[i], #[trigger] calls[i], states[i + 1])
}

/// How many requests the calls begin.
pub open spec fn begun(calls: Seq<LedgerCall>) -> nat
    decreases calls.len(),
{
    if calls.len() == 0 {
        0
    } else if calls.last() is Begin {
        begun(calls.drop_last()) + 1
    } else {
        begun(calls.drop_last())
    }
}

/// The lines that the calls gave, one behind the other.
pub open spec fn written(calls: Seq<LedgerCall>) -> Seq<char>
    decreases calls.len(),
{
    if calls.len() == 0 {
        Seq::empty()
    } else {
        written(calls.drop_last()) + calls.last().line()
    }
}

/// The first calls of a history are a history.
proof fn lemma_shorter(states: Seq<RawRequestLedger>, calls: Seq<LedgerCall>)
    requires
        is_history(states, calls),
        calls.len() > 0,
    ensures
        is_history(states.drop_last(), calls.drop_last()),
        leads(states.drop_last().last(), calls.last(), states.last()),
        states.drop_last()[0] == states[0],
{
    let fewer = calls.drop_last();
    assert forall|i: int| 0 <= i < fewer.len() implies leads(
        states.drop_last()[i],
        #[trigger] fewer[i],
        states.drop_last()[i + 1],
    ) by {
        assert(fewer[i] == calls[i]);
    }
    assert(leads(states[calls.len() - 1], calls[calls.len() - 1], states[calls.len() as int]));
}

/// Where the calls leave a ledger: the run stays, each call uses up one event index,
/// and only beginning a request uses up a request index.
pub proof fn law_calls_move_the_indices(states: Seq<RawRequestLedger>, calls: Seq<LedgerCall>)
    requires
        is_history(states, calls),
    ensures
        states.last().identity() == states[0].identity(),
        states.last().path() == states[0].path(),
        states.last().counters().next_event_index == states[0].counters().next_event_index
            + calls.len(),
        states.last().counters().next_request_index == states[0].counters().next_request_index
            + begun(calls),
    decreases calls.len(),
{
    if calls.len() > 0 {
        lemma_shorter(states, calls);
        law_calls_move_the_indices(states.drop_last(), calls.drop_last());
    }
}

/// The first calls, and the states that they lead through.
proof fn lemma_prefix(states: Seq<RawRequestLedger>, calls: Seq<LedgerCall>, n: int)
    requires
        is_history(states, calls),
        0 <= n <= calls.len(),
    ensures
        is_history(states.take(n + 1), calls.take(n)),
        states.take(n + 1).last() == states[n],
        states.take(n + 1)[0] == states[0],
{
    let first = calls.take(n);
    assert forall|i: int| 0 <= i < first.len() implies leads(
        states.take(n + 1)[i],
        #[trigger] first[i],
        states.take(n + 1)[i + 1],
    ) by {
        assert(first[i] == calls[i]);
    }
}

/// A request that is begun gets the first request index of the ledger plus the number
/// of requests begun before it, whatever other events come between, and the id with
/// that index. One row is given for it, which says that it started.
pub proof fn law_requests_are_numbered(
    states: Seq<RawRequestLedger>,
    calls: Seq<LedgerCall>,
    i: int,
)
    requires
        is_history(states, calls),
        0 <= i < calls.len(),
        calls[i] is Begin,
    ensures
        ({
            let handle = calls[i].handle();
            let run_id = states[0].identity().run_id;
            let k = states[0].counters().next_request_index + begun(calls.take(i));
            &&& handle.request_index == k
            &&& handle.logical_request_id == logical_id(run_id, k as nat)
            &&& calls[i].id() == event_id(logical_id(run_id, k as nat), "start"@)
            &&& writes_event(
                calls[i].line(),
                states[i],
                states[i + 1],
                handle,
                "request_started"@,
                "start"@,
                JsonView::Null,
            )
        }),
{
    lemma_prefix(states, calls, i);
    law_calls_move_the_indices(states.take(i + 1), calls.take(i));
    assert(leads(states[i], calls[i], states[i + 1]));
}

/// On a ledger that did not exist before, the request that is begun after `k` others
/// has the index `k` and the id with that index.
pub proof fn law_new_ledger_numbers_from_zero(
    config: ContextPolicyConfig,
    states: Seq<RawRequestLedger>,
    calls: Seq<LedgerCall>,
    i: int,
)
    requires
        config_identity(config) matches Ok(Some(_)),
        is_history(states, calls),
        opened(Ok(Some(states[0])), config, None),
        0 <= i < calls.len(),
        calls[i] is Begin,
    ensures
        calls[i].handle().request_index == begun(calls.take(i)),
        calls[i].handle().logical_request_id == logical_id(
            states[0].identity().run_id,
            begun(calls.take(i)),
        ),
{
    law_new_ledger_starts_at_zero(config, None, states[0]);
    law_requests_are_numbered(states, calls, i);
}

/// More calls begin no fewer requests.
proof fn lemma_begun_grows(calls: Seq<LedgerCall>, i: int, j: int)
    requires
        0 <= i < j <= calls.len(),
        calls[i] is Begin,
    ensures
        begun(calls.take(i)) + 1 <= begun(calls.take(j)),
        (forall|k: int| i < k < j ==> !((#[trigger] calls[k]) is Begin)) ==> begun(calls.take(j))
            == begun(calls.take(i)) + 1,
    decreases j - i,
{
    assert(calls.take(j).drop_last() =~= calls.take(j - 1));
    assert(calls.take(j).last() == calls[j - 1]);
    if j > i + 1 {
        lemma_begun_grows(calls, i, j - 1);
    }
}

/// A request index that was given out is not given out again, whether or not its line
/// was ever written: a later request has a larger index and another id, and the next
/// one the next index.
pub proof fn law_request_index_is_given_out_once(
    states: Seq<RawRequestLedger>,
    calls: Seq<LedgerCall>,
    i: int,
    j: int,
)
    requires
        is_history(states, calls),
        0 <= i < j < calls.len(),
        calls[i] is Begin,
        calls[j] is Begin,
    ensures
        calls[i].handle().request_index < calls[j].handle().request_index,
        calls[i].handle().logical_request_id != calls[j].handle().logical_request_id,
        (forall|k: int| i < k < j ==> !((#[trigger] calls[k]) is Begin))
            ==> calls[j].handle().request_index == calls[i].handle().request_index + 1,
{
    law_requests_are_numbered(states, calls, i);
    law_requests_are_numbered(states, calls, j);
    lemma_begun_grows(calls, i, j);
    let run_id = states[0].identity().run_id;
    let a = calls[i].handle().request_index as nat;
    let b = calls[j].handle().request_index as nat;
    if logical_id(run_id, a) == logical_id(run_id, b) {
        law_requests_have_different_ids(run_id, a, b);
    }
}

/// The events of a ledger have consecutive indices, from where it was opened: the
/// line of the call after `i` others holds the event with the index that is `i` past
/// the first.
pub proof fn law_events_are_numbered(states: Seq<RawRequestLedger>, calls: Seq<LedgerCall>, i: int)
    requires
        is_history(states, calls),
        0 <= i < calls.len(),
    ensures
        ({
            let index = states[0].counters().next_event_index + i;
            let record = calls[i].record(states[0].identity(), index as u64);
            &&& index < u64::MAX
            &&& calls[i].line() == json_text(record) + seq!['\n']
            &&& !json_text(record).contains('\n')
            &&& !json_text(record).contains('\r')
            &&& parsed_json(json_text(record)) matches Ok(row)
            &&& u64_field(row, "event_index"@) == Some(index as u64)
            &&& u64_field(row, "request_index"@) == Some(calls[i].handle().request_index)
        }),
{
    lemma_prefix(states, calls, i);
    law_calls_move_the_indices(states.take(i + 1), calls.take(i));
    assert(leads(states[i], calls[i], states[i + 1]));
    law_written_row_tells_its_place(
        calls[i].line(),
        states[i],
        states[i + 1],
        calls[i].handle(),
        calls[i].event(),
        calls[i].suffix(),
        calls[i].fields(),
    );
    let index = states[0].counters().next_event_index + i;
    assert(calls.take(i).len() == i);
    assert(states[i].counters().next_event_index == index);
    let record = calls[i].record(states[0].identity(), index as u64);
    assert(calls[i].line() == json_text(record) + seq!['\n']);
    assert(calls[i].line().drop_last() =~= json_text(record));
}

/// The text of the row that the call after `i` others gave.
pub open spec fn row_text(states: Seq<RawRequestLedger>, calls: Seq<LedgerCall>, i: int) -> Seq<
    char,
> {
    json_text(
        calls[i].record(
            states[0].identity(),
            (states[0].counters().next_event_index + i) as u64,
        ),
    )
}

/// Where the lines of the calls are written in their order behind whole lines, each
/// call has added one line, in that order, and the lines before stay. The calls may
/// come from any number of callers, in whatever order these got to the ledger.
pub proof fn law_rows_stand_in_order(
    content: Seq<char>,
    states: Seq<RawRequestLedger>,
    calls: Seq<LedgerCall>,
)
    requires
        whole_lines(content),
        is_history(states, calls),
    ensures
        whole_lines(content + written(calls)),
        text_lines(content + written(calls)) == text_lines(content) + Seq::new(
            calls.len(),
            |i: int| row_text(states, calls, i),
        ),
    decreases calls.len(),
{
    let rows = Seq::new(calls.len(), |i: int| row_text(states, calls, i));
    if calls.len() == 0 {
        assert(content + written(calls) =~= content);
        assert(text_lines(content) + rows =~= text_lines(content));
    } else {
        let fewer = calls.drop_last();
        let last = calls.len() - 1;
        lemma_shorter(states, calls);
        law_rows_stand_in_order(content, states.drop_last(), fewer);
        law_events_are_numbered(states, calls, last);
        let text = row_text(states, calls, last);
        let before = content + written(fewer);
        assert(content + written(calls) =~= before + text + seq!['\n']);
        lemma_append_line(before, text);
        let fewer_rows = Seq::new(fewer.len(), |i: int| row_text(states.drop_last(), fewer, i));
        assert forall|i: int| 0 <= i < fewer.len() implies #[trigger] fewer_rows[i] == rows[i] by {
            assert(fewer[i] == calls[i]);
        }
        assert(fewer_rows.push(text) =~= rows);
        assert(text_lines(content + written(calls)) =~= text_lines(content) + rows);
    }
}

/// Whether the calls record no event that the text before holds, and none twice.
pub open spec fn no_event_twice(
    ledger: RawRequestLedger,
    content: Seq<char>,
    calls: Seq<LedgerCall>,
) -> bool {
    &&& forall|i: int|
        0 <= i < calls.len() ==> !holds_event(ledger, content, (#[trigger] calls[i]).id())
    &&& forall|i: int, j: int|
        0 <= i < j < calls.len() ==> (#[trigger] calls[i]).id() != (#[trigger] calls[j]).id()
}

/// Whether a text holds the events of the text before and those of the calls, and no
/// other.
spec fn holds_what_was_written(
    content: Seq<char>,
    states: Seq<RawRequestLedger>,
    calls: Seq<LedgerCall>,
) -> bool {
    forall|id: Seq<char>| #[trigger]
        holds_event(states.last(), content + written(calls), id) <==> holds_event(
            states[0],
            content,
            id,
        ) || exists|i: int| 0 <= i < calls.len() && (#[trigger] calls[i]).id() == id
}

/// A further call whose event is new leaves a ledger that continues its text.
proof fn lemma_step_continues(
    content: Seq<char>,
    states: Seq<RawRequestLedger>,
    calls: Seq<LedgerCall>,
)
    requires
        is_history(states, calls),
        calls.len() > 0,
        continues(states.drop_last().last(), content + written(calls.drop_last())),
        holds_what_was_written(content, states.drop_last(), calls.drop_last()),
        !holds_event(
            states.drop_last().last(),
            content + written(calls.drop_last()),
            calls.last().id(),
        ),
    ensures
        continues(states.last(), content + written(calls)),
        stands_behind(states.drop_last().last(), content + written(calls.drop_last()))
            ==> stands_behind(states.last(), content + written(calls)),
        holds_what_was_written(content, states, calls),
{
    let fewer = calls.drop_last();
    let last = calls.len() - 1;
    let before = states.drop_last().last();
    let after = states.last();
    let text = content + written(fewer);
    lemma_shorter(states, calls);
    law_resuming_continues(
        text,
        calls.last().line(),
        before,
        after,
        calls.last().handle(),
        calls.last().event(),
        calls.last().suffix(),
        calls.last().fields(),
    );
    assert(content + written(calls) =~= text + calls.last().line());
    assert forall|id: Seq<char>| #[trigger]
        holds_event(after, content + written(calls), id) <==> holds_event(
            states[0],
            content,
            id,
        ) || exists|i: int| 0 <= i < calls.len() && (#[trigger] calls[i]).id() == id by {
        let held = holds_event(before, text, id);
        if held && !holds_event(states[0], content, id) {
            let i = choose|i: int| 0 <= i < fewer.len() && (#[trigger] fewer[i]).id() == id;
            assert(calls[i].id() == id);
        }
        if id == calls.last().id() {
            assert(calls[last].id() == id);
        }
        if exists|i: int| 0 <= i < calls.len() && (#[trigger] calls[i]).id() == id {
            let i = choose|i: int| 0 <= i < calls.len() && (#[trigger] calls[i]).id() == id;
            if i < last {
                assert(fewer[i].id() == id);
            }
        }
    }
}

/// Where no event is recorded twice, the ledger continues the text after any number of
/// calls. So opening that text continues at the indices where the calls left off. A
/// text of the ledger's own stays one.
pub proof fn law_history_can_be_resumed(
    content: Seq<char>,
    states: Seq<RawRequestLedger>,
    calls: Seq<LedgerCall>,
)
    requires
        continues(states[0], content),
        is_history(states, calls),
        no_event_twice(states[0], content, calls),
    ensures
        continues(states.last(), content + written(calls)),
        stands_behind(states[0], content) ==> stands_behind(
            states.last(),
            content + written(calls),
        ),
        forall|id: Seq<char>| #[trigger]
            holds_event(states.last(), content + written(calls), id) <==> holds_event(
                states[0],
                content,
                id,
            ) || exists|i: int| 0 <= i < calls.len() && (#[trigger] calls[i]).id() == id,
    decreases calls.len(),
{
    if calls.len() == 0 {
        assert(content + written(calls) =~= content);
    } else {
        let fewer = calls.drop_last();
        lemma_shorter(states, calls);
        assert(forall|i: int| 0 <= i < fewer.len() ==> #[trigger] fewer[i] == calls[i]);
        assert(no_event_twice(states[0], content, fewer));
        law_history_can_be_resumed(content, states.drop_last(), fewer);
        let last = calls.len() - 1;
        assert(calls.last() == calls[last]);
        lemma_step_continues(content, states, calls);
    }
}

/// The calls whose lines were written, where `wrote` says of each call whether its
/// line was.
pub open spec fn recorded(calls: Seq<LedgerCall>, wrote: Seq<bool>) -> Seq<LedgerCall>
    decreases calls.len(),
{
    if calls.len() == 0 {
        Seq::empty()
    } else if wrote.last() {
        recorded(calls.drop_last(), wrote.drop_last()).push(calls.last())
    } else {
        recorded(calls.drop_last(), wrote.drop_last())
    }
}

/// What a call writes, whether it begins a request or not.
proof fn lemma_writes(before: RawRequestLedger, call: LedgerCall, after: RawRequestLedger)
    requires
        leads(before, call, after),
    ensures
        writes_event(
            call.line(),
            before,
            after,
            call.handle(),
            call.event(),
            call.suffix(),
            call.fields(),
        ),
        call.handle().request_index < u64::MAX,
{
}

/// Where a call is recorded, it stands behind those recorded before it.
proof fn lemma_recorded_last(calls: Seq<LedgerCall>, wrote: Seq<bool>)
    requires
        calls.len() > 0,
        wrote.len() == calls.len(),
        wrote.last(),
    ensures
        recorded(calls, wrote).drop_last() == recorded(calls.drop_last(), wrote.drop_last()),
        recorded(calls, wrote).last() == calls.last(),
        written(recorded(calls, wrote)) == written(
            recorded(calls.drop_last(), wrote.drop_last()),
        ) + calls.last().line(),
{
    let kept = recorded(calls.drop_last(), wrote.drop_last());
    assert(recorded(calls, wrote).drop_last() =~= kept);
}

/// Fewer events hold none twice, where more do not.
proof fn lemma_fewer_not_twice(
    ledger: RawRequestLedger,
    content: Seq<char>,
    kept: Seq<LedgerCall>,
    call: LedgerCall,
)
    ensures
        no_event_twice(ledger, content, kept.push(call)) <==> {
            &&& no_event_twice(ledger, content, kept)
            &&& !holds_event(ledger, content, call.id())
            &&& forall|i: int| 0 <= i < kept.len() ==> (#[trigger] kept[i]).id() != call.id()
        },
{
    let more = kept.push(call);
    let last = kept.len() as int;
    assert(more[last] == call);
    assert(forall|i: int| 0 <= i < kept.len() ==> #[trigger] kept[i] == more[i]);
    if no_event_twice(ledger, content, more) {
        assert forall|i: int| 0 <= i < kept.len() implies (#[trigger] kept[i]).id()
            != call.id() by {
            assert(more[i].id() != more[last].id());
        }
        assert forall|i: int| 0 <= i < kept.len() implies !holds_event(
            ledger,
            content,
            (#[trigger] kept[i]).id(),
        ) by {
            assert(more[i] == kept[i]);
        }
        assert forall|i: int, j: int| 0 <= i < j < kept.len() implies (#[trigger] kept[i]).id() != (
        #[trigger] kept[j]).id() by {
            assert(more[i].id() != more[j].id());
        }
    } else if no_event_twice(ledger, content, kept) && !holds_event(ledger, content, call.id()) && (
    forall|i: int| 0 <= i < kept.len() ==> (#[trigger] kept[i]).id() != call.id()) {
        assert forall|i: int| 0 <= i < more.len() implies !holds_event(
            ledger,
            content,
            (#[trigger] more[i]).id(),
        ) by {
            if i < last {
                assert(more[i] == kept[i]);
            }
        }
        assert forall|i: int, j: int| 0 <= i < j < more.len() implies (#[trigger] more[i]).id() != (
        #[trigger] more[j]).id() by {
            assert(more[i] == kept[i]);
            if j < last {
                assert(more[j] == kept[j]);
            }
        }
    }
}

/// Where no event is recorded twice, the text after the calls is accepted, and the
/// ledger can write on behind it, whichever lines were lost. The text holds the events
/// of the text before and those that were recorded, and no other.
pub proof fn law_recorded_history_is_accepted(
    content: Seq<char>,
    states: Seq<RawRequestLedger>,
    calls: Seq<LedgerCall>,
    wrote: Seq<bool>,
)
    requires
        follows(states[0], content),
        is_history(states, calls),
        wrote.len() == calls.len(),
        no_event_twice(states[0], content, recorded(calls, wrote)),
    ensures
        follows(states.last(), content + written(recorded(calls, wrote))),
        forall|id: Seq<char>| #[trigger]
            holds_event(states.last(), content + written(recorded(calls, wrote)), id)
                <==> holds_event(states[0], content, id) || exists|i: int|
                0 <= i < recorded(calls, wrote).len() && (#[trigger] recorded(
                    calls,
                    wrote,
                )[i]).id() == id,
    decreases calls.len(),
{
    let all = recorded(calls, wrote);
    if calls.len() == 0 {
        assert(content + written(all) =~= content);
    } else {
        let fewer = calls.drop_last();
        let kept = recorded(fewer, wrote.drop_last());
        let before = states.drop_last().last();
        let after = states.last();
        let call = calls.last();
        lemma_shorter(states, calls);
        lemma_writes(before, call, after);
        if wrote.last() {
            lemma_recorded_last(calls, wrote);
            lemma_fewer_not_twice(states[0], content, kept, call);
            assert(all =~= kept.push(call));
            law_recorded_history_is_accepted(
                content,
                states.drop_last(),
                fewer,
                wrote.drop_last(),
            );
            let text = content + written(kept);
            assert(content + written(all) =~= text + call.line());
            law_event_follows(
                text,
                call.line(),
                before,
                after,
                call.handle(),
                call.event(),
                call.suffix(),
                call.fields(),
            );
            assert forall|id: Seq<char>| #[trigger]
                holds_event(after, content + written(all), id) <==> holds_event(
                    states[0],
                    content,
                    id,
                ) || exists|i: int| 0 <= i < all.len() && (#[trigger] all[i]).id() == id by {
                if exists|i: int| 0 <= i < kept.len() && (#[trigger] kept[i]).id() == id {
                    let i = choose|i: int| 0 <= i < kept.len() && (#[trigger] kept[i]).id() == id;
                    assert(all[i].id() == id);
                }
                if id == call.id() {
                    assert(all[kept.len() as int].id() == id);
                }
                if exists|i: int| 0 <= i < all.len() && (#[trigger] all[i]).id() == id {
                    let i = choose|i: int| 0 <= i < all.len() && (#[trigger] all[i]).id() == id;
                    if i < kept.len() {
                        assert(kept[i].id() == id);
                    }
                }
            }
        } else {
            law_recorded_history_is_accepted(
                content,
                states.drop_last(),
                fewer,
                wrote.drop_last(),
            );
            assert forall|id: Seq<char>| #[trigger]
                holds_event(after, content + written(all), id) == holds_event(
                    before,
                    content + written(all),
                    id,
                ) by {}
        }
    }
}

/// Where some event is recorded twice, the text after the calls cannot be resumed:
/// opening it is refused as a conflicting duplicate, whichever other lines were lost
/// and whatever is written behind it. So it is with two ends of one request, and with
/// two starts of one attempt.
pub proof fn law_event_recorded_twice_cannot_be_resumed(
    config: ContextPolicyConfig,
    content: Seq<char>,
    states: Seq<RawRequestLedger>,
    calls: Seq<LedgerCall>,
    wrote: Seq<bool>,
    more: Seq<char>,
    r: Result<Option<RawRequestLedger>, PolicyError>,
)
    requires
        follows(states[0], content),
        is_history(states, calls),
        wrote.len() == calls.len(),
        !no_event_twice(states[0], content, recorded(calls, wrote)),
        config_identity(config) == Ok::<Option<IdentityView>, ErrorView>(
            Some(states[0].identity()),
        ),
        opened(r, config, Some(content + written(recorded(calls, wrote)) + more)),
    ensures
        scan_outcome(
            Some(content + written(recorded(calls, wrote)) + more),
            states[0].identity(),
        ) == conflict(),
        r matches Err(error) && error@ == data_error(
            "request ledger contains a conflicting duplicate event_id"@,
        ),
    decreases calls.len(),
{
    if calls.len() > 0 {
        let fewer = calls.drop_last();
        let kept = recorded(fewer, wrote.drop_last());
        let call = calls.last();
        let text = content + written(kept);
        lemma_shorter(states, calls);
        law_calls_move_the_indices(states.drop_last(), fewer);
        if !wrote.last() {
            law_event_recorded_twice_cannot_be_resumed(
                config,
                content,
                states.drop_last(),
                fewer,
                wrote.drop_last(),
                more,
                r,
            );
        } else {
            lemma_recorded_last(calls, wrote);
            assert(content + written(recorded(calls, wrote)) + more =~= text + call.line() + more);
            if !no_event_twice(states[0], content, kept) {
                assert(text + call.line() + more =~= text + (call.line() + more));
                law_event_recorded_twice_cannot_be_resumed(
                    config,
                    content,
                    states.drop_last(),
                    fewer,
                    wrote.drop_last(),
                    call.line() + more,
                    r,
                );
            } else {
                let before = states.drop_last().last();
                law_recorded_history_is_accepted(
                    content,
                    states.drop_last(),
                    fewer,
                    wrote.drop_last(),
                );
                lemma_fewer_not_twice(states[0], content, kept, call);
                assert(recorded(calls, wrote) =~= kept.push(call));
                assert(holds_event(before, text, call.id()));
                lemma_writes(before, call, states.last());
                law_second_event_cannot_be_resumed(
                    config,
                    text,
                    call.line(),
                    more,
                    before,
                    states.last(),
                    call.handle(),
                    call.event(),
                    call.suffix(),
                    call.fields(),
                    r,
                );
            }
        }
    }
}

} // verus!
