//! What holds of a ledger over its life: what is written to it can be read again,
//! and reading it gives back the place at which writing goes on.

use vstd::prelude::*;

use crate::config::ContextPolicyConfig;
use crate::error::{data_error, ErrorView, PolicyError};
use crate::event::{
    attempt_suffix, base_entries, event_id, event_record, logical_id, DescriptorView, HandleView,
    IdentityView,
};
use crate::json::{
    alike, field, json_text, parsed_json, reads_back, text_field, u64_field, JsonView,
};
use crate::keys::{apart, law_record_keeps_its_identity};
use crate::ledger::{begins_request, config_identity, opened, writes_event, RawRequestLedger};
use crate::scan::{
    counters_after, frozen_complaint, lemma_stops, lines_outcome, max_index, row_outcome,
    scan_outcome, zero_counters, ScanOutcome, ScanView,
};
use crate::text::{
    decimal_text, digit, lemma_append_line, lemma_decimal_injective, lemma_lines_concat,
    text_lines, whole_lines,
};

verus! {

// ---------------------------------------------------------------------------
// Ids
// ---------------------------------------------------------------------------

/// A decimal digit is no colon.
proof fn lemma_no_colon(n: nat, i: int)
    requires
        0 <= i < decimal_text(n).len(),
    ensures
        decimal_text(n)[i] != ':',
    decreases n,
{
    if n < 10 {
        assert(decimal_text(n)[i] == digit(n));
    } else if i < decimal_text(n / 10).len() {
        lemma_no_colon(n / 10, i);
    } else {
        assert(decimal_text(n)[i] == digit(n % 10));
    }
}

/// A number and what stands behind the colon that follows it can be told from
/// their text.
proof fn lemma_number_then_colon(a: nat, x: Seq<char>, b: nat, y: Seq<char>)
    requires
        decimal_text(a) + ":"@ + x == decimal_text(b) + ":"@ + y,
    ensures
        a == b,
        x == y,
{
    reveal_strlit(":");
    let s = decimal_text(a);
    let t = decimal_text(b);
    let whole = s + ":"@ + x;
    assert(whole[s.len() as int] == ':');
    assert(whole[t.len() as int] == ':');
    if s.len() < t.len() {
        assert(whole[s.len() as int] == t[s.len() as int]);
        lemma_no_colon(b, s.len() as int);
    } else if t.len() < s.len() {
        assert(whole[t.len() as int] == s[t.len() as int]);
        lemma_no_colon(a, t.len() as int);
    }
    assert(s =~= whole.take(s.len() as int));
    assert(t =~= whole.take(s.len() as int));
    lemma_decimal_injective(a, b);
    assert(x =~= whole.skip(s.len() as int + 1));
    assert(y =~= whole.skip(s.len() as int + 1));
}

/// Different requests of a run have different ids.
pub proof fn law_requests_have_different_ids(run_id: Seq<char>, a: nat, b: nat)
    requires
        logical_id(run_id, a) == logical_id(run_id, b),
    ensures
        a == b,
{
    let start = run_id + ":request:"@;
    assert(decimal_text(a) =~= logical_id(run_id, a).skip(start.len() as int));
    assert(decimal_text(b) =~= logical_id(run_id, b).skip(start.len() as int));
    lemma_decimal_injective(a, b);
}

/// An event id tells the request of the run that the event belongs to, and which
/// of its events it is.
pub proof fn law_events_have_different_ids(
    run_id: Seq<char>,
    a: nat,
    x: Seq<char>,
    b: nat,
    y: Seq<char>,
)
    requires
        event_id(logical_id(run_id, a), x) == event_id(logical_id(run_id, b), y),
    ensures
        a == b,
        x == y,
{
    let start = run_id + ":request:"@;
    let left = event_id(logical_id(run_id, a), x);
    let right = event_id(logical_id(run_id, b), y);
    assert(left =~= start + (decimal_text(a) + ":"@ + x));
    assert(right =~= start + (decimal_text(b) + ":"@ + y));
    assert(decimal_text(a) + ":"@ + x =~= left.skip(start.len() as int));
    assert(decimal_text(b) + ":"@ + y =~= right.skip(start.len() as int));
    lemma_number_then_colon(a, x, b, y);
}

/// The suffix of an attempt's event tells the attempt and which of its events it
/// is, and is not that of the first or the last event of a request.
pub proof fn law_attempts_have_different_suffixes(a: u64, x: Seq<char>, b: u64, y: Seq<char>)
    ensures
        attempt_suffix(a, x) == attempt_suffix(b, y) ==> a == b && x == y,
        attempt_suffix(a, x) != "start"@,
        attempt_suffix(a, x) != "terminal"@,
{
    reveal_strlit("attempt:");
    reveal_strlit("start");
    reveal_strlit("terminal");
    let left = attempt_suffix(a, x);
    assert(left[0] == 'a');
    assert("start"@[0] == 's');
    assert("terminal"@[0] == 't');
    if left == attempt_suffix(b, y) {
        let start = "attempt:"@;
        assert(left =~= start + (decimal_text(a as nat) + ":"@ + x));
        assert(attempt_suffix(b, y) =~= start + (decimal_text(b as nat) + ":"@ + y));
        assert(decimal_text(a as nat) + ":"@ + x =~= left.skip(start.len() as int));
        assert(decimal_text(b as nat) + ":"@ + y =~= left.skip(start.len() as int));
        lemma_number_then_colon(a as nat, x, b as nat, y);
    }
}

// ---------------------------------------------------------------------------
// Reading back what was written
// ---------------------------------------------------------------------------

/// A document that is read back from its text has the same texts and integers
/// under the same keys.
proof fn lemma_alike_fields(v: JsonView, w: JsonView, key: Seq<char>)
    requires
        alike(v, w, false),
    ensures
        text_field(w, key) == text_field(v, key),
        u64_field(w, key) == u64_field(v, key),
{
    if let JsonView::Object(x) = v {
        let y = w->Object_0;
        assert(x.dom() == y.dom());
        if x.dom().contains(key) {
            assert(alike(x[key], y[key], false));
        }
    }
}

/// What a row says of its run, its event and its request.
proof fn lemma_record_fields(
    identity: IdentityView,
    event_index: u64,
    handle: HandleView,
    event: Seq<char>,
    suffix: Seq<char>,
    fields: JsonView,
    row: JsonView,
)
    requires
        apart(fields),
        alike(event_record(identity, event_index, handle, event, suffix, fields), row, false),
    ensures
        frozen_complaint(identity, row) is None,
        text_field(row, "event_id"@) == Some(event_id(handle.logical_request_id, suffix)),
        u64_field(row, "event_index"@) == Some(event_index),
        u64_field(row, "request_index"@) == Some(handle.request_index),
{
    let record = event_record(identity, event_index, handle, event, suffix, fields);
    let base = base_entries(identity, event_index, handle, event, suffix);
    law_record_keeps_its_identity(identity, event_index, handle, event, suffix, fields);
    assert(base[0].0 == "schema_version"@ && field(record, base[0].0) == Some(base[0].1));
    assert(base[1].0 == "event_id"@ && field(record, base[1].0) == Some(base[1].1));
    assert(base[2].0 == "event_index"@ && field(record, base[2].0) == Some(base[2].1));
    assert(base[4].0 == "run_id"@ && field(record, base[4].0) == Some(base[4].1));
    assert(base[5].0 == "task_id"@ && field(record, base[5].0) == Some(base[5].1));
    assert(base[6].0 == "replicate_id"@ && field(record, base[6].0) == Some(base[6].1));
    assert(base[7].0 == "arm"@ && field(record, base[7].0) == Some(base[7].1));
    assert(base[9].0 == "request_index"@ && field(record, base[9].0) == Some(base[9].1));
    assert(base[21].0 == "pricing_schedule_id"@ && field(record, base[21].0) == Some(base[21].1));
    lemma_alike_fields(record, row, "schema_version"@);
    lemma_alike_fields(record, row, "event_id"@);
    lemma_alike_fields(record, row, "event_index"@);
    lemma_alike_fields(record, row, "run_id"@);
    lemma_alike_fields(record, row, "task_id"@);
    lemma_alike_fields(record, row, "replicate_id"@);
    lemma_alike_fields(record, row, "arm"@);
    lemma_alike_fields(record, row, "request_index"@);
    lemma_alike_fields(record, row, "pricing_schedule_id"@);
}

/// The line of an event holds a row with the index that the ledger gave it, and with
/// that of its request.
pub proof fn law_written_row_tells_its_place(
    line: Seq<char>,
    before: RawRequestLedger,
    after: RawRequestLedger,
    handle: HandleView,
    event: Seq<char>,
    suffix: Seq<char>,
    fields: JsonView,
)
    requires
        writes_event(line, before, after, handle, event, suffix, fields),
    ensures
        ({
            let text = line.drop_last();
            &&& line == text + seq!['\n']
            &&& parsed_json(text) matches Ok(row)
            &&& frozen_complaint(before.identity(), row) is None
            &&& text_field(row, "event_id"@) == Some(
                event_id(handle.logical_request_id, suffix),
            )
            &&& u64_field(row, "event_index"@) == Some(before.counters().next_event_index)
            &&& u64_field(row, "request_index"@) == Some(handle.request_index)
        }),
{
    let record = event_record(
        before.identity(),
        before.counters().next_event_index,
        handle,
        event,
        suffix,
        fields,
    );
    assert(line.drop_last() =~= json_text(record));
    lemma_record_fields(
        before.identity(),
        before.counters().next_event_index,
        handle,
        event,
        suffix,
        fields,
        parsed_json(json_text(record))->Ok_0,
    );
}

/// A ledger that was accepted is accepted with a further event of the run behind
/// it, where the id of the event is new: the event counts as read, and the
/// counters stand behind it.
pub proof fn law_appended_event_is_accepted(
    content: Seq<char>,
    scan: ScanView,
    identity: IdentityView,
    event_index: u64,
    handle: HandleView,
    event: Seq<char>,
    suffix: Seq<char>,
    fields: JsonView,
)
    requires
        whole_lines(content),
        lines_outcome(text_lines(content), identity) == ScanOutcome::Accepted(scan),
        apart(fields),
        reads_back(event_record(identity, event_index, handle, event, suffix, fields)),
        !scan.events.dom().contains(event_id(handle.logical_request_id, suffix)),
        event_index < u64::MAX,
        handle.request_index < u64::MAX,
    ensures
        ({
            let record = event_record(identity, event_index, handle, event, suffix, fields);
            let longer = content + json_text(record) + seq!['\n'];
            &&& whole_lines(longer)
            &&& lines_outcome(text_lines(longer), identity) matches ScanOutcome::Accepted(next)
            &&& next.counters == counters_after(scan.counters, event_index, handle.request_index)
            &&& next.events.dom() == scan.events.dom().insert(
                event_id(handle.logical_request_id, suffix),
            )
        }),
{
    let record = event_record(identity, event_index, handle, event, suffix, fields);
    let line = json_text(record);
    lemma_append_line(content, line);
    let all = text_lines(content).push(line);
    assert(all.drop_last() =~= text_lines(content));
    let row = parsed_json(line)->Ok_0;
    lemma_record_fields(identity, event_index, handle, event, suffix, fields, row);
    let id = event_id(handle.logical_request_id, suffix);
    let next = lines_outcome(all, identity)->Accepted_0;
    assert(next.events.dom() =~= scan.events.dom().insert(id));
}

/// Whether every event in a ledger belongs to one of the first `n` requests of a
/// run.
pub open spec fn events_of_requests(
    events: Map<Seq<char>, Seq<char>>,
    run_id: Seq<char>,
    n: nat,
) -> bool {
    forall|id: Seq<char>| #[trigger]
        events.dom().contains(id) ==> exists|i: nat, suffix: Seq<char>|
            i < n && id == #[trigger] event_id(logical_id(run_id, i), suffix)
}

/// The id of an event of the next request is new to a ledger that holds events of
/// earlier requests only.
pub proof fn law_next_request_is_new(
    events: Map<Seq<char>, Seq<char>>,
    run_id: Seq<char>,
    n: nat,
    suffix: Seq<char>,
)
    requires
        events_of_requests(events, run_id, n),
    ensures
        !events.dom().contains(event_id(logical_id(run_id, n), suffix)),
{
    let id = event_id(logical_id(run_id, n), suffix);
    if events.dom().contains(id) {
        let (i, other) = choose|i: nat, other: Seq<char>|
            i < n && id == #[trigger] event_id(logical_id(run_id, i), other);
        law_events_have_different_ids(run_id, i, other, n, suffix);
    }
}

/// Whether a ledger continues a text: the text consists of whole lines, it is read
/// without complaint, and the counters behind it are those of the ledger.
pub open spec fn continues(ledger: RawRequestLedger, content: Seq<char>) -> bool {
    &&& whole_lines(content)
    &&& lines_outcome(text_lines(content), ledger.identity()) matches ScanOutcome::Accepted(scan)
    &&& scan.counters == ledger.counters()
}

/// Whether a ledger continues a text of its own: the events in it belong to requests
/// that the ledger has begun.
pub open spec fn stands_behind(ledger: RawRequestLedger, content: Seq<char>) -> bool {
    &&& continues(ledger, content)
    &&& events_of_requests(
        lines_outcome(text_lines(content), ledger.identity())->Accepted_0.events,
        ledger.identity().run_id,
        ledger.counters().next_request_index as nat,
    )
}

/// Whether a text already holds an event of a ledger.
pub open spec fn holds_event(ledger: RawRequestLedger, content: Seq<char>, id: Seq<char>) -> bool {
    lines_outcome(text_lines(content), ledger.identity()) matches ScanOutcome::Accepted(scan)
        && scan.events.dom().contains(id)
}

/// Whether a ledger can write behind a text: the text consists of whole lines, it is
/// read without complaint, and the ledger gives out no event index that stands in it.
/// Nothing is said of which requests its events belong to.
pub open spec fn follows(ledger: RawRequestLedger, content: Seq<char>) -> bool {
    &&& whole_lines(content)
    &&& lines_outcome(text_lines(content), ledger.identity()) matches ScanOutcome::Accepted(scan)
    &&& scan.counters.next_event_index <= ledger.counters().next_event_index
}

/// A ledger that was opened on a text of whole lines, or on none, continues it,
/// whatever events the text holds.
pub proof fn law_opened_ledger_continues(
    config: ContextPolicyConfig,
    content: Option<Seq<char>>,
    text: Seq<char>,
    ledger: RawRequestLedger,
)
    requires
        config_identity(config) matches Ok(Some(_)),
        opened(Ok(Some(ledger)), config, content),
        content == Some(text) || (content is None && text.len() == 0),
        whole_lines(text),
    ensures
        continues(ledger, text),
        follows(ledger, text),
        config_identity(config) == Ok::<Option<IdentityView>, ErrorView>(
            Some(ledger.identity()),
        ),
{
    if content is None {
        assert(text_lines(text) =~= Seq::<Seq<char>>::empty());
    }
}

/// A ledger that can write behind a text can write behind the longer one, after an
/// event that is new to the text. The longer text holds that event and those of the
/// text before, and no other.
pub proof fn law_event_follows(
    content: Seq<char>,
    line: Seq<char>,
    before: RawRequestLedger,
    after: RawRequestLedger,
    handle: HandleView,
    event: Seq<char>,
    suffix: Seq<char>,
    fields: JsonView,
)
    requires
        follows(before, content),
        writes_event(line, before, after, handle, event, suffix, fields),
        handle.request_index < u64::MAX,
        !holds_event(before, content, event_id(handle.logical_request_id, suffix)),
    ensures
        follows(after, content + line),
        forall|id: Seq<char>| #[trigger]
            holds_event(after, content + line, id) <==> holds_event(before, content, id) || id
                == event_id(handle.logical_request_id, suffix),
{
    let identity = before.identity();
    let scan = lines_outcome(text_lines(content), identity)->Accepted_0;
    let event_index = before.counters().next_event_index;
    law_appended_event_is_accepted(
        content,
        scan,
        identity,
        event_index,
        handle,
        event,
        suffix,
        fields,
    );
    let record = event_record(identity, event_index, handle, event, suffix, fields);
    assert(content + line =~= content + json_text(record) + seq!['\n']);
}

/// Writing goes on where reading leaves off. A ledger that continues a text continues
/// the longer text after an event of one of its requests has been written, so that
/// opening the longer text continues at the same indices: no event and no request is
/// lost or counted twice. The longer text holds that event and those of the text
/// before, and no other. A text of the ledger's own stays one.
pub proof fn law_resuming_continues(
    content: Seq<char>,
    line: Seq<char>,
    before: RawRequestLedger,
    after: RawRequestLedger,
    handle: HandleView,
    event: Seq<char>,
    suffix: Seq<char>,
    fields: JsonView,
)
    requires
        continues(before, content),
        writes_event(line, before, after, handle, event, suffix, fields),
        handle.request_index < after.counters().next_request_index,
        after.counters().next_request_index == max_index(
            before.counters().next_request_index,
            (handle.request_index + 1) as u64,
        ),
        !holds_event(before, content, event_id(handle.logical_request_id, suffix)),
    ensures
        continues(after, content + line),
        forall|id: Seq<char>| #[trigger]
            holds_event(after, content + line, id) <==> holds_event(before, content, id) || id
                == event_id(handle.logical_request_id, suffix),
        stands_behind(before, content) && handle.logical_request_id == logical_id(
            before.identity().run_id,
            handle.request_index as nat,
        ) ==> stands_behind(after, content + line),
{
    let identity = before.identity();
    let scan = lines_outcome(text_lines(content), identity)->Accepted_0;
    let event_index = before.counters().next_event_index;
    law_appended_event_is_accepted(
        content,
        scan,
        identity,
        event_index,
        handle,
        event,
        suffix,
        fields,
    );
    let record = event_record(identity, event_index, handle, event, suffix, fields);
    assert(content + line =~= content + json_text(record) + seq!['\n']);
    let next = lines_outcome(text_lines(content + line), identity)->Accepted_0;
    assert(next.counters == after.counters());
    let n = after.counters().next_request_index as nat;
    if stands_behind(before, content) && handle.logical_request_id == logical_id(
        identity.run_id,
        handle.request_index as nat,
    ) {
        assert forall|id: Seq<char>| #[trigger] next.events.dom().contains(id) implies exists|
            i: nat,
            other: Seq<char>,
        | i < n && id == #[trigger] event_id(logical_id(identity.run_id, i), other) by {
            if scan.events.dom().contains(id) {
                let (i, other) = choose|i: nat, other: Seq<char>|
                    i < before.counters().next_request_index as nat && id == #[trigger] event_id(
                        logical_id(identity.run_id, i),
                        other,
                    );
                assert(id == event_id(logical_id(identity.run_id, i), other));
            } else {
                assert(id == event_id(
                    logical_id(identity.run_id, handle.request_index as nat),
                    suffix,
                ));
            }
        }
    }
}

/// Beginning a request keeps a ledger behind a text of its own. The event that it
/// writes is always new.
pub proof fn law_beginning_continues(
    content: Seq<char>,
    line: Seq<char>,
    before: RawRequestLedger,
    after: RawRequestLedger,
    descriptor: DescriptorView,
    handle: HandleView,
)
    requires
        stands_behind(before, content),
        begins_request(line, before, after, descriptor, handle),
    ensures
        !holds_event(before, content, event_id(handle.logical_request_id, "start"@)),
        stands_behind(after, content + line),
        forall|id: Seq<char>| #[trigger]
            holds_event(after, content + line, id) <==> holds_event(before, content, id) || id
                == event_id(handle.logical_request_id, "start"@),
{
    let scan = lines_outcome(text_lines(content), before.identity())->Accepted_0;
    law_next_request_is_new(
        scan.events,
        before.identity().run_id,
        before.counters().next_request_index as nat,
        "start"@,
    );
    law_resuming_continues(
        content,
        line,
        before,
        after,
        handle,
        "request_started"@,
        "start"@,
        JsonView::Null,
    );
}

/// A ledger that has just been made stands behind the empty text, with all its
/// indices at zero and no event, whether the text is missing or empty.
pub proof fn law_new_ledger_starts_at_zero(
    config: ContextPolicyConfig,
    content: Option<Seq<char>>,
    ledger: RawRequestLedger,
)
    requires
        content is None || content == Some(Seq::<char>::empty()),
        config_identity(config) matches Ok(Some(_)),
        opened(Ok(Some(ledger)), config, content),
    ensures
        ledger.counters() == zero_counters(),
        stands_behind(ledger, Seq::empty()),
        forall|id: Seq<char>| !#[trigger] holds_event(ledger, Seq::empty(), id),
{
    let nothing = Seq::<char>::empty();
    assert(text_lines(nothing) =~= Seq::<Seq<char>>::empty());
}

/// A ledger opened on a text that another continued goes on where that one was.
pub proof fn law_reopening_continues(
    config: ContextPolicyConfig,
    content: Seq<char>,
    earlier: RawRequestLedger,
    ledger: RawRequestLedger,
)
    requires
        continues(earlier, content),
        config_identity(config) == Ok::<Option<IdentityView>, ErrorView>(
            Some(earlier.identity()),
        ),
        opened(Ok(Some(ledger)), config, Some(content)),
    ensures
        ledger.identity() == earlier.identity(),
        ledger.counters() == earlier.counters(),
        continues(ledger, content),
        stands_behind(earlier, content) ==> stands_behind(ledger, content),
{
}

// ---------------------------------------------------------------------------
// What an accepted ledger holds
// ---------------------------------------------------------------------------

/// Where lines are accepted, the first of them are.
proof fn lemma_prefix_accepted(all: Seq<Seq<char>>, identity: IdentityView, n: int)
    requires
        0 <= n <= all.len(),
        lines_outcome(all, identity) is Accepted,
    ensures
        lines_outcome(all.take(n), identity) is Accepted,
        lines_outcome(all.take(n), identity)->Accepted_0.counters.next_event_index
            <= lines_outcome(all, identity)->Accepted_0.counters.next_event_index,
        lines_outcome(all.take(n), identity)->Accepted_0.counters.next_request_index
            <= lines_outcome(all, identity)->Accepted_0.counters.next_request_index,
    decreases all.len(),
{
    if n == all.len() {
        assert(all.take(n) =~= all);
    } else {
        lemma_prefix_accepted(all.drop_last(), identity, n);
        assert(all.drop_last().take(n) =~= all.take(n));
    }
}

/// Every row of an accepted ledger is JSON, repeats what is frozen for the run,
/// and stands before the counters: an index that is given out next has not been
/// used.
pub proof fn law_accepted_rows_belong_to_the_run(
    all: Seq<Seq<char>>,
    identity: IdentityView,
    i: int,
)
    requires
        lines_outcome(all, identity) is Accepted,
        0 <= i < all.len(),
    ensures
        ({
            let counters = lines_outcome(all, identity)->Accepted_0.counters;
            &&& parsed_json(all[i]) matches Ok(row)
            &&& frozen_complaint(identity, row) is None
            &&& text_field(row, "event_id"@) is Some
            &&& u64_field(row, "event_index"@) matches Some(event_index)
            &&& u64_field(row, "request_index"@) matches Some(request_index)
            &&& event_index < counters.next_event_index
            &&& request_index < counters.next_request_index
        }),
{
    lemma_prefix_accepted(all, identity, i + 1);
    assert(all.take(i + 1).drop_last() =~= all.take(i));
    assert(all.take(i + 1).last() == all[i]);
}

/// A ledger that holds evidence is continued by one run only: under any other
/// identity it is refused.
pub proof fn law_other_run_is_refused(all: Seq<Seq<char>>, a: IdentityView, b: IdentityView)
    requires
        all.len() > 0,
        lines_outcome(all, a) is Accepted,
        a != b,
    ensures
        lines_outcome(all, b) is Rejected,
{
    law_accepted_rows_belong_to_the_run(all, a, 0);
    let first = all.take(1);
    assert(first.drop_last() =~= Seq::<Seq<char>>::empty());
    assert(first.last() == all[0]);
    let row = parsed_json(all[0])->Ok_0;
    if frozen_complaint(b, row) is None {
        assert(a.run_id == b.run_id && a.task_id == b.task_id);
        assert(a.replicate_id == b.replicate_id && a.arm == b.arm);
        assert(a.pricing_schedule_id == b.pricing_schedule_id);
    }
    assert(lines_outcome(first.drop_last(), b) is Accepted);
    assert(lines_outcome(first, b) is Rejected);
    lemma_stops(all, b, 1);
}

/// The row in a line, where the line holds one.
pub open spec fn row_of(line: Seq<char>) -> JsonView {
    parsed_json(line)->Ok_0
}

/// The id of the event in a line, where there is one.
pub open spec fn id_of(line: Seq<char>) -> Option<Seq<char>> {
    text_field(row_of(line), "event_id"@)
}

/// The index of the event in a line.
pub open spec fn event_index_of(line: Seq<char>) -> u64 {
    u64_field(row_of(line), "event_index"@)->0
}

/// The index of the request in a line.
pub open spec fn request_index_of(line: Seq<char>) -> u64 {
    u64_field(row_of(line), "request_index"@)->0
}

/// Whether a line holds a row of the run: JSON that repeats what is frozen, with an
/// event id and with indices behind which others can follow.
pub open spec fn valid_row(line: Seq<char>, identity: IdentityView) -> bool {
    &&& parsed_json(line) is Ok
    &&& frozen_complaint(identity, row_of(line)) is None
    &&& id_of(line) is Some
    &&& u64_field(row_of(line), "event_index"@) is Some
    &&& u64_field(row_of(line), "request_index"@) is Some
    &&& event_index_of(line) < u64::MAX
    &&& request_index_of(line) < u64::MAX
}

/// Whether lines with one event id have one text when they are written again.
pub open spec fn one_text_per_event(all: Seq<Seq<char>>) -> bool {
    forall|i: int, j: int|
        #![trigger all[i], all[j]]
        0 <= i < all.len() && 0 <= j < all.len() && id_of(all[i]) == id_of(all[j]) ==> json_text(
            row_of(all[i]),
        ) == json_text(row_of(all[j]))
}

/// What has been read of a row stays.
proof fn lemma_row_stays(all: Seq<Seq<char>>, identity: IdentityView, i: int)
    requires
        lines_outcome(all, identity) is Accepted,
        0 <= i < all.len(),
    ensures
        valid_row(all[i], identity),
        lines_outcome(all, identity)->Accepted_0.events.dom().contains(id_of(all[i])->0),
        lines_outcome(all, identity)->Accepted_0.events[id_of(all[i])->0] == json_text(
            row_of(all[i]),
        ),
    decreases all.len(),
{
    if i < all.len() - 1 {
        lemma_row_stays(all.drop_last(), identity, i);
        assert(all.drop_last()[i] == all[i]);
    }
}

/// What has been read stands in some row.
proof fn lemma_event_has_row(all: Seq<Seq<char>>, identity: IdentityView, id: Seq<char>) -> (i: int)
    requires
        lines_outcome(all, identity) is Accepted,
        lines_outcome(all, identity)->Accepted_0.events.dom().contains(id),
    ensures
        0 <= i < all.len(),
        id_of(all[i]) == Some(id),
        lines_outcome(all, identity)->Accepted_0.events[id] == json_text(row_of(all[i])),
    decreases all.len(),
{
    if id_of(all.last()) == Some(id) {
        all.len() - 1
    } else {
        let i = lemma_event_has_row(all.drop_last(), identity, id);
        assert(all.drop_last()[i] == all[i]);
        i
    }
}

/// A ledger is accepted exactly where every line holds a row of the run, and lines
/// with one event id have one text.
pub proof fn law_accepted_exactly(all: Seq<Seq<char>>, identity: IdentityView)
    ensures
        lines_outcome(all, identity) is Accepted <==> (forall|i: int|
            0 <= i < all.len() ==> valid_row(#[trigger] all[i], identity)) && one_text_per_event(
            all,
        ),
    decreases all.len(),
{
    if all.len() > 0 {
        let earlier = all.drop_last();
        law_accepted_exactly(earlier, identity);
        if lines_outcome(all, identity) is Accepted {
            let scan = lines_outcome(all, identity)->Accepted_0;
            assert forall|i: int| 0 <= i < all.len() implies valid_row(
                #[trigger] all[i],
                identity,
            ) by {
                lemma_row_stays(all, identity, i);
            }
            assert forall|i: int, j: int|
                #![trigger all[i], all[j]]
                0 <= i < all.len() && 0 <= j < all.len() && id_of(all[i]) == id_of(
                    all[j],
                ) implies json_text(row_of(all[i])) == json_text(row_of(all[j])) by {
                lemma_row_stays(all, identity, i);
                lemma_row_stays(all, identity, j);
            }
        } else if (forall|i: int| 0 <= i < all.len() ==> valid_row(#[trigger] all[i], identity))
            && one_text_per_event(all) {
            assert forall|i: int| 0 <= i < earlier.len() implies valid_row(
                #[trigger] earlier[i],
                identity,
            ) by {
                assert(earlier[i] == all[i]);
            }
            assert forall|i: int, j: int|
                #![trigger earlier[i], earlier[j]]
                0 <= i < earlier.len() && 0 <= j < earlier.len() && id_of(earlier[i]) == id_of(
                    earlier[j],
                ) implies json_text(row_of(earlier[i])) == json_text(row_of(earlier[j])) by {
                assert(earlier[i] == all[i] && earlier[j] == all[j]);
            }
            let last = all.len() - 1;
            assert(valid_row(all[last], identity));
            let scan = lines_outcome(earlier, identity)->Accepted_0;
            let id = id_of(all[last])->0;
            if scan.events.dom().contains(id) {
                let i = lemma_event_has_row(earlier, identity, id);
                assert(earlier[i] == all[i]);
                assert(json_text(row_of(all[i])) == json_text(row_of(all[last])));
            }
        }
    }
}

/// The rows with the largest indices.
proof fn lemma_largest(all: Seq<Seq<char>>, identity: IdentityView) -> (r: (int, int))
    requires
        lines_outcome(all, identity) is Accepted,
        all.len() > 0,
    ensures
        0 <= r.0 < all.len(),
        0 <= r.1 < all.len(),
        lines_outcome(all, identity)->Accepted_0.counters.next_event_index == event_index_of(
            all[r.0],
        ) + 1,
        lines_outcome(all, identity)->Accepted_0.counters.next_request_index == request_index_of(
            all[r.1],
        ) + 1,
    decreases all.len(),
{
    let earlier = all.drop_last();
    let counters = lines_outcome(all, identity)->Accepted_0.counters;
    let last = all.len() - 1;
    lemma_row_stays(all, identity, last);
    let prior = lines_outcome(earlier, identity)->Accepted_0.counters;
    assert(counters == counters_after(
        prior,
        event_index_of(all[last]),
        request_index_of(all[last]),
    ));
    if earlier.len() == 0 {
        assert(prior == zero_counters());
        (last, last)
    } else {
        let (e, q) = lemma_largest(earlier, identity);
        assert(earlier[e] == all[e] && earlier[q] == all[q]);
        let event = if counters.next_event_index == event_index_of(all[last]) + 1 {
            last
        } else {
            e
        };
        let request = if counters.next_request_index == request_index_of(all[last]) + 1 {
            last
        } else {
            q
        };
        (event, request)
    }
}

/// The counters behind an accepted ledger are one past the largest index in it, and
/// zero where it has no line.
pub proof fn law_counters_stand_behind_the_largest(all: Seq<Seq<char>>, identity: IdentityView)
    requires
        lines_outcome(all, identity) is Accepted,
    ensures
        ({
            let counters = lines_outcome(all, identity)->Accepted_0.counters;
            &&& all.len() == 0 ==> counters == zero_counters()
            &&& forall|i: int|
                0 <= i < all.len() ==> event_index_of(#[trigger] all[i])
                    < counters.next_event_index && request_index_of(all[i])
                    < counters.next_request_index
            &&& all.len() > 0 ==> exists|i: int|
                0 <= i < all.len() && event_index_of(#[trigger] all[i]) + 1
                    == counters.next_event_index
            &&& all.len() > 0 ==> exists|i: int|
                0 <= i < all.len() && request_index_of(#[trigger] all[i]) + 1
                    == counters.next_request_index
        }),
{
    let counters = lines_outcome(all, identity)->Accepted_0.counters;
    assert forall|i: int| 0 <= i < all.len() implies event_index_of(#[trigger] all[i])
        < counters.next_event_index && request_index_of(all[i]) < counters.next_request_index by {
        law_accepted_rows_belong_to_the_run(all, identity, i);
    }
    if all.len() > 0 {
        let (e, q) = lemma_largest(all, identity);
        assert(event_index_of(all[e]) + 1 == counters.next_event_index);
        assert(request_index_of(all[q]) + 1 == counters.next_request_index);
    }
}

/// Where all lines of a ledger stand in another that is accepted, they are accepted,
/// and nothing more is read from them.
proof fn lemma_lines_within(a: Seq<Seq<char>>, b: Seq<Seq<char>>, identity: IdentityView)
    requires
        lines_outcome(b, identity) is Accepted,
        forall|line: Seq<char>| #[trigger] a.contains(line) ==> b.contains(line),
    ensures
        lines_outcome(a, identity) is Accepted,
        ({
            let x = lines_outcome(a, identity)->Accepted_0;
            let y = lines_outcome(b, identity)->Accepted_0;
            &&& x.counters.next_event_index <= y.counters.next_event_index
            &&& x.counters.next_request_index <= y.counters.next_request_index
            &&& forall|id: Seq<char>| #[trigger]
                x.events.dom().contains(id) ==> y.events.dom().contains(id) && x.events[id]
                    == y.events[id]
        }),
{
    law_accepted_exactly(a, identity);
    law_accepted_exactly(b, identity);
    assert forall|i: int| 0 <= i < a.len() implies b.contains(#[trigger] a[i]) by {
        assert(a.contains(a[i]));
    }
    assert forall|i: int| 0 <= i < a.len() implies valid_row(#[trigger] a[i], identity) by {
        assert(b.contains(a[i]));
    }
    assert forall|i: int, j: int|
        #![trigger a[i], a[j]]
        0 <= i < a.len() && 0 <= j < a.len() && id_of(a[i]) == id_of(a[j]) implies json_text(
        row_of(a[i]),
    ) == json_text(row_of(a[j])) by {
        let k = choose|k: int| 0 <= k < b.len() && b[k] == a[i];
        let l = choose|l: int| 0 <= l < b.len() && b[l] == a[j];
        assert(b.contains(a[i]) && b.contains(a[j]));
        assert(b[k] == a[i] && b[l] == a[j]);
    }
    law_counters_stand_behind_the_largest(b, identity);
    if a.len() > 0 {
        let (e, q) = lemma_largest(a, identity);
        assert(b.contains(a[e]) && b.contains(a[q]));
    }
    let x = lines_outcome(a, identity)->Accepted_0;
    let y = lines_outcome(b, identity)->Accepted_0;
    assert forall|id: Seq<char>| #[trigger] x.events.dom().contains(id) implies y.events.dom()
        .contains(id) && x.events[id] == y.events[id] by {
        let i = lemma_event_has_row(a, identity, id);
        assert(b.contains(a[i]));
        let k = choose|k: int| 0 <= k < b.len() && b[k] == a[i];
        lemma_row_stays(b, identity, k);
    }
}

/// Neither the order of the lines nor exact repeats change what reading an accepted
/// ledger comes to, nor whether it is accepted.
pub proof fn law_order_and_repeats_change_nothing(
    a: Seq<Seq<char>>,
    b: Seq<Seq<char>>,
    identity: IdentityView,
)
    requires
        forall|line: Seq<char>| #[trigger] a.contains(line) <==> b.contains(line),
    ensures
        lines_outcome(a, identity) is Accepted <==> lines_outcome(b, identity) is Accepted,
        lines_outcome(a, identity) is Accepted ==> lines_outcome(a, identity) == lines_outcome(
            b,
            identity,
        ),
{
    assert forall|line: Seq<char>| #[trigger] b.contains(line) implies a.contains(line) by {
        assert(a.contains(line) <==> b.contains(line));
    }
    if lines_outcome(b, identity) is Accepted {
        lemma_lines_within(a, b, identity);
    }
    if lines_outcome(a, identity) is Accepted {
        lemma_lines_within(b, a, identity);
        let x = lines_outcome(a, identity)->Accepted_0;
        let y = lines_outcome(b, identity)->Accepted_0;
        assert(x.events =~= y.events);
    }
}

/// A line that occurs in an accepted ledger may occur once more: reading it again
/// changes nothing.
pub proof fn law_repeated_line_changes_nothing(
    all: Seq<Seq<char>>,
    identity: IdentityView,
    i: int,
)
    requires
        lines_outcome(all, identity) is Accepted,
        0 <= i < all.len(),
    ensures
        lines_outcome(all.push(all[i]), identity) == lines_outcome(all, identity),
{
    lemma_row_stays(all, identity, i);
    law_accepted_rows_belong_to_the_run(all, identity, i);
    let scan = lines_outcome(all, identity)->Accepted_0;
    let row = row_of(all[i]);
    let id = id_of(all[i])->0;
    assert(all.push(all[i]).drop_last() =~= all);
    assert(scan.events.insert(id, json_text(row)) =~= scan.events);
}

/// One event id with two different texts is refused: evidence is never
/// rewritten.
pub proof fn law_conflicting_line_is_refused(
    all: Seq<Seq<char>>,
    identity: IdentityView,
    i: int,
    line: Seq<char>,
)
    requires
        lines_outcome(all, identity) is Accepted,
        0 <= i < all.len(),
        valid_row(line, identity),
        id_of(line) == id_of(all[i]),
        json_text(row_of(line)) != json_text(row_of(all[i])),
    ensures
        lines_outcome(all.push(line), identity) == conflict(),
{
    lemma_row_stays(all, identity, i);
    assert(all.push(line).drop_last() =~= all);
}

/// What becomes of a ledger in which one event id has two texts.
pub open spec fn conflict() -> ScanOutcome {
    ScanOutcome::Rejected(
        data_error("request ledger contains a conflicting duplicate event_id"@),
    )
}

/// Documents that can be read back from one text have the same integers.
proof fn lemma_text_tells_integers(v: JsonView, w: JsonView, key: Seq<char>)
    requires
        reads_back(v),
        reads_back(w),
        json_text(v) == json_text(w),
    ensures
        u64_field(v, key) == u64_field(w, key),
{
    let read = parsed_json(json_text(v))->Ok_0;
    lemma_alike_fields(v, read, key);
    lemma_alike_fields(w, read, key);
}

/// Two rows with one event id and different event indices, both of which can be
/// written and read again, are in conflict.
pub proof fn law_two_indices_of_one_event_conflict(
    all: Seq<Seq<char>>,
    identity: IdentityView,
    i: int,
    line: Seq<char>,
)
    requires
        lines_outcome(all, identity) is Accepted,
        0 <= i < all.len(),
        valid_row(line, identity),
        id_of(line) == id_of(all[i]),
        event_index_of(line) != event_index_of(all[i]),
        reads_back(row_of(line)),
        reads_back(row_of(all[i])),
    ensures
        lines_outcome(all.push(line), identity) == conflict(),
{
    lemma_row_stays(all, identity, i);
    if json_text(row_of(line)) == json_text(row_of(all[i])) {
        lemma_text_tells_integers(row_of(line), row_of(all[i]), "event_index"@);
    }
    law_conflicting_line_is_refused(all, identity, i, line);
}

/// An event that is recorded a second time for one request makes the ledger one that
/// cannot be resumed, whatever is written behind it: opening it is refused as a
/// conflicting duplicate. So it is with two ends of one request, and with two starts
/// of one attempt.
pub proof fn law_second_event_cannot_be_resumed(
    config: ContextPolicyConfig,
    content: Seq<char>,
    line: Seq<char>,
    more: Seq<char>,
    before: RawRequestLedger,
    after: RawRequestLedger,
    handle: HandleView,
    event: Seq<char>,
    suffix: Seq<char>,
    fields: JsonView,
    r: Result<Option<RawRequestLedger>, PolicyError>,
)
    requires
        follows(before, content),
        writes_event(line, before, after, handle, event, suffix, fields),
        handle.request_index < u64::MAX,
        holds_event(before, content, event_id(handle.logical_request_id, suffix)),
        config_identity(config) == Ok::<Option<IdentityView>, ErrorView>(Some(before.identity())),
        opened(r, config, Some(content + line + more)),
    ensures
        scan_outcome(Some(content + line + more), before.identity()) == conflict(),
        r matches Err(error) && error@ == data_error(
            "request ledger contains a conflicting duplicate event_id"@,
        ),
{
    let identity = before.identity();
    let event_index = before.counters().next_event_index;
    let record = event_record(identity, event_index, handle, event, suffix, fields);
    let text = json_text(record);
    let all = text_lines(content);
    let longer = all.push(text);
    let whole = text_lines(content + line + more);
    assert(content + line =~= content + text + seq!['\n']);
    lemma_append_line(content, text);
    lemma_lines_concat(content + line, more);
    assert(whole =~= longer + text_lines(more));
    let n = longer.len() as int;
    assert(whole.take(n) =~= longer);
    lemma_record_fields(
        identity,
        event_index,
        handle,
        event,
        suffix,
        fields,
        parsed_json(text)->Ok_0,
    );
    let id = event_id(handle.logical_request_id, suffix);
    let i = lemma_event_has_row(all, identity, id);
    law_accepted_rows_belong_to_the_run(all, identity, i);
    lemma_prefix_accepted(all, identity, i + 1);
    assert(whole.take(i + 1) =~= all.take(i + 1));
    assert(whole[i] == all[i]);
    assert(whole[n - 1] == text);
    assert(longer.drop_last() =~= all);
    lemma_row_stays(all, identity, i);
    if json_text(row_of(text)) == json_text(row_of(all[i])) {
        assert(lines_outcome(longer, identity) is Accepted);
        assert(reads_back(row_of(text)));
        assert(reads_back(row_of(all[i])));
        lemma_text_tells_integers(row_of(text), row_of(all[i]), "event_index"@);
    }
    law_conflicting_line_is_refused(all, identity, i, text);
    lemma_stops(whole, identity, n);
}

/// A row is judged by what is frozen for the run and by its indices. So a row
/// with another provider or model is judged alike.
pub proof fn law_provider_and_model_are_not_frozen(
    scan: ScanView,
    identity: IdentityView,
    a: JsonView,
    b: JsonView,
    signature: Seq<char>,
)
    requires
        a is Object && b is Object,
        forall|key: Seq<char>|
            key != "provider_id"@ && key != "model_id"@ ==> #[trigger] field(a, key) == field(
                b,
                key,
            ),
    ensures
        row_outcome(scan, identity, a, signature) == row_outcome(scan, identity, b, signature),
{
    reveal_strlit("provider_id");
    reveal_strlit("model_id");
    reveal_strlit("schema_version");
    reveal_strlit("run_id");
    reveal_strlit("task_id");
    reveal_strlit("replicate_id");
    reveal_strlit("arm");
    reveal_strlit("pricing_schedule_id");
    reveal_strlit("event_id");
    reveal_strlit("event_index");
    reveal_strlit("request_index");
    assert("provider_id"@.len() == 11 && "provider_id"@[0] == 'p');
    assert("model_id"@.len() == 8 && "model_id"@[0] == 'm');
    assert("schema_version"@.len() == 14);
    assert("run_id"@.len() == 6);
    assert("task_id"@.len() == 7);
    assert("replicate_id"@.len() == 12);
    assert("arm"@.len() == 3);
    assert("pricing_schedule_id"@.len() == 19);
    assert("event_id"@.len() == 8 && "event_id"@[0] == 'e');
    assert("event_index"@.len() == 11 && "event_index"@[0] == 'e');
    assert("request_index"@.len() == 13);
    assert(field(a, "schema_version"@) == field(b, "schema_version"@));
    assert(field(a, "run_id"@) == field(b, "run_id"@));
    assert(field(a, "task_id"@) == field(b, "task_id"@));
    assert(field(a, "replicate_id"@) == field(b, "replicate_id"@));
    assert(field(a, "arm"@) == field(b, "arm"@));
    assert(field(a, "pricing_schedule_id"@) == field(b, "pricing_schedule_id"@));
    assert(field(a, "event_id"@) == field(b, "event_id"@));
    assert(field(a, "event_index"@) == field(b, "event_index"@));
    assert(field(a, "request_index"@) == field(b, "request_index"@));
}

} // verus!
