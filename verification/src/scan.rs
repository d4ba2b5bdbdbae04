//! Reading a request ledger back, to continue it.

use vstd::hash_map::StringHashMap;
use vstd::prelude::*;

use crate::error::{data_error, invalid_data, ErrorKind, ErrorView, PolicyError};
use crate::event::{IdentityView, LedgerIdentity, RAW_REQUEST_EVENT_SCHEMA_VERSION};
use crate::json::{
    field, json_text, parsed_json, reads_back, text_field, u64_field, Json, JsonView, NumberView,
};
use crate::text::{decimal, decimal_text, join, lines, same_text, text_lines, texts};

verus! {

/// The indices of the next event and of the next request.
#[derive(Clone, Copy, Debug, PartialEq, Eq, Structural)]
pub struct Counters {
    pub next_event_index: u64,
    pub next_request_index: u64,
}

impl Default for Counters {
    /// The counters of an empty ledger.
    fn default() -> (counters: Self)
        ensures
            counters == zero_counters(),
    {
        Counters { next_event_index: 0, next_request_index: 0 }
    }
}

/// The counters of an empty ledger.
pub open spec fn zero_counters() -> Counters {
    Counters { next_event_index: 0, next_request_index: 0 }
}

/// What has been read of a ledger: the events by id, each with its text, and the
/// counters behind them.
pub struct ScanView {
    pub events: Map<Seq<char>, Seq<char>>,
    pub counters: Counters,
}

/// What reading a ledger, or a line of it, comes to.
pub enum ScanOutcome {
    /// The evidence can be continued.
    Accepted(ScanView),
    /// The evidence cannot be continued.
    Rejected(ErrorView),
    /// An index is the last one that there is, so that none can follow it.
    IndexOverflow,
}

/// Which field that is frozen for a run a row does not repeat, where there is
/// one, with what is said of it. The provider and the model are not frozen: a
/// fallback may change them within one run.
pub open spec fn frozen_complaint(identity: IdentityView, row: JsonView) -> Option<Seq<char>> {
    if text_field(row, "schema_version"@) != Some(RAW_REQUEST_EVENT_SCHEMA_VERSION@) {
        Some("request ledger contains an unsupported schema"@)
    } else if text_field(row, "run_id"@) != Some(identity.run_id) {
        Some("request ledger path contains a different run_id"@)
    } else if text_field(row, "task_id"@) != Some(identity.task_id) {
        Some("request ledger contains a different task_id"@)
    } else if u64_field(row, "replicate_id"@) != Some(identity.replicate_id) {
        Some("request ledger contains a different replicate_id"@)
    } else if text_field(row, "arm"@) != Some(identity.arm) {
        Some("request ledger contains a different arm"@)
    } else if text_field(row, "pricing_schedule_id"@) != identity.pricing_schedule_id {
        Some("request ledger contains a different pricing_schedule_id"@)
    } else {
        None
    }
}

/// The larger of two indices.
pub open spec fn max_index(a: u64, b: u64) -> u64 {
    if a >= b {
        a
    } else {
        b
    }
}

/// The counters behind a row with the given indices.
pub open spec fn counters_after(
    counters: Counters,
    event_index: u64,
    request_index: u64,
) -> Counters {
    Counters {
        next_event_index: max_index(counters.next_event_index, (event_index + 1) as u64),
        next_request_index: max_index(counters.next_request_index, (request_index + 1) as u64),
    }
}

/// What a row with the given text comes to, behind what has been read.
pub open spec fn row_outcome(
    scan: ScanView,
    identity: IdentityView,
    row: JsonView,
    signature: Seq<char>,
) -> ScanOutcome {
    match frozen_complaint(identity, row) {
        Some(message) => ScanOutcome::Rejected(data_error(message)),
        None => match text_field(row, "event_id"@) {
            None => ScanOutcome::Rejected(data_error("event_id is missing"@)),
            Some(id) => if scan.events.dom().contains(id) && scan.events[id] != signature {
                ScanOutcome::Rejected(
                    data_error("request ledger contains a conflicting duplicate event_id"@),
                )
            } else {
                match (u64_field(row, "event_index"@), u64_field(row, "request_index"@)) {
                    (None, _) => ScanOutcome::Rejected(data_error("event_index is missing"@)),
                    (_, None) => ScanOutcome::Rejected(data_error("request_index is missing"@)),
                    (Some(event_index), Some(request_index)) => if event_index == u64::MAX
                        || request_index == u64::MAX {
                        ScanOutcome::IndexOverflow
                    } else {
                        ScanOutcome::Accepted(
                            ScanView {
                                events: scan.events.insert(id, signature),
                                counters: counters_after(
                                    scan.counters,
                                    event_index,
                                    request_index,
                                ),
                            },
                        )
                    },
                }
            },
        },
    }
}

/// What a line comes to, behind what has been read: `parsed` is the row in it or
/// the message of the error that reading it gave.
pub open spec fn line_outcome(
    scan: ScanView,
    identity: IdentityView,
    line_number: nat,
    parsed: Result<JsonView, Seq<char>>,
    signature: Seq<char>,
) -> ScanOutcome {
    match parsed {
        Err(message) => ScanOutcome::Rejected(
            data_error(
                "invalid request ledger line "@ + decimal_text(line_number) + ": "@ + message,
            ),
        ),
        Ok(row) => row_outcome(scan, identity, row, signature),
    }
}

/// What reading some lines comes to: the first that is not accepted decides.
pub open spec fn lines_outcome(all: Seq<Seq<char>>, identity: IdentityView) -> ScanOutcome
    decreases all.len(),
{
    if all.len() == 0 {
        ScanOutcome::Accepted(ScanView { events: Map::empty(), counters: zero_counters() })
    } else {
        match lines_outcome(all.drop_last(), identity) {
            ScanOutcome::Accepted(scan) => {
                let parsed = parsed_json(all.last());
                let signature = match parsed {
                    Ok(row) => json_text(row),
                    Err(_) => Seq::empty(),
                };
                line_outcome(scan, identity, all.len(), parsed, signature)
            },
            outcome => outcome,
        }
    }
}

/// The lines of a ledger. One that does not exist is empty.
pub open spec fn content_lines(content: Option<Seq<char>>) -> Seq<Seq<char>> {
    match content {
        Some(text) => text_lines(text),
        None => Seq::empty(),
    }
}

/// What reading a ledger comes to.
pub open spec fn scan_outcome(content: Option<Seq<char>>, identity: IdentityView) -> ScanOutcome {
    lines_outcome(content_lines(content), identity)
}

/// Whether every row that is accepted can be written and read again.
pub open spec fn accepted_rows_read_back(all: Seq<Seq<char>>, identity: IdentityView) -> bool {
    forall|n: int|
        1 <= n <= all.len() && lines_outcome(#[trigger] all.take(n), identity) is Accepted
            ==> reads_back(parsed_json(all[n - 1])->Ok_0)
}

/// What has been read of a ledger.
pub struct LedgerScan {
    events: StringHashMap<String>,
    counters: Counters,
}

impl View for LedgerScan {
    type V = ScanView;

    closed spec fn view(&self) -> ScanView {
        ScanView {
            events: self.events@.map_values(|signature: String| signature@),
            counters: self.counters,
        }
    }
}

/// What a line comes to.
#[derive(Debug)]
pub enum LineStep {
    Accepted,
    Rejected(PolicyError),
    IndexOverflow,
}

impl LedgerScan {
    /// A ledger of which nothing has been read.
    pub fn new() -> (scan: Self)
        ensures
            scan@.events == Map::<Seq<char>, Seq<char>>::empty(),
            scan@.counters == zero_counters(),
    {
        let scan = LedgerScan { events: StringHashMap::new(), counters: Counters::default() };
        assert(scan@.events =~= Map::<Seq<char>, Seq<char>>::empty());
        scan
    }

    /// The counters behind what has been read.
    pub fn counters(&self) -> (counters: Counters)
        ensures
            counters == self@.counters,
    {
        self.counters
    }

    /// Which field that is frozen for a run a row does not repeat.
    fn check_frozen(identity: &LedgerIdentity, row: &Json) -> (r: Result<(), PolicyError>)
        ensures
            match frozen_complaint(identity@, row@) {
                Some(message) => r matches Err(error) && error@ == data_error(message),
                None => r is Ok,
            },
    {
        if !has_text(row, "schema_version", RAW_REQUEST_EVENT_SCHEMA_VERSION) {
            return Err(invalid_data("request ledger contains an unsupported schema"));
        }
        if !has_text(row, "run_id", identity.run_id.as_str()) {
            return Err(invalid_data("request ledger path contains a different run_id"));
        }
        if !has_text(row, "task_id", identity.task_id.as_str()) {
            return Err(invalid_data("request ledger contains a different task_id"));
        }
        let same_replicate = match row.get_u64("replicate_id") {
            Some(id) => id == identity.replicate_id,
            None => false,
        };
        if !same_replicate {
            return Err(invalid_data("request ledger contains a different replicate_id"));
        }
        if !has_text(row, "arm", identity.arm) {
            return Err(invalid_data("request ledger contains a different arm"));
        }
        let same_schedule = match (
            row.get_str("pricing_schedule_id"),
            &identity.pricing_schedule_id,
        ) {
            (Some(a), Some(b)) => same_text(a, b.as_str()),
            (None, None) => true,
            _ => false,
        };
        if !same_schedule {
            return Err(invalid_data("request ledger contains a different pricing_schedule_id"));
        }
        Ok(())
    }

    /// Reads a row with the given text.
    pub fn scan_row(&mut self, identity: &LedgerIdentity, row: &Json, signature: String) -> (step:
        LineStep)
        ensures
            match row_outcome(old(self)@, identity@, row@, signature@) {
                ScanOutcome::Accepted(scan) => step is Accepted && final(self)@ == scan,
                ScanOutcome::Rejected(error) => step matches LineStep::Rejected(e) && e@ == error
                    && final(self)@ == old(self)@,
                ScanOutcome::IndexOverflow => step is IndexOverflow && final(self)@ == old(self)@,
            },
    {
        match LedgerScan::check_frozen(identity, row) {
            Ok(()) => {},
            Err(error) => {
                return LineStep::Rejected(error);
            },
        }
        let id = match row.get_str("event_id") {
            Some(id) => id.to_owned(),
            None => {
                return LineStep::Rejected(invalid_data("event_id is missing"));
            },
        };
        if let Some(prior) = self.events.get(id.as_str()) {
            if *prior != signature {
                return LineStep::Rejected(
                    invalid_data("request ledger contains a conflicting duplicate event_id"),
                );
            }
        }
        let event_index: u64 = match row.get_u64("event_index") {
            Some(index) => index,
            None => {
                return LineStep::Rejected(invalid_data("event_index is missing"));
            },
        };
        let request_index: u64 = match row.get_u64("request_index") {
            Some(index) => index,
            None => {
                return LineStep::Rejected(invalid_data("request_index is missing"));
            },
        };
        if event_index == u64::MAX || request_index == u64::MAX {
            return LineStep::IndexOverflow;
        }
        let ghost before = self@.events;
        let ghost text = signature@;
        let ghost key = id@;
        self.events.insert(id, signature);
        assert(self@.events =~= before.insert(key, text));
        if self.counters.next_event_index < event_index + 1 {
            self.counters.next_event_index = event_index + 1;
        }
        if self.counters.next_request_index < request_index + 1 {
            self.counters.next_request_index = request_index + 1;
        }
        LineStep::Accepted
    }

    /// Reads a line: `parsed` is the row in it, with its text, or the message of
    /// the error that reading it gave.
    pub fn scan_line(
        &mut self,
        identity: &LedgerIdentity,
        line_number: u64,
        parsed: Result<(Json, String), String>,
    ) -> (step: LineStep)
        ensures
            match line_outcome(
                old(self)@,
                identity@,
                line_number as nat,
                match parsed {
                    Ok((row, _)) => Ok(row@),
                    Err(message) => Err(message@),
                },
                match parsed {
                    Ok((_, signature)) => signature@,
                    Err(_) => Seq::empty(),
                },
            ) {
                ScanOutcome::Accepted(scan) => step is Accepted && final(self)@ == scan,
                ScanOutcome::Rejected(error) => step matches LineStep::Rejected(e) && e@ == error
                    && final(self)@ == old(self)@,
                ScanOutcome::IndexOverflow => step is IndexOverflow && final(self)@ == old(self)@,
            },
    {
        match parsed {
            Ok((row, signature)) => self.scan_row(identity, &row, signature),
            Err(message) => {
                let mut text = join(
                    "invalid request ledger line ",
                    decimal(line_number).as_str(),
                );
                text.append(": ");
                text.append(message.as_str());
                LineStep::Rejected(invalid_data(text.as_str()))
            },
        }
    }
}

/// Whether a row has the text under `key`.
fn has_text(row: &Json, key: &str, text: &str) -> (r: bool)
    ensures
        r == (text_field(row@, key@) == Some(text@)),
{
    match row.get_str(key) {
        Some(found) => same_text(found, text),
        None => false,
    }
}

/// Reads a ledger. `None` where an index in it is the last one that there is.
pub fn try_scan_existing(content: Option<&str>, identity: &LedgerIdentity) -> (r: Option<
    Result<Counters, PolicyError>,
>)
    ensures
        match scan_outcome(content_text(content), identity@) {
            ScanOutcome::Accepted(scan) => r == Some(Ok::<Counters, PolicyError>(scan.counters)),
            ScanOutcome::Rejected(error) => r matches Some(Err(e)) && e@ == error,
            ScanOutcome::IndexOverflow => r is None,
        },
        r matches Some(_) ==> accepted_rows_read_back(
            content_lines(content_text(content)),
            identity@,
        ),
{
    let mut scan = LedgerScan::new();
    let text = match content {
        Some(text) => text,
        None => {
            return Some(Ok(scan.counters()));
        },
    };
    let list = lines(text);
    let ghost all = text_lines(text@);
    for i in 0..list.len()
        invariant
            texts(list@) == all,
            lines_outcome(all.take(i as int), identity@) == ScanOutcome::Accepted(scan@),
            scan_outcome(content_text(content), identity@) == lines_outcome(all, identity@),
            content_lines(content_text(content)) == all,
            forall|n: int|
                1 <= n <= i && lines_outcome(#[trigger] all.take(n), identity@) is Accepted
                    ==> reads_back(parsed_json(all[n - 1])->Ok_0),
    {
        let parsed = match Json::parse(list[i].as_str()) {
            Ok(row) => {
                let signature = row.to_text();
                Ok((row, signature))
            },
            Err(message) => Err(message),
        };
        assert(all.take(i + 1).drop_last() =~= all.take(i as int));
        assert(all.take(i + 1).last() == list@[i as int]@);
        match scan.scan_line(identity, i as u64 + 1, parsed) {
            LineStep::Accepted => {},
            LineStep::Rejected(error) => {
                proof {
                    lemma_stops(all, identity@, i + 1);
                    assert forall|n: int|
                        1 <= n <= all.len() && lines_outcome(
                            #[trigger] all.take(n),
                            identity@,
                        ) is Accepted implies reads_back(parsed_json(all[n - 1])->Ok_0) by {
                        if n > i {
                            assert(all.take(n).take(i + 1) =~= all.take(i + 1));
                            lemma_stops(all.take(n), identity@, i + 1);
                        }
                    }
                }
                return Some(Err(error));
            },
            LineStep::IndexOverflow => {
                proof {
                    lemma_stops(all, identity@, i + 1);
                }
                return None;
            },
        }
    }
    assert(all.take(all.len() as int) =~= all);
    Some(Ok(scan.counters()))
}

/// What an optional content holds.
pub open spec fn content_text(content: Option<&str>) -> Option<Seq<char>> {
    match content {
        Some(text) => Some(text@),
        None => None,
    }
}

/// Lines behind one that is not accepted change nothing.
pub proof fn lemma_stops(all: Seq<Seq<char>>, identity: IdentityView, n: int)
    requires
        0 <= n <= all.len(),
        !(lines_outcome(all.take(n), identity) is Accepted),
    ensures
        lines_outcome(all, identity) == lines_outcome(all.take(n), identity),
    decreases all.len() - n,
{
    if n < all.len() {
        assert(all.take(n + 1).drop_last() =~= all.take(n));
        lemma_stops(all, identity, n + 1);
    } else {
        assert(all.take(n) =~= all);
    }
}

/// Reads a ledger in which no index is the last one that there is.
pub fn scan_existing(content: Option<&str>, identity: &LedgerIdentity) -> (r: Result<
    Counters,
    PolicyError,
>)
    requires
        !(scan_outcome(content_text(content), identity@) is IndexOverflow),
    ensures
        match scan_outcome(content_text(content), identity@) {
            ScanOutcome::Accepted(scan) => r == Ok::<Counters, PolicyError>(scan.counters),
            ScanOutcome::Rejected(error) => r matches Err(e) && e@ == error,
            ScanOutcome::IndexOverflow => false,
        },
        accepted_rows_read_back(content_lines(content_text(content)), identity@),
{
    match try_scan_existing(content, identity) {
        Some(r) => r,
        None => Ok(Counters::default()),
    }
}

// ---------------------------------------------------------------------------
// What is refused, and why
// ---------------------------------------------------------------------------

/// A row belongs to the run exactly where it has the schema, the run, the task, the
/// replicate, the arm and the pricing schedule of the run, each under its own key.
pub proof fn law_row_repeats_what_is_frozen(identity: IdentityView, row: JsonView)
    ensures
        frozen_complaint(identity, row) is None <==> {
            &&& field(row, "schema_version"@) == Some(JsonView::Text("codex-request-events-v1"@))
            &&& field(row, "run_id"@) == Some(JsonView::Text(identity.run_id))
            &&& field(row, "task_id"@) == Some(JsonView::Text(identity.task_id))
            &&& field(row, "replicate_id"@) == Some(
                JsonView::Number(NumberView::Integer(identity.replicate_id as int)),
            )
            &&& field(row, "arm"@) == Some(JsonView::Text(identity.arm))
            &&& match identity.pricing_schedule_id {
                Some(id) => field(row, "pricing_schedule_id"@) == Some(JsonView::Text(id)),
                None => !(field(row, "pricing_schedule_id"@) matches Some(JsonView::Text(_))),
            }
        },
{
}

/// What is said of a row of another run: the first of these that differs, in this order.
pub proof fn law_row_of_another_run_is_named(identity: IdentityView, row: JsonView)
    ensures
        ({
            let said = frozen_complaint(identity, row);
            let schema = field(row, "schema_version"@) == Some(
                JsonView::Text("codex-request-events-v1"@),
            );
            let run = schema && field(row, "run_id"@) == Some(JsonView::Text(identity.run_id));
            let task = run && field(row, "task_id"@) == Some(JsonView::Text(identity.task_id));
            let replicate = task && field(row, "replicate_id"@) == Some(
                JsonView::Number(NumberView::Integer(identity.replicate_id as int)),
            );
            let arm = replicate && field(row, "arm"@) == Some(JsonView::Text(identity.arm));
            &&& !schema ==> said == Some("request ledger contains an unsupported schema"@)
            &&& schema && !run ==> said == Some("request ledger path contains a different run_id"@)
            &&& run && !task ==> said == Some("request ledger contains a different task_id"@)
            &&& task && !replicate ==> said == Some(
                "request ledger contains a different replicate_id"@,
            )
            &&& replicate && !arm ==> said == Some("request ledger contains a different arm"@)
            &&& arm && said is Some ==> said == Some(
                "request ledger contains a different pricing_schedule_id"@,
            )
        }),
{
}

/// What becomes of a row: one of another run, one without an id, one with the id of
/// another text, and one without indices is refused and said to be that. Any other is
/// read, unless no index can follow.
pub proof fn law_row_is_read_or_refused(
    scan: ScanView,
    identity: IdentityView,
    row: JsonView,
    signature: Seq<char>,
    message: Seq<char>,
    id: Seq<char>,
    event_index: u64,
    request_index: u64,
)
    ensures
        ({
            let outcome = row_outcome(scan, identity, row, signature);
            let ours = frozen_complaint(identity, row) is None;
            let named = field(row, "event_id"@) == Some(JsonView::Text(id));
            let fresh = !scan.events.dom().contains(id) || scan.events[id] == signature;
            let placed = field(row, "event_index"@) == Some(
                JsonView::Number(NumberView::Integer(event_index as int)),
            );
            let asked = field(row, "request_index"@) == Some(
                JsonView::Number(NumberView::Integer(request_index as int)),
            );
            let last = event_index == u64::MAX || request_index == u64::MAX;
            &&& frozen_complaint(identity, row) == Some(message) ==> (outcome
                matches ScanOutcome::Rejected(error) && error.kind == ErrorKind::InvalidData
                && error.message == message)
            &&& ours && !(field(row, "event_id"@) matches Some(JsonView::Text(_))) ==> (outcome
                matches ScanOutcome::Rejected(error) && error.kind == ErrorKind::InvalidData
                && error.message == "event_id is missing"@)
            &&& ours && named && !fresh ==> (outcome matches ScanOutcome::Rejected(error)
                && error.kind == ErrorKind::InvalidData && error.message
                == "request ledger contains a conflicting duplicate event_id"@)
            &&& ours && named && fresh && u64_field(row, "event_index"@) is None ==> (outcome
                matches ScanOutcome::Rejected(error) && error.kind == ErrorKind::InvalidData
                && error.message == "event_index is missing"@)
            &&& ours && named && fresh && placed && u64_field(row, "request_index"@) is None ==> (
            outcome matches ScanOutcome::Rejected(error) && error.kind == ErrorKind::InvalidData
                && error.message == "request_index is missing"@)
            &&& ours && named && fresh && placed && asked && last ==> outcome
                == ScanOutcome::IndexOverflow
            &&& ours && named && fresh && placed && asked && !last ==> (outcome
                matches ScanOutcome::Accepted(next) && {
                &&& next.events == scan.events.insert(id, signature)
                &&& next.counters.next_event_index >= scan.counters.next_event_index
                &&& next.counters.next_event_index > event_index
                &&& next.counters.next_event_index == scan.counters.next_event_index
                    || next.counters.next_event_index == event_index + 1
                &&& next.counters.next_request_index >= scan.counters.next_request_index
                &&& next.counters.next_request_index > request_index
                &&& next.counters.next_request_index == scan.counters.next_request_index
                    || next.counters.next_request_index == request_index + 1
            })
        }),
{
}

/// A line that holds no JSON is refused by its number, counted from one, with what is
/// wrong with it. So is the ledger, where the lines before were accepted, whatever comes
/// behind.
pub proof fn law_malformed_line_is_named(
    all: Seq<Seq<char>>,
    identity: IdentityView,
    n: int,
    message: Seq<char>,
)
    requires
        0 <= n < all.len(),
        lines_outcome(all.take(n), identity) is Accepted,
        parsed_json(all[n]) == Err::<JsonView, Seq<char>>(message),
    ensures
        lines_outcome(all, identity) matches ScanOutcome::Rejected(error) && error.kind
            == ErrorKind::InvalidData && error.message == "invalid request ledger line "@
            + decimal_text((n + 1) as nat) + ": "@ + message,
{
    let first = all.take(n + 1);
    assert(first.drop_last() =~= all.take(n));
    assert(first.last() == all[n]);
    lemma_stops(all, identity, n + 1);
}

/// A ledger is read from its first line on: the rows are those of its text, a missing
/// ledger has none, and no row means no event and indices at zero.
pub proof fn law_missing_ledger_is_empty(identity: IdentityView, text: Seq<char>, content: &str)
    ensures
        scan_outcome(Some(text), identity) == lines_outcome(text_lines(text), identity),
        scan_outcome(None, identity) matches ScanOutcome::Accepted(scan)
            && scan.counters.next_event_index == 0 && scan.counters.next_request_index == 0
            && forall|id: Seq<char>| !#[trigger] scan.events.dom().contains(id),
        content_text(Some(content)) == Some(content@),
        content_text(None) is None,
{
}

/// Reading goes line by line: a further line is judged as a row behind what was read,
/// with its text as it is written again.
pub proof fn law_lines_are_read_one_after_another(
    all: Seq<Seq<char>>,
    identity: IdentityView,
    scan: ScanView,
    line: Seq<char>,
    row: JsonView,
)
    requires
        lines_outcome(all, identity) == ScanOutcome::Accepted(scan),
        parsed_json(line) == Ok::<JsonView, Seq<char>>(row),
    ensures
        lines_outcome(all.push(line), identity) == row_outcome(
            scan,
            identity,
            row,
            json_text(row),
        ),
{
    assert(all.push(line).drop_last() =~= all);
}

} // verus!
