//! The append-only ledger of raw request evidence. It records what providers
//! report and prices nothing.

use serde_json::Number;
use vstd::prelude::*;

use crate::config::{arm_name, arm_text, ContextPolicyConfig};
use crate::error::{invalid, invalid_error, ErrorKind, ErrorView, PolicyError};
use crate::event::{
    attempt_event_suffix, attempt_failed_entries, attempt_failed_fields, attempt_started_entries,
    attempt_started_fields, attempt_suffix, build_event_record, completed_entries,
    completed_fields, event_record, failed_entries, failed_fields, lemma_event_depth,
    lemma_identity_depth, lemma_record_depth, logical_id, opt_str, request_id,
    retry_scheduled_entries, retry_scheduled_fields, with_attempt_identity, with_identity,
    AttemptIdentity, DescriptorView, HandleView, IdentityView, LedgerIdentity,
    OwnedRequestDescriptor, RawRequestHandle, RequestDescriptor,
};
use crate::json::{
    depth_at_most, json_text, lemma_depth_monotone, max_depth, object, reads_back, Json, JsonView,
};
use crate::keys::{apart, law_events_stand_apart};
use crate::scan::{
    accepted_rows_read_back, content_lines, content_text, scan_existing, scan_outcome,
    try_scan_existing, Counters, ScanOutcome,
};
use crate::text::opt_text;
use crate::usage::TokenUsage;

verus! {

/// The identity of the run that a configuration names for the ledger, nothing
/// where it names no ledger, or an error where the ledger lacks an identity.
pub open spec fn config_identity(config: ContextPolicyConfig) -> Result<
    Option<IdentityView>,
    ErrorView,
> {
    if config.request_raw_log_path is None {
        Ok(None)
    } else if config.run_id is None {
        Err(invalid_error("request ledger requires run_id"@))
    } else if config.task_id is None {
        Err(invalid_error("request ledger requires task_id"@))
    } else if config.replicate_id is None {
        Err(invalid_error("request ledger requires replicate_id"@))
    } else {
        Ok(
            Some(
                IdentityView {
                    run_id: config.run_id->0@,
                    task_id: config.task_id->0@,
                    replicate_id: config.replicate_id->0,
                    arm: arm_text(config.mode),
                    pricing_schedule_id: opt_text(config.pricing_schedule_id),
                },
            ),
        )
    }
}

impl LedgerIdentity {
    /// The identity of the run that a configuration names for the ledger.
    pub fn from_config(config: &ContextPolicyConfig) -> (r: Result<
        Option<LedgerIdentity>,
        PolicyError,
    >)
        ensures
            match (r, config_identity(*config)) {
                (Ok(Some(identity)), Ok(Some(view))) => identity@ == view,
                (Ok(None), Ok(None)) => true,
                (Err(error), Err(view)) => error@ == view,
                _ => false,
            },
    {
        if config.request_raw_log_path.is_none() {
            return Ok(None);
        }
        let run_id = match &config.run_id {
            Some(id) => id.clone(),
            None => {
                return Err(invalid("request ledger requires run_id"));
            },
        };
        let task_id = match &config.task_id {
            Some(id) => id.clone(),
            None => {
                return Err(invalid("request ledger requires task_id"));
            },
        };
        let replicate_id: u64 = match config.replicate_id {
            Some(id) => id,
            None => {
                return Err(invalid("request ledger requires replicate_id"));
            },
        };
        Ok(
            Some(
                LedgerIdentity {
                    run_id,
                    task_id,
                    replicate_id,
                    arm: arm_name(config.mode),
                    pricing_schedule_id: config.pricing_schedule_id.clone(),
                },
            ),
        )
    }
}

/// What reading the ledger that a configuration names comes to, where it names
/// one and its identity.
pub open spec fn config_scan(
    config: ContextPolicyConfig,
    content: Option<Seq<char>>,
) -> Option<ScanOutcome> {
    match config_identity(config) {
        Ok(Some(identity)) => Some(scan_outcome(content, identity)),
        _ => None,
    }
}

/// Whether an index in the ledger that a configuration names is the last one
/// that there is.
pub open spec fn config_overflows(
    config: ContextPolicyConfig,
    content: Option<Seq<char>>,
) -> bool {
    config_scan(config, content) matches Some(outcome) && outcome is IndexOverflow
}

/// What opening the ledger that a configuration names gives. Every row that was
/// accepted on the way can be written and read again.
pub open spec fn opened(
    r: Result<Option<RawRequestLedger>, PolicyError>,
    config: ContextPolicyConfig,
    content: Option<Seq<char>>,
) -> bool {
    match config_identity(config) {
        Err(view) => r matches Err(error) && error@ == view,
        Ok(None) => r matches Ok(None),
        Ok(Some(identity)) => {
            &&& accepted_rows_read_back(content_lines(content), identity)
            &&& match scan_outcome(content, identity) {
                ScanOutcome::Accepted(scan) => {
                    &&& r matches Ok(Some(ledger))
                    &&& ledger.identity() == identity
                    &&& ledger.counters() == scan.counters
                    &&& Some(ledger.path()) == opt_text(config.request_raw_log_path)
                },
                ScanOutcome::Rejected(view) => r matches Err(error) && error@ == view,
                ScanOutcome::IndexOverflow => false,
            }
        },
    }
}

/// The ledger of one run.
#[derive(Debug)]
pub struct RawRequestLedger {
    path: String,
    identity: LedgerIdentity,
    counters: Counters,
}

/// Whether a line is what appending an event writes: the record of the event
/// with the next index, on a line of its own, which holds the record when it is
/// read again. The fields of the event leave what every record says alone.
pub open spec fn writes_event(
    line: Seq<char>,
    before: RawRequestLedger,
    after: RawRequestLedger,
    handle: HandleView,
    event: Seq<char>,
    suffix: Seq<char>,
    fields: JsonView,
) -> bool {
    let record = event_record(
        before.identity(),
        before.counters().next_event_index,
        handle,
        event,
        suffix,
        fields,
    );
    &&& line == json_text(record) + seq!['\n']
    &&& reads_back(record)
    &&& apart(fields)
    &&& after.identity() == before.identity()
    &&& after.path() == before.path()
    &&& after.counters().next_event_index == before.counters().next_event_index + 1
}

/// Whether a line is what recording an event of a request writes. No request index
/// is used up.
pub open spec fn records_event(
    line: Seq<char>,
    before: RawRequestLedger,
    after: RawRequestLedger,
    handle: HandleView,
    event: Seq<char>,
    suffix: Seq<char>,
    fields: JsonView,
) -> bool {
    &&& writes_event(line, before, after, handle, event, suffix, fields)
    &&& after.counters().next_request_index == before.counters().next_request_index
}

/// Whether a handle and a line are what beginning a request gives: the handle has
/// the next request index, which is used up.
pub open spec fn begins_request(
    line: Seq<char>,
    before: RawRequestLedger,
    after: RawRequestLedger,
    descriptor: DescriptorView,
    handle: HandleView,
) -> bool {
    &&& handle == (HandleView {
        request_index: before.counters().next_request_index,
        logical_request_id: logical_id(
            before.identity().run_id,
            before.counters().next_request_index as nat,
        ),
        descriptor,
    })
    &&& writes_event(
        line,
        before,
        after,
        handle,
        "request_started"@,
        "start"@,
        JsonView::Null,
    )
    &&& after.counters().next_request_index == before.counters().next_request_index + 1
}

/// Whether a line is what recording the start of an attempt writes.
pub open spec fn records_attempt_start(
    line: Seq<char>,
    before: RawRequestLedger,
    after: RawRequestLedger,
    handle: HandleView,
    attempt_index: u64,
    identity: Option<&AttemptIdentity>,
) -> bool {
    records_event(
        line,
        before,
        after,
        handle,
        "attempt_started"@,
        attempt_suffix(attempt_index, "start"@),
        with_identity(object(attempt_started_entries(attempt_index)), identity),
    )
}

/// Whether a line is what recording the failure of an attempt writes.
pub open spec fn records_attempt_failure(
    line: Seq<char>,
    before: RawRequestLedger,
    after: RawRequestLedger,
    handle: HandleView,
    attempt_index: u64,
    failure_kind: Seq<char>,
    failure_reason: Seq<char>,
    identity: Option<&AttemptIdentity>,
) -> bool {
    records_event(
        line,
        before,
        after,
        handle,
        "attempt_failed"@,
        attempt_suffix(attempt_index, "failed"@),
        with_identity(
            object(attempt_failed_entries(attempt_index, failure_kind, failure_reason)),
            identity,
        ),
    )
}

/// Whether a line is what recording a scheduled retry writes.
pub open spec fn records_retry(
    line: Seq<char>,
    before: RawRequestLedger,
    after: RawRequestLedger,
    handle: HandleView,
    attempt_index: u64,
    wait_seconds: Option<Number>,
) -> bool {
    records_event(
        line,
        before,
        after,
        handle,
        "retry_scheduled"@,
        attempt_suffix(attempt_index, "retry"@),
        object(retry_scheduled_entries(attempt_index, wait_seconds)),
    )
}

/// Whether a line is what recording the completion of a request writes.
pub open spec fn records_completion(
    line: Seq<char>,
    before: RawRequestLedger,
    after: RawRequestLedger,
    handle: HandleView,
    response_id: Option<Seq<char>>,
    usage: Option<&TokenUsage>,
    visible_output_tokens: Option<i64>,
    latency_seconds: Option<Number>,
    stop_reason: Seq<char>,
    identity: Option<&AttemptIdentity>,
) -> bool {
    records_event(
        line,
        before,
        after,
        handle,
        "request_completed"@,
        "terminal"@,
        with_identity(
            object(
                completed_entries(
                    response_id,
                    usage,
                    visible_output_tokens,
                    latency_seconds,
                    stop_reason,
                ),
            ),
            identity,
        ),
    )
}

/// Whether a line is what recording the failure of a request writes.
pub open spec fn records_failure(
    line: Seq<char>,
    before: RawRequestLedger,
    after: RawRequestLedger,
    handle: HandleView,
    failure_kind: Seq<char>,
    failure_reason: Seq<char>,
    latency_seconds: Option<Number>,
    identity: Option<&AttemptIdentity>,
) -> bool {
    records_event(
        line,
        before,
        after,
        handle,
        "request_failed"@,
        "terminal"@,
        with_identity(
            object(failed_entries(failure_kind, failure_reason, latency_seconds)),
            identity,
        ),
    )
}

impl RawRequestLedger {
    /// The identity of the run.
    pub closed spec fn identity(&self) -> IdentityView {
        self.identity@
    }

    /// The indices of the next event and of the next request.
    pub closed spec fn counters(&self) -> Counters {
        self.counters
    }

    /// Where the ledger is kept.
    pub closed spec fn path(&self) -> Seq<char> {
        self.path@
    }

    /// The run that is recorded.
    pub fn run_id(&self) -> (id: &str)
        ensures
            id@ == self.identity().run_id,
    {
        self.identity.run_id.as_str()
    }

    /// Where the ledger is kept.
    pub fn log_path(&self) -> (path: &str)
        ensures
            path@ == self.path(),
    {
        self.path.as_str()
    }

    /// The indices of the next event and of the next request.
    pub fn next_indices(&self) -> (counters: Counters)
        ensures
            counters == self.counters(),
    {
        self.counters
    }

    /// Opens the ledger that a configuration names, to continue what it holds:
    /// `content` is nothing where it does not exist yet.
    pub fn from_config(config: &ContextPolicyConfig, content: Option<&str>) -> (r: Result<
        Option<Self>,
        PolicyError,
    >)
        requires
            !config_overflows(*config, content_text(content)),
        ensures
            opened(r, *config, content_text(content)),
    {
        let identity = match LedgerIdentity::from_config(config) {
            Ok(Some(identity)) => identity,
            Ok(None) => {
                return Ok(None);
            },
            Err(error) => {
                return Err(error);
            },
        };
        let path = match &config.request_raw_log_path {
            Some(path) => path.clone(),
            None => {
                return Ok(None);
            },
        };
        match scan_existing(content, &identity) {
            Ok(counters) => Ok(Some(RawRequestLedger { path, identity, counters })),
            Err(error) => Err(error),
        }
    }

    /// Opens the ledger that a configuration names. `None` where an index in it
    /// is the last one that there is.
    pub fn try_from_config(config: &ContextPolicyConfig, content: Option<&str>) -> (r: Option<
        Result<Option<Self>, PolicyError>,
    >)
        ensures
            match r {
                Some(r) => !config_overflows(*config, content_text(content)) && opened(
                    r,
                    *config,
                    content_text(content),
                ),
                None => config_overflows(*config, content_text(content)),
            },
    {
        if let Ok(Some(identity)) = LedgerIdentity::from_config(config) {
            if try_scan_existing(content, &identity).is_none() {
                return None;
            }
        }
        Some(RawRequestLedger::from_config(config, content))
    }

    /// Appends an event of a request: the line to write.
    fn append(
        &mut self,
        handle: &RawRequestHandle,
        event: &str,
        event_suffix: &str,
        fields: Json,
    ) -> (line: String)
        requires
            old(self).counters().next_event_index < u64::MAX,
            depth_at_most(fields@, 2),
            apart(fields@),
        ensures
            records_event(
                line@,
                *old(self),
                *final(self),
                handle@,
                event@,
                event_suffix@,
                fields@,
            ),
    {
        let event_index: u64 = self.counters.next_event_index;
        self.counters.next_event_index = event_index + 1;
        proof {
            lemma_record_depth(
                self.identity@,
                event_index,
                handle@,
                event@,
                event_suffix@,
                fields@,
                1,
            );
            lemma_depth_monotone(
                event_record(
                    self.identity@,
                    event_index,
                    handle@,
                    event@,
                    event_suffix@,
                    fields@,
                ),
                2,
                max_depth(),
            );
        }
        let record = build_event_record(
            &self.identity,
            event_index,
            handle,
            event,
            event_suffix,
            fields,
        );
        let mut line = record.to_text();
        line.push('\n');
        assert(line@ =~= json_text(record@) + seq!['\n']);
        line
    }

    /// Begins a request: its handle, and the line to write.
    pub fn begin_request(&mut self, descriptor: RequestDescriptor<'_>) -> (r: (
        RawRequestHandle,
        String,
    ))
        requires
            old(self).counters().next_event_index < u64::MAX,
            old(self).counters().next_request_index < u64::MAX,
        ensures
            begins_request(r.1@, *old(self), *final(self), descriptor@, r.0@),
    {
        let request_index: u64 = self.counters.next_request_index;
        self.counters.next_request_index = request_index + 1;
        let id = request_id(self.identity.run_id.as_str(), request_index);
        let handle = RawRequestHandle {
            request_index,
            logical_request_id: id,
            descriptor: OwnedRequestDescriptor::own(descriptor),
        };
        let line = self.append(&handle, "request_started", "start", Json::Null);
        (handle, line)
    }

    /// Records that an attempt starts: the line to write.
    pub fn attempt_started(
        &mut self,
        handle: &RawRequestHandle,
        attempt_index: u64,
        identity: Option<&AttemptIdentity>,
    ) -> (line: String)
        requires
            old(self).counters().next_event_index < u64::MAX,
        ensures
            records_attempt_start(
                line@,
                *old(self),
                *final(self),
                handle@,
                attempt_index,
                identity,
            ),
    {
        proof {
            law_events_stand_apart(
                attempt_index,
                Seq::empty(),
                Seq::empty(),
                None,
                None,
                None,
                None,
                None,
                Seq::empty(),
                identity,
            );
            let entries = attempt_started_entries(attempt_index);
            lemma_event_depth(entries);
            lemma_identity_depth(object(entries), identity, 1);
        }
        let fields = with_attempt_identity(attempt_started_fields(attempt_index), identity);
        let suffix = attempt_event_suffix(attempt_index, "start");
        self.append(handle, "attempt_started", suffix.as_str(), fields)
    }

    /// Records that an attempt failed: the line to write.
    pub fn attempt_failed(
        &mut self,
        handle: &RawRequestHandle,
        attempt_index: u64,
        failure_kind: &str,
        failure_reason: &str,
        identity: Option<&AttemptIdentity>,
    ) -> (line: String)
        requires
            old(self).counters().next_event_index < u64::MAX,
        ensures
            records_attempt_failure(
                line@,
                *old(self),
                *final(self),
                handle@,
                attempt_index,
                failure_kind@,
                failure_reason@,
                identity,
            ),
    {
        proof {
            law_events_stand_apart(
                attempt_index,
                failure_kind@,
                failure_reason@,
                None,
                None,
                None,
                None,
                None,
                Seq::empty(),
                identity,
            );
            let entries = attempt_failed_entries(attempt_index, failure_kind@, failure_reason@);
            lemma_event_depth(entries);
            lemma_identity_depth(object(entries), identity, 1);
        }
        let fields = with_attempt_identity(
            attempt_failed_fields(attempt_index, failure_kind, failure_reason),
            identity,
        );
        let suffix = attempt_event_suffix(attempt_index, "failed");
        self.append(handle, "attempt_failed", suffix.as_str(), fields)
    }

    /// Records that a retry is scheduled: the line to write. The wait is missing
    /// where it is not finite.
    pub fn retry_scheduled(
        &mut self,
        handle: &RawRequestHandle,
        attempt_index: u64,
        wait_seconds: Option<Number>,
    ) -> (line: String)
        requires
            old(self).counters().next_event_index < u64::MAX,
        ensures
            records_retry(
                line@,
                *old(self),
                *final(self),
                handle@,
                attempt_index,
                wait_seconds,
            ),
    {
        proof {
            law_events_stand_apart(
                attempt_index,
                Seq::empty(),
                Seq::empty(),
                wait_seconds,
                None,
                None,
                None,
                None,
                Seq::empty(),
                None,
            );
            lemma_event_depth(retry_scheduled_entries(attempt_index, wait_seconds));
        }
        let fields = retry_scheduled_fields(attempt_index, wait_seconds);
        let suffix = attempt_event_suffix(attempt_index, "retry");
        self.append(handle, "retry_scheduled", suffix.as_str(), fields)
    }

    /// Records that a request completed: the line to write. The latency is the
    /// time since the request began, missing where it is not finite.
    pub fn completed(
        &mut self,
        handle: &RawRequestHandle,
        response_id: Option<&str>,
        usage: Option<&TokenUsage>,
        visible_output_tokens: Option<i64>,
        latency_seconds: Option<Number>,
        stop_reason: &str,
        identity: Option<&AttemptIdentity>,
    ) -> (line: String)
        requires
            old(self).counters().next_event_index < u64::MAX,
        ensures
            records_completion(
                line@,
                *old(self),
                *final(self),
                handle@,
                opt_str(response_id),
                usage,
                visible_output_tokens,
                latency_seconds,
                stop_reason@,
                identity,
            ),
    {
        proof {
            law_events_stand_apart(
                0,
                Seq::empty(),
                Seq::empty(),
                None,
                opt_str(response_id),
                usage,
                visible_output_tokens,
                latency_seconds,
                stop_reason@,
                identity,
            );
            let entries = completed_entries(
                opt_str(response_id),
                usage,
                visible_output_tokens,
                latency_seconds,
                stop_reason@,
            );
            lemma_event_depth(entries);
            lemma_identity_depth(object(entries), identity, 1);
        }
        let fields = with_attempt_identity(
            completed_fields(
                response_id,
                usage,
                visible_output_tokens,
                latency_seconds,
                stop_reason,
            ),
            identity,
        );
        self.append(handle, "request_completed", "terminal", fields)
    }

    /// Records that a request failed: the line to write. The latency is the time
    /// since the request began, missing where it is not finite.
    pub fn failed(
        &mut self,
        handle: &RawRequestHandle,
        failure_kind: &str,
        failure_reason: &str,
        latency_seconds: Option<Number>,
        identity: Option<&AttemptIdentity>,
    ) -> (line: String)
        requires
            old(self).counters().next_event_index < u64::MAX,
        ensures
            records_failure(
                line@,
                *old(self),
                *final(self),
                handle@,
                failure_kind@,
                failure_reason@,
                latency_seconds,
                identity,
            ),
    {
        proof {
            law_events_stand_apart(
                0,
                failure_kind@,
                failure_reason@,
                None,
                None,
                None,
                None,
                latency_seconds,
                Seq::empty(),
                identity,
            );
            let entries = failed_entries(failure_kind@, failure_reason@, latency_seconds);
            lemma_event_depth(entries);
            lemma_identity_depth(object(entries), identity, 1);
        }
        let fields = with_attempt_identity(
            failed_fields(failure_kind, failure_reason, latency_seconds),
            identity,
        );
        self.append(handle, "request_failed", "terminal", fields)
    }
}

// ---------------------------------------------------------------------------
// What a configuration opens
// ---------------------------------------------------------------------------

/// A configuration names the run that is recorded exactly where it names a ledger, a
/// run, a task and a replicate, and the run that is recorded is the one that it names.
/// Without a ledger there is nothing to record, and without the rest it is said what is
/// missing first.
pub proof fn law_configuration_names_the_run(config: ContextPolicyConfig)
    ensures
        config.request_raw_log_path is None ==> config_identity(config) == Ok::<
            Option<IdentityView>,
            ErrorView,
        >(None),
        config.request_raw_log_path is Some && config.run_id is None ==> (config_identity(config)
            matches Err(error) && error.kind == ErrorKind::InvalidInput && error.message
            == "request ledger requires run_id"@),
        config.request_raw_log_path is Some && config.run_id is Some && config.task_id is None ==> (
        config_identity(config) matches Err(error) && error.kind == ErrorKind::InvalidInput
            && error.message == "request ledger requires task_id"@),
        config.request_raw_log_path is Some && config.run_id is Some && config.task_id is Some
            && config.replicate_id is None ==> (config_identity(config) matches Err(error)
            && error.kind == ErrorKind::InvalidInput && error.message
            == "request ledger requires replicate_id"@),
        config.request_raw_log_path is Some && config.run_id is Some && config.task_id is Some
            && config.replicate_id is Some ==> (config_identity(config) matches Ok(Some(identity))
            && {
            &&& identity.run_id == config.run_id->0@
            &&& identity.task_id == config.task_id->0@
            &&& identity.replicate_id == config.replicate_id->0
            &&& identity.arm == arm_text(config.mode)
            &&& config.pricing_schedule_id matches Some(id) ==> identity.pricing_schedule_id
                == Some(id@)
            &&& config.pricing_schedule_id is None ==> identity.pricing_schedule_id is None
        }),
{
}

/// A ledger that is opened is the one that the configuration names, for the run that it
/// names, at the indices behind what was read. One that cannot be read is refused with
/// what is wrong with it.
pub proof fn law_opened_ledger_is_the_one_that_is_named(
    r: Result<Option<RawRequestLedger>, PolicyError>,
    config: ContextPolicyConfig,
    content: Option<Seq<char>>,
)
    requires
        opened(r, config, content),
    ensures
        config.request_raw_log_path is None <==> r matches Ok(None),
        r matches Ok(Some(ledger)) ==> {
            &&& config.request_raw_log_path is Some && ledger.path()
                == config.request_raw_log_path->0@
            &&& config.run_id is Some && ledger.identity().run_id == config.run_id->0@
            &&& config.task_id is Some && ledger.identity().task_id == config.task_id->0@
            &&& config.replicate_id is Some && ledger.identity().replicate_id
                == config.replicate_id->0
            &&& ledger.identity().arm == arm_text(config.mode)
            &&& scan_outcome(content, ledger.identity()) matches ScanOutcome::Accepted(scan)
                && ledger.counters() == scan.counters
        },
        r matches Err(error) ==> (config_identity(config) == Err::<Option<IdentityView>, ErrorView>(
            error@,
        ) || (config_identity(config) matches Ok(Some(identity)) && scan_outcome(content, identity)
            == ScanOutcome::Rejected(error@))),
{
}

} // verus!
