//! The client of a policy that runs in a process of its own. Requests and
//! responses are lines of JSON. Whatever goes wrong, the client fails and
//! decides nothing in the policy's place.

use vstd::prelude::*;

use crate::config::ContextPolicyConfig;
use crate::decision::ContextPolicyAction;
use crate::error::{
    infrastructure, infrastructure_error, invalid, invalid_error, ErrorKind, ErrorView,
    PolicyError,
};
use crate::json::{
    all_finite, depth_at_most, field, i64_field, json_text, lemma_same_json_reflexive, max_depth,
    parsed_json, reads_back, same_json, text_field, Json, JsonView, NumberView,
};
use crate::text::{join, opt_text, same_text, texts};

verus! {

/// The version of the protocol that is spoken with the policy process.
pub const PROTOCOL_VERSION: &'static str = "phase8b-v1";

/// How long an exchange waits where the configuration does not say.
pub const DEFAULT_TIMEOUT_MS: u64 = 5_000;

// ---------------------------------------------------------------------------
// Starting the process
// ---------------------------------------------------------------------------

/// How the policy process is started.
#[derive(Debug)]
pub struct BridgeLaunch {
    pub command: String,
    pub args: Vec<String>,
    pub working_directory: Option<String>,
    pub timeout_ms: u64,
}

/// The texts of a list, copied.
fn copy_texts(list: &Vec<String>) -> (r: Vec<String>)
    ensures
        texts(r@) == texts(list@),
{
    let mut copies: Vec<String> = Vec::new();
    for i in 0..list.len()
        invariant
            copies@.len() == i,
            forall|j: int| 0 <= j < i ==> (#[trigger] copies@[j])@ == list@[j]@,
    {
        copies.push(list[i].clone());
    }
    assert(texts(copies@) =~= texts(list@));
    copies
}

/// What a configuration says of how the policy process is started.
pub open spec fn launches(
    r: Result<BridgeLaunch, PolicyError>,
    config: ContextPolicyConfig,
) -> bool {
    match config.bridge_command {
        Some(command) => r matches Ok(launch) && {
            &&& launch.command@ == command@
            &&& texts(launch.args@) == texts(config.bridge_args@)
            &&& opt_text(launch.working_directory) == opt_text(config.bridge_working_directory)
            &&& launch.timeout_ms == (match config.bridge_timeout_ms {
                Some(timeout) => timeout,
                None => DEFAULT_TIMEOUT_MS,
            })
        },
        None => r matches Err(error) && error@ == invalid_error("MPC bridge_command is missing"@),
    }
}

impl BridgeLaunch {
    /// What a configuration says of how the policy process is started.
    pub fn from_config(config: &ContextPolicyConfig) -> (r: Result<BridgeLaunch, PolicyError>)
        ensures
            launches(r, *config),
    {
        match &config.bridge_command {
            Some(command) => Ok(
                BridgeLaunch {
                    command: command.clone(),
                    args: copy_texts(&config.bridge_args),
                    working_directory: config.bridge_working_directory.clone(),
                    timeout_ms: config.bridge_timeout_ms.unwrap_or(DEFAULT_TIMEOUT_MS),
                },
            ),
            None => Err(invalid("MPC bridge_command is missing")),
        }
    }
}

// ---------------------------------------------------------------------------
// Checking a response
// ---------------------------------------------------------------------------

/// The fields in which a response repeats its request, in the order in which
/// they are compared.
pub open spec fn identity_fields() -> Seq<Seq<char>> {
    seq![
        "protocol_version"@,
        "request_id"@,
        "run_id"@,
        "task_id"@,
        "replicate_id"@,
        "thread_id"@,
        "epoch"@,
    ]
}

/// Whether two documents have the same under `key`, or both nothing.
pub open spec fn agree_on(a: JsonView, b: JsonView, key: Seq<char>) -> bool {
    match (field(a, key), field(b, key)) {
        (Some(x), Some(y)) => same_json(x, y),
        (None, None) => true,
        _ => false,
    }
}

/// The first identity field, from the `i`-th on, in which a response does not
/// repeat its request.
pub open spec fn first_mismatch(request: JsonView, response: JsonView, i: int) -> Option<Seq<char>>
    decreases identity_fields().len() - i,
{
    if i < 0 || i >= identity_fields().len() {
        None
    } else if !agree_on(response, request, identity_fields()[i]) {
        Some(identity_fields()[i])
    } else {
        first_mismatch(request, response, i + 1)
    }
}

/// What the policy process says of its own failure.
pub open spec fn reported_failure(response: JsonView) -> Seq<char> {
    let code = match text_field(response, "error_code"@) {
        Some(code) => code,
        None => "unknown"@,
    };
    let message = match text_field(response, "message"@) {
        Some(message) => message,
        None => "bridge rejected request"@,
    };
    code + ": "@ + message
}

/// Why a response is refused, where it is.
pub open spec fn response_complaint(request: JsonView, response: JsonView) -> Option<Seq<char>> {
    if !all_finite(response) {
        Some("non-finite numeric diagnostic"@)
    } else if text_field(response, "type"@) == Some("infrastructure_error"@) {
        Some(reported_failure(response))
    } else {
        match first_mismatch(request, response, 0) {
            Some(key) => Some("response identity mismatch: "@ + key),
            None => None,
        }
    }
}

/// Refuses a document with a number that is not finite.
pub fn validate_finite(value: &Json) -> (r: Result<(), PolicyError>)
    ensures
        match r {
            Ok(()) => all_finite(value@),
            Err(error) => !all_finite(value@) && error@ == infrastructure_error(
                "non-finite numeric diagnostic"@,
            ),
        },
{
    if value.is_finite() {
        Ok(())
    } else {
        Err(infrastructure("non-finite numeric diagnostic"))
    }
}

/// Whether two documents have the same under `key`, or both nothing.
fn fields_agree(a: &Json, b: &Json, key: &str) -> (r: bool)
    ensures
        r == agree_on(a@, b@, key@),
{
    match (a.get(key), b.get(key)) {
        (Some(x), Some(y)) => x.equals(y),
        (None, None) => true,
        _ => false,
    }
}

/// Checks a response against its request.
pub fn check_response(request: &Json, response: &Json) -> (r: Result<(), PolicyError>)
    ensures
        match response_complaint(request@, response@) {
            Some(message) => r matches Err(error) && error@ == infrastructure_error(message),
            None => r is Ok,
        },
{
    match validate_finite(response) {
        Ok(()) => {},
        Err(error) => {
            return Err(error);
        },
    }
    let failed = match response.get_str("type") {
        Some(kind) => same_text(kind, "infrastructure_error"),
        None => false,
    };
    if failed {
        let code = response.get_str("error_code").unwrap_or("unknown");
        let message = response.get_str("message").unwrap_or("bridge rejected request");
        let text = join(join(code, ": ").as_str(), message);
        return Err(infrastructure(text.as_str()));
    }
    let fields = vec![
        "protocol_version",
        "request_id",
        "run_id",
        "task_id",
        "replicate_id",
        "thread_id",
        "epoch",
    ];
    for i in 0..fields.len()
        invariant
            fields@.len() == identity_fields().len(),
            forall|j: int|
                0 <= j < fields@.len() ==> (#[trigger] fields@[j])@ == identity_fields()[j],
            all_finite(response@),
            text_field(response@, "type"@) != Some("infrastructure_error"@),
            first_mismatch(request@, response@, 0) == first_mismatch(request@, response@, i as int),
    {
        if !fields_agree(response, request, fields[i]) {
            let text = join("response identity mismatch: ", fields[i]);
            return Err(infrastructure(text.as_str()));
        }
    }
    Ok(())
}

/// A response that is accepted repeats its request in every identity field and
/// reports no failure.
pub proof fn law_accepted_response_answers_its_request(request: JsonView, response: JsonView)
    requires
        response_complaint(request, response) is None,
    ensures
        all_finite(response),
        text_field(response, "type"@) != Some("infrastructure_error"@),
        forall|i: int|
            0 <= i < identity_fields().len() ==> agree_on(
                response,
                request,
                #[trigger] identity_fields()[i],
            ),
{
    assert forall|i: int| 0 <= i < identity_fields().len() implies agree_on(
        response,
        request,
        #[trigger] identity_fields()[i],
    ) by {
        lemma_no_mismatch(request, response, 0, i);
    }
}

/// A response without a complaint of its own that repeats its request in every
/// identity field is accepted.
pub proof fn law_echoing_response_is_accepted(request: JsonView, response: JsonView)
    requires
        all_finite(response),
        text_field(response, "type"@) != Some("infrastructure_error"@),
        forall|i: int|
            0 <= i < identity_fields().len() ==> field(response, #[trigger] identity_fields()[i])
                == field(request, identity_fields()[i]),
    ensures
        response_complaint(request, response) is None,
{
    lemma_echoes(request, response, 0);
}

/// Where no field from the `i`-th on differs, none is found.
proof fn lemma_echoes(request: JsonView, response: JsonView, i: int)
    requires
        0 <= i <= identity_fields().len(),
        forall|j: int|
            0 <= j < identity_fields().len() ==> field(response, #[trigger] identity_fields()[j])
                == field(request, identity_fields()[j]),
    ensures
        first_mismatch(request, response, i) is None,
    decreases identity_fields().len() - i,
{
    if i < identity_fields().len() {
        let key = identity_fields()[i];
        assert(field(response, key) == field(request, key));
        if let Some(v) = field(response, key) {
            lemma_same_json_reflexive(v);
        }
        lemma_echoes(request, response, i + 1);
    }
}

/// Where no field from the `i`-th on differs, the `j`-th does not.
proof fn lemma_no_mismatch(request: JsonView, response: JsonView, i: int, j: int)
    requires
        0 <= i <= j < identity_fields().len(),
        first_mismatch(request, response, i) is None,
    ensures
        agree_on(response, request, identity_fields()[j]),
    decreases j - i,
{
    if i < j {
        lemma_no_mismatch(request, response, i + 1, j);
    }
}

// ---------------------------------------------------------------------------
// One exchange
// ---------------------------------------------------------------------------

/// How far an exchange has come.
#[derive(Clone, Copy, Debug, PartialEq, Eq, Structural)]
pub enum ExchangeStage {
    /// Whether the process still runs is not known yet.
    CheckingChild,
    /// The request is being written.
    Writing,
    /// The response is awaited.
    Reading,
    /// The exchange is over.
    Finished,
}

/// What happened to an exchange.
#[derive(Debug)]
pub enum ExchangeEvent {
    /// The process still runs.
    ChildRunning,
    /// The process has exited with this status.
    ChildExited(String),
    /// The request is written and flushed.
    Written,
    /// The request could not be written in time.
    WriteTimedOut,
    /// The process has written this line.
    Line(String),
    /// No line came in time.
    ResponseTimedOut,
    /// The process has closed its output.
    OutputClosed,
}

/// What an exchange calls for next.
#[derive(Debug)]
pub enum ExchangeAction {
    /// Write this text to the process and flush it.
    Write(String),
    /// Read one line from the process.
    ReadLine,
    /// The exchange is over, with this response or error.
    Finish(Result<Json, PolicyError>),
}

/// What an action stands for.
pub enum ExchangeActionView {
    Write(Seq<char>),
    ReadLine,
    Finish(Result<JsonView, ErrorView>),
}

impl View for ExchangeAction {
    type V = ExchangeActionView;

    open spec fn view(&self) -> ExchangeActionView {
        match self {
            ExchangeAction::Write(text) => ExchangeActionView::Write(text@),
            ExchangeAction::ReadLine => ExchangeActionView::ReadLine,
            ExchangeAction::Finish(Ok(json)) => ExchangeActionView::Finish(Ok(json@)),
            ExchangeAction::Finish(Err(error)) => ExchangeActionView::Finish(Err(error@)),
        }
    }
}

/// One request and what has become of it.
#[derive(Debug)]
pub struct Exchange {
    request: Json,
    stage: ExchangeStage,
}

/// Whether an event can happen at a stage.
pub open spec fn event_fits(stage: ExchangeStage, event: ExchangeEvent) -> bool {
    match event {
        ExchangeEvent::ChildRunning | ExchangeEvent::ChildExited(_) => stage
            == ExchangeStage::CheckingChild,
        ExchangeEvent::Written | ExchangeEvent::WriteTimedOut => stage == ExchangeStage::Writing,
        ExchangeEvent::Line(_)
        | ExchangeEvent::ResponseTimedOut
        | ExchangeEvent::OutputClosed => stage == ExchangeStage::Reading,
    }
}

/// What becomes of a response that was read: `parsed` is the document or the
/// message of the error that reading the line gave.
pub open spec fn response_outcome(
    request: JsonView,
    parsed: Result<JsonView, Seq<char>>,
) -> Result<JsonView, ErrorView> {
    match parsed {
        Err(message) => Err(infrastructure_error("malformed response JSON: "@ + message)),
        Ok(response) => match response_complaint(request, response) {
            Some(message) => Err(infrastructure_error(message)),
            None => Ok(response),
        },
    }
}

/// What an event calls for.
pub open spec fn exchange_action(request: JsonView, event: ExchangeEvent) -> ExchangeActionView {
    match event {
        ExchangeEvent::ChildRunning => ExchangeActionView::Write(
            json_text(request) + seq!['\n'],
        ),
        ExchangeEvent::ChildExited(status) => ExchangeActionView::Finish(
            Err(infrastructure_error("child exited with "@ + status@)),
        ),
        ExchangeEvent::Written => ExchangeActionView::ReadLine,
        ExchangeEvent::WriteTimedOut => ExchangeActionView::Finish(
            Err(infrastructure_error("write timeout"@)),
        ),
        ExchangeEvent::Line(line) => ExchangeActionView::Finish(
            response_outcome(request, parsed_json(line@)),
        ),
        ExchangeEvent::ResponseTimedOut => ExchangeActionView::Finish(
            Err(infrastructure_error("response timeout"@)),
        ),
        ExchangeEvent::OutputClosed => ExchangeActionView::Finish(
            Err(infrastructure_error("child stdout closed"@)),
        ),
    }
}

/// The stage that an action leads to.
pub open spec fn stage_after(action: ExchangeActionView) -> ExchangeStage {
    match action {
        ExchangeActionView::Write(_) => ExchangeStage::Writing,
        ExchangeActionView::ReadLine => ExchangeStage::Reading,
        ExchangeActionView::Finish(_) => ExchangeStage::Finished,
    }
}

/// Accepts or refuses what reading a response gave.
pub fn accept_response(request: &Json, parsed: Result<Json, String>) -> (r: Result<
    Json,
    PolicyError,
>)
    ensures
        match (r, response_outcome(
            request@,
            match parsed {
                Ok(json) => Ok(json@),
                Err(message) => Err(message@),
            },
        )) {
            (Ok(json), Ok(response)) => json@ == response,
            (Err(error), Err(view)) => error@ == view,
            _ => false,
        },
{
    match parsed {
        Err(message) => {
            let text = join("malformed response JSON: ", message.as_str());
            Err(infrastructure(text.as_str()))
        },
        Ok(response) => match check_response(request, &response) {
            Ok(()) => Ok(response),
            Err(error) => Err(error),
        },
    }
}

impl Exchange {
    /// The document that is sent.
    pub closed spec fn request(&self) -> JsonView {
        self.request@
    }

    /// How far the exchange has come.
    pub closed spec fn stage(&self) -> ExchangeStage {
        self.stage
    }

    /// An exchange that has not begun.
    pub fn new(request: Json) -> (exchange: Exchange)
        ensures
            exchange.request() == request@,
            exchange.stage() == ExchangeStage::CheckingChild,
    {
        Exchange { request, stage: ExchangeStage::CheckingChild }
    }

    /// Takes an event and says what it calls for. What is written is one line. It
    /// holds the request, where the request is not nested too deeply to be read.
    pub fn step(&mut self, event: ExchangeEvent) -> (action: ExchangeAction)
        requires
            event_fits(old(self).stage(), event),
        ensures
            action@ == exchange_action(old(self).request(), event),
            action is Write ==> !json_text(old(self).request()).contains('\n')
                && !json_text(old(self).request()).contains('\r'),
            action is Write && depth_at_most(old(self).request(), max_depth()) ==> reads_back(
                old(self).request(),
            ),
            final(self).stage() == stage_after(action@),
            final(self).request() == old(self).request(),
    {
        let action = match event {
            ExchangeEvent::ChildRunning => {
                let mut line = self.request.to_text();
                line.push('\n');
                assert(line@ =~= json_text(self.request@) + seq!['\n']);
                ExchangeAction::Write(line)
            },
            ExchangeEvent::ChildExited(status) => {
                let text = join("child exited with ", status.as_str());
                ExchangeAction::Finish(Err(infrastructure(text.as_str())))
            },
            ExchangeEvent::Written => ExchangeAction::ReadLine,
            ExchangeEvent::WriteTimedOut => ExchangeAction::Finish(
                Err(infrastructure("write timeout")),
            ),
            ExchangeEvent::Line(line) => ExchangeAction::Finish(
                accept_response(&self.request, Json::parse(line.as_str())),
            ),
            ExchangeEvent::ResponseTimedOut => ExchangeAction::Finish(
                Err(infrastructure("response timeout")),
            ),
            ExchangeEvent::OutputClosed => ExchangeAction::Finish(
                Err(infrastructure("child stdout closed")),
            ),
        };
        self.stage =
        match &action {
            ExchangeAction::Write(_) => ExchangeStage::Writing,
            ExchangeAction::ReadLine => ExchangeStage::Reading,
            ExchangeAction::Finish(_) => ExchangeStage::Finished,
        };
        action
    }
}

/// How many events an exchange has behind it at least.
pub open spec fn stage_rank(stage: ExchangeStage) -> nat {
    match stage {
        ExchangeStage::CheckingChild => 0,
        ExchangeStage::Writing => 1,
        ExchangeStage::Reading => 2,
        ExchangeStage::Finished => 3,
    }
}

/// Every event takes an exchange further, and none happens once it is over. So an
/// exchange writes its request once, reads one line, and ends.
pub proof fn law_exchange_moves_on(
    request: JsonView,
    stage: ExchangeStage,
    event: ExchangeEvent,
)
    requires
        event_fits(stage, event),
    ensures
        stage != ExchangeStage::Finished,
        stage_rank(stage_after(exchange_action(request, event))) > stage_rank(stage),
        exchange_action(request, event) is Write ==> stage == ExchangeStage::CheckingChild,
        exchange_action(request, event) is ReadLine ==> stage == ExchangeStage::Writing,
{
}

/// An exchange ends with a response only where a line came that holds it, and
/// the response answers the request.
pub proof fn law_exchange_fails_closed(request: JsonView, event: ExchangeEvent, response: JsonView)
    requires
        exchange_action(request, event) == ExchangeActionView::Finish(
            Ok::<JsonView, ErrorView>(response),
        ),
    ensures
        event is Line,
        parsed_json(event->Line_0@) == Ok::<JsonView, Seq<char>>(response),
        response_complaint(request, response) is None,
{
}

// ---------------------------------------------------------------------------
// The decision in a response
// ---------------------------------------------------------------------------

/// What the policy process decided. Its diagnostics are carried as they came.
#[derive(Debug)]
pub struct BridgeDecision {
    pub action: Option<ContextPolicyAction>,
    pub predicted: Option<i64>,
    pub mode: String,
    pub diagnostics: Option<Json>,
}

/// What a decision of the policy process stands for.
pub struct BridgeDecisionView {
    pub action: Option<ContextPolicyAction>,
    pub predicted: Option<i64>,
    pub mode: Seq<char>,
    pub diagnostics: Option<JsonView>,
}

/// What an optional document holds.
pub open spec fn opt_json(json: Option<Json>) -> Option<JsonView> {
    match json {
        Some(json) => Some(json@),
        None => None,
    }
}

impl View for BridgeDecision {
    type V = BridgeDecisionView;

    open spec fn view(&self) -> BridgeDecisionView {
        BridgeDecisionView {
            action: self.action,
            predicted: self.predicted,
            mode: self.mode@,
            diagnostics: opt_json(self.diagnostics),
        }
    }
}

/// The action that a response names, `Some(None)` for none in an emergency, and
/// `None` where it names no action that there is.
pub open spec fn named_action(response: JsonView, mode: Seq<char>) -> Option<
    Option<ContextPolicyAction>,
> {
    match field(response, "action"@) {
        Some(JsonView::Text(text)) => if text == "KEEP"@ {
            Some(Some(ContextPolicyAction::Keep))
        } else if text == "COMPACT"@ {
            Some(Some(ContextPolicyAction::Compact))
        } else {
            None
        },
        Some(JsonView::Null) => if mode == "emergency"@ {
            Some(None)
        } else {
            None
        },
        _ => None,
    }
}

/// The length that a response predicts, `Some(None)` where it predicts none, and
/// `None` where what it predicts is no length.
pub open spec fn predicted_length(response: JsonView) -> Option<Option<i64>> {
    match field(response, "predicted_post_compact_L"@) {
        None | Some(JsonView::Null) => Some(None),
        Some(_) => match i64_field(response, "predicted_post_compact_L"@) {
            Some(length) => Some(Some(length)),
            None => None,
        },
    }
}

/// The decision in a response, or why there is none.
pub open spec fn decision_in(response: JsonView) -> Result<BridgeDecisionView, Seq<char>> {
    match text_field(response, "decision_mode"@) {
        None => Err("bridge decision without decision_mode"@),
        Some(mode) => match named_action(response, mode) {
            None => Err("bridge decision without a valid action"@),
            Some(action) => match predicted_length(response) {
                None => Err("bridge decision with an invalid predicted_post_compact_L"@),
                Some(predicted) => if action == Some(ContextPolicyAction::Compact) && predicted
                    is None {
                    Err("bridge decision to compact without predicted_post_compact_L"@)
                } else {
                    Ok(
                        BridgeDecisionView {
                            action,
                            predicted,
                            mode,
                            diagnostics: field(response, "diagnostics"@),
                        },
                    )
                },
            },
        },
    }
}

/// Reads the decision in a response.
pub fn parse_bridge_decision(response: &Json) -> (r: Result<BridgeDecision, PolicyError>)
    ensures
        match decision_in(response@) {
            Ok(decision) => r matches Ok(parsed) && parsed@ == decision,
            Err(message) => r matches Err(error) && error@ == infrastructure_error(message),
        },
{
    let mode = match response.get_str("decision_mode") {
        Some(mode) => mode,
        None => {
            return Err(infrastructure("bridge decision without decision_mode"));
        },
    };
    let action = match response.get("action") {
        Some(Json::Text(text)) => {
            if same_text(text.as_str(), "KEEP") {
                Some(ContextPolicyAction::Keep)
            } else if same_text(text.as_str(), "COMPACT") {
                Some(ContextPolicyAction::Compact)
            } else {
                return Err(infrastructure("bridge decision without a valid action"));
            }
        },
        Some(Json::Null) => {
            if !same_text(mode, "emergency") {
                return Err(infrastructure("bridge decision without a valid action"));
            }
            None
        },
        _ => {
            return Err(infrastructure("bridge decision without a valid action"));
        },
    };
    let predicted: Option<i64> = match response.get("predicted_post_compact_L") {
        None | Some(Json::Null) => None,
        Some(_) => match response.get_i64("predicted_post_compact_L") {
            Some(length) => Some(length),
            None => {
                return Err(
                    infrastructure("bridge decision with an invalid predicted_post_compact_L"),
                );
            },
        },
    };
    if let (Some(ContextPolicyAction::Compact), None) = (action, predicted) {
        return Err(
            infrastructure("bridge decision to compact without predicted_post_compact_L"),
        );
    }
    let diagnostics = match response.get("diagnostics") {
        Some(json) => Some(json.copy()),
        None => None,
    };
    Ok(BridgeDecision { action, predicted, mode: mode.to_owned(), diagnostics })
}

/// A decision to compact has a predicted length, only an emergency has no action,
/// and the diagnostics are those of the response, or none.
pub proof fn law_decision_is_complete(response: JsonView, decision: BridgeDecisionView)
    requires
        decision_in(response) == Ok::<BridgeDecisionView, Seq<char>>(decision),
    ensures
        decision.action == Some(ContextPolicyAction::Compact) ==> decision.predicted is Some,
        decision.action is None ==> decision.mode == "emergency"@,
        decision.diagnostics == field(response, "diagnostics"@),
{
}

/// The diagnostics of a response change nothing in what is decided: they neither
/// save a malformed decision nor spoil a good one.
pub proof fn law_diagnostics_decide_nothing(a: JsonView, b: JsonView)
    requires
        field(a, "decision_mode"@) == field(b, "decision_mode"@),
        field(a, "action"@) == field(b, "action"@),
        field(a, "predicted_post_compact_L"@) == field(b, "predicted_post_compact_L"@),
    ensures
        match (decision_in(a), decision_in(b)) {
            (Ok(x), Ok(y)) => x == (BridgeDecisionView { diagnostics: x.diagnostics, ..y }),
            (Err(x), Err(y)) => x == y,
            _ => false,
        },
{
}

// ---------------------------------------------------------------------------
// What a response must say
// ---------------------------------------------------------------------------

/// A response that is accepted repeats, under each key that identifies the request,
/// exactly the text, the integer, the truth value or the null of the request, and has
/// nothing there where the request has nothing. So a response to another request, of
/// another run or from another epoch is refused.
pub proof fn law_accepted_response_repeats_its_request(
    request: JsonView,
    response: JsonView,
    key: Seq<char>,
    text: Seq<char>,
    integer: int,
    truth: bool,
)
    requires
        response_complaint(request, response) is None,
        key == "protocol_version"@ || key == "request_id"@ || key == "run_id"@ || key == "task_id"@
            || key == "replicate_id"@ || key == "thread_id"@ || key == "epoch"@,
    ensures
        field(response, key) == Some(JsonView::Text(text)) <==> field(request, key) == Some(
            JsonView::Text(text),
        ),
        field(response, key) == Some(JsonView::Number(NumberView::Integer(integer))) <==> field(
            request,
            key,
        ) == Some(JsonView::Number(NumberView::Integer(integer))),
        field(response, key) == Some(JsonView::Bool(truth)) <==> field(request, key) == Some(
            JsonView::Bool(truth),
        ),
        field(response, key) == Some(JsonView::Null) <==> field(request, key) == Some(
            JsonView::Null,
        ),
        field(response, key) is None <==> field(request, key) is None,
        field(response, key) is Some && field(request, key) is Some ==> same_json(
            field(response, key)->0,
            field(request, key)->0,
        ),
{
    law_accepted_response_answers_its_request(request, response);
    assert(identity_fields()[0] == "protocol_version"@);
    assert(agree_on(response, request, identity_fields()[0]));
    assert(identity_fields()[1] == "request_id"@);
    assert(agree_on(response, request, identity_fields()[1]));
    assert(identity_fields()[2] == "run_id"@);
    assert(agree_on(response, request, identity_fields()[2]));
    assert(identity_fields()[3] == "task_id"@);
    assert(agree_on(response, request, identity_fields()[3]));
    assert(identity_fields()[4] == "replicate_id"@);
    assert(agree_on(response, request, identity_fields()[4]));
    assert(identity_fields()[5] == "thread_id"@);
    assert(agree_on(response, request, identity_fields()[5]));
    assert(identity_fields()[6] == "epoch"@);
    assert(agree_on(response, request, identity_fields()[6]));
}

/// A response that has the same under the seven keys that identify the request, holds
/// no number that is not finite and reports no failure, is accepted.
pub proof fn law_response_to_the_request_is_accepted(request: JsonView, response: JsonView)
    requires
        all_finite(response),
        field(response, "type"@) != Some(JsonView::Text("infrastructure_error"@)),
        field(response, "protocol_version"@) == field(request, "protocol_version"@),
        field(response, "request_id"@) == field(request, "request_id"@),
        field(response, "run_id"@) == field(request, "run_id"@),
        field(response, "task_id"@) == field(request, "task_id"@),
        field(response, "replicate_id"@) == field(request, "replicate_id"@),
        field(response, "thread_id"@) == field(request, "thread_id"@),
        field(response, "epoch"@) == field(request, "epoch"@),
    ensures
        response_complaint(request, response) is None,
{
    law_echoing_response_is_accepted(request, response);
}

/// A response that differs from its request is refused with the first key under which
/// it does.
pub proof fn law_mismatch_is_named(request: JsonView, response: JsonView, wanted: JsonView)
    requires
        all_finite(response),
        field(response, "type"@) != Some(JsonView::Text("infrastructure_error"@)),
        wanted is Text || wanted is Bool || wanted is Null || (wanted matches JsonView::Number(
            NumberView::Integer(_),
        )),
    ensures
        ({
            let said = response_complaint(request, response);
            let same_protocol_version = field(response, "protocol_version"@) == field(
                request,
                "protocol_version"@,
            );
            let same_request_id = same_protocol_version && field(response, "request_id"@) == field(
                request,
                "request_id"@,
            );
            let same_run_id = same_request_id && field(response, "run_id"@) == field(
                request,
                "run_id"@,
            );
            let same_task_id = same_run_id && field(response, "task_id"@) == field(
                request,
                "task_id"@,
            );
            let same_replicate_id = same_task_id && field(response, "replicate_id"@) == field(
                request,
                "replicate_id"@,
            );
            let same_thread_id = same_replicate_id && field(response, "thread_id"@) == field(
                request,
                "thread_id"@,
            );
            &&& field(request, "protocol_version"@) == Some(wanted) && field(
                response,
                "protocol_version"@,
            ) != Some(wanted) ==> said == Some("response identity mismatch: "@ + "protocol_version"@)
            &&& same_protocol_version && field(request, "request_id"@) == Some(wanted) && field(
                response,
                "request_id"@,
            ) != Some(wanted) ==> said == Some("response identity mismatch: "@ + "request_id"@)
            &&& same_request_id && field(request, "run_id"@) == Some(wanted) && field(
                response,
                "run_id"@,
            ) != Some(wanted) ==> said == Some("response identity mismatch: "@ + "run_id"@)
            &&& same_run_id && field(request, "task_id"@) == Some(wanted) && field(
                response,
                "task_id"@,
            ) != Some(wanted) ==> said == Some("response identity mismatch: "@ + "task_id"@)
            &&& same_task_id && field(request, "replicate_id"@) == Some(wanted) && field(
                response,
                "replicate_id"@,
            ) != Some(wanted) ==> said == Some("response identity mismatch: "@ + "replicate_id"@)
            &&& same_replicate_id && field(request, "thread_id"@) == Some(wanted) && field(
                response,
                "thread_id"@,
            ) != Some(wanted) ==> said == Some("response identity mismatch: "@ + "thread_id"@)
            &&& same_thread_id && field(request, "epoch"@) == Some(wanted) && field(
                response,
                "epoch"@,
            ) != Some(wanted) ==> said == Some("response identity mismatch: "@ + "epoch"@)
        }),
{
    reveal_with_fuel(first_mismatch, 8);
    assert(identity_fields()[0] == "protocol_version"@);
    assert(identity_fields()[1] == "request_id"@);
    assert(identity_fields()[2] == "run_id"@);
    assert(identity_fields()[3] == "task_id"@);
    assert(identity_fields()[4] == "replicate_id"@);
    assert(identity_fields()[5] == "thread_id"@);
    assert(identity_fields()[6] == "epoch"@);
    if let Some(v) = field(response, "protocol_version"@) {
        lemma_same_json_reflexive(v);
    }
    if let Some(v) = field(response, "request_id"@) {
        lemma_same_json_reflexive(v);
    }
    if let Some(v) = field(response, "run_id"@) {
        lemma_same_json_reflexive(v);
    }
    if let Some(v) = field(response, "task_id"@) {
        lemma_same_json_reflexive(v);
    }
    if let Some(v) = field(response, "replicate_id"@) {
        lemma_same_json_reflexive(v);
    }
    if let Some(v) = field(response, "thread_id"@) {
        lemma_same_json_reflexive(v);
    }
    if let Some(v) = field(response, "epoch"@) {
        lemma_same_json_reflexive(v);
    }
}

/// What is not finite is refused before anything else, and a failure that is reported
/// before any mismatch, with its code and its message.
pub proof fn law_failures_come_first(
    request: JsonView,
    response: JsonView,
    code: Seq<char>,
    message: Seq<char>,
)
    ensures
        !all_finite(response) ==> response_complaint(request, response) == Some(
            "non-finite numeric diagnostic"@,
        ),
        all_finite(response) && field(response, "type"@) == Some(
            JsonView::Text("infrastructure_error"@),
        ) ==> {
            let said = response_complaint(request, response);
            let coded = field(response, "error_code"@) == Some(JsonView::Text(code));
            let uncoded = !(field(response, "error_code"@) matches Some(JsonView::Text(_)));
            let worded = field(response, "message"@) == Some(JsonView::Text(message));
            let unworded = !(field(response, "message"@) matches Some(JsonView::Text(_)));
            &&& coded && worded ==> said == Some(code + ": "@ + message)
            &&& uncoded && worded ==> said == Some("unknown"@ + ": "@ + message)
            &&& coded && unworded ==> said == Some(code + ": "@ + "bridge rejected request"@)
            &&& uncoded && unworded ==> said == Some(
                "unknown"@ + ": "@ + "bridge rejected request"@,
            )
        },
{
}

/// A line that holds no JSON, or a response that is refused, is a failure of the policy
/// process that says why. A response that is accepted is handed on as it is.
pub proof fn law_response_is_handed_on_or_refused(
    request: JsonView,
    response: JsonView,
    message: Seq<char>,
)
    ensures
        response_complaint(request, response) is None ==> response_outcome(request, Ok(response))
            == Ok::<JsonView, ErrorView>(response),
        response_complaint(request, response) == Some(message) ==> (response_outcome(
            request,
            Ok(response),
        ) matches Err(error) && error.kind == ErrorKind::Other && error.message
            == "context policy infrastructure failure: "@ + message),
        response_outcome(request, Err(message)) matches Err(error) && error.kind == ErrorKind::Other
            && error.message == "context policy infrastructure failure: "@ + (
        "malformed response JSON: "@ + message),
{
}

/// What each event of an exchange calls for: a running process gets the request as one
/// line, a written request is followed by reading one line, a line is judged, and all
/// else ends the exchange with a failure that says what happened.
pub proof fn law_events_call_for_their_actions(request: JsonView, status: String, line: String)
    ensures
        exchange_action(request, ExchangeEvent::ChildRunning) == ExchangeActionView::Write(
            json_text(request) + seq!['\n'],
        ),
        exchange_action(request, ExchangeEvent::Written) == ExchangeActionView::ReadLine,
        exchange_action(request, ExchangeEvent::Line(line)) == ExchangeActionView::Finish(
            response_outcome(request, parsed_json(line@)),
        ),
        exchange_action(request, ExchangeEvent::ChildExited(status))
            matches ExchangeActionView::Finish(Err(error)) && error.kind == ErrorKind::Other
            && error.message == "context policy infrastructure failure: "@ + (
        "child exited with "@ + status@),
        exchange_action(request, ExchangeEvent::WriteTimedOut) matches ExchangeActionView::Finish(
            Err(error),
        ) && error.kind == ErrorKind::Other && error.message
            == "context policy infrastructure failure: "@ + "write timeout"@,
        exchange_action(request, ExchangeEvent::ResponseTimedOut)
            matches ExchangeActionView::Finish(Err(error)) && error.kind == ErrorKind::Other
            && error.message == "context policy infrastructure failure: "@ + "response timeout"@,
        exchange_action(request, ExchangeEvent::OutputClosed) matches ExchangeActionView::Finish(
            Err(error),
        ) && error.kind == ErrorKind::Other && error.message
            == "context policy infrastructure failure: "@ + "child stdout closed"@,
{
}

/// Which events each stage of an exchange can meet, and what the stages lead to.
pub proof fn law_stages_meet_their_events(status: String, line: String, text: Seq<char>)
    ensures
        event_fits(ExchangeStage::CheckingChild, ExchangeEvent::ChildRunning),
        event_fits(ExchangeStage::CheckingChild, ExchangeEvent::ChildExited(status)),
        event_fits(ExchangeStage::Writing, ExchangeEvent::Written),
        event_fits(ExchangeStage::Writing, ExchangeEvent::WriteTimedOut),
        event_fits(ExchangeStage::Reading, ExchangeEvent::Line(line)),
        event_fits(ExchangeStage::Reading, ExchangeEvent::ResponseTimedOut),
        event_fits(ExchangeStage::Reading, ExchangeEvent::OutputClosed),
        stage_after(ExchangeActionView::Write(text)) == ExchangeStage::Writing,
        stage_after(ExchangeActionView::ReadLine) == ExchangeStage::Reading,
{
}

/// An action stands for what it carries.
pub proof fn law_action_view_is_the_action(text: String, json: Json, error: PolicyError)
    ensures
        ExchangeAction::Write(text)@ == ExchangeActionView::Write(text@),
        ExchangeAction::ReadLine@ == ExchangeActionView::ReadLine,
        ExchangeAction::Finish(Ok(json))@ == ExchangeActionView::Finish(
            Ok::<JsonView, ErrorView>(json@),
        ),
        ExchangeAction::Finish(Err(error))@ == ExchangeActionView::Finish(
            Err::<JsonView, ErrorView>(error@),
        ),
{
}

/// A response decides exactly where it names its mode, an action, and a length that is
/// an integer or missing: keeping needs no length, compacting needs one, and no action
/// at all is for an emergency.
pub proof fn law_response_decides_exactly(response: JsonView)
    ensures
        decision_in(response) is Ok <==> {
            let mode = field(response, "decision_mode"@);
            let action = field(response, "action"@);
            let length = field(response, "predicted_post_compact_L"@);
            let missing = length is None || length == Some(JsonView::Null);
            let given = length matches Some(JsonView::Number(NumberView::Integer(n))) && i64::MIN
                <= n <= i64::MAX;
            &&& mode matches Some(JsonView::Text(_))
            &&& {
                ||| action == Some(JsonView::Text("KEEP"@)) && (missing || given)
                ||| action == Some(JsonView::Text("COMPACT"@)) && given
                ||| action == Some(JsonView::Null) && mode == Some(JsonView::Text("emergency"@))
                    && (missing || given)
            }
        },
{
    reveal_strlit("KEEP");
    reveal_strlit("COMPACT");
    assert("KEEP"@.len() == 4 && "COMPACT"@.len() == 7);
}

/// What is decided is what the response says: its mode, the action that it names, the
/// length that it predicts, and its diagnostics.
pub proof fn law_decision_is_what_the_response_says(
    response: JsonView,
    decision: BridgeDecisionView,
    length: i64,
)
    requires
        decision_in(response) == Ok::<BridgeDecisionView, Seq<char>>(decision),
    ensures
        field(response, "decision_mode"@) == Some(JsonView::Text(decision.mode)),
        decision.action == Some(ContextPolicyAction::Keep) <==> field(response, "action"@) == Some(
            JsonView::Text("KEEP"@),
        ),
        decision.action == Some(ContextPolicyAction::Compact) <==> field(response, "action"@)
            == Some(JsonView::Text("COMPACT"@)),
        decision.action is None <==> field(response, "action"@) == Some(JsonView::Null),
        decision.predicted == Some(length) <==> field(response, "predicted_post_compact_L"@)
            == Some(JsonView::Number(NumberView::Integer(length as int))),
        decision.predicted is None <==> field(response, "predicted_post_compact_L"@) is None
            || field(response, "predicted_post_compact_L"@) == Some(JsonView::Null),
        decision.diagnostics == field(response, "diagnostics"@),
{
    reveal_strlit("KEEP");
    reveal_strlit("COMPACT");
    assert("KEEP"@.len() == 4 && "COMPACT"@.len() == 7);
}

/// Why a response does not decide: it names no mode, else no action, else a length that
/// is none, else it would compact without a length.
pub proof fn law_undecided_response_says_why(response: JsonView)
    ensures
        ({
            let mode = field(response, "decision_mode"@);
            let action = field(response, "action"@);
            let length = field(response, "predicted_post_compact_L"@);
            let moded = mode matches Some(JsonView::Text(_));
            let acts = action == Some(JsonView::Text("KEEP"@)) || action == Some(
                JsonView::Text("COMPACT"@),
            ) || (action == Some(JsonView::Null) && mode == Some(JsonView::Text("emergency"@)));
            let missing = length is None || length == Some(JsonView::Null);
            let given = length matches Some(JsonView::Number(NumberView::Integer(n))) && i64::MIN
                <= n <= i64::MAX;
            &&& !moded ==> decision_in(response) == Err::<BridgeDecisionView, Seq<char>>(
                "bridge decision without decision_mode"@,
            )
            &&& moded && !acts ==> decision_in(response) == Err::<BridgeDecisionView, Seq<char>>(
                "bridge decision without a valid action"@,
            )
            &&& moded && acts && !missing && !given ==> decision_in(response) == Err::<
                BridgeDecisionView,
                Seq<char>,
            >("bridge decision with an invalid predicted_post_compact_L"@)
            &&& moded && action == Some(JsonView::Text("COMPACT"@)) && missing ==> decision_in(
                response,
            ) == Err::<BridgeDecisionView, Seq<char>>(
                "bridge decision to compact without predicted_post_compact_L"@,
            )
        }),
{
    reveal_strlit("KEEP");
    reveal_strlit("COMPACT");
    assert("KEEP"@.len() == 4 && "COMPACT"@.len() == 7);
}

/// A decision stands for its parts, and a document that may be missing for what it
/// holds.
pub proof fn law_decision_view_is_the_decision(decision: BridgeDecision, json: Json)
    ensures
        decision@.action == decision.action,
        decision@.predicted == decision.predicted,
        decision@.mode == decision.mode@,
        decision.diagnostics matches Some(diagnostics) ==> decision@.diagnostics == Some(
            diagnostics@,
        ),
        decision.diagnostics is None ==> decision@.diagnostics is None,
        opt_json(Some(json)) == Some(json@),
        opt_json(None) is None,
{
}

/// The version of the protocol and how long an exchange waits.
pub proof fn law_protocol_is_fixed()
    ensures
        PROTOCOL_VERSION@ == "phase8b-v1"@,
        DEFAULT_TIMEOUT_MS == 5_000,
{
}

/// The policy process is started exactly where a command is configured: with that
/// command, the configured arguments in their order, in the configured directory, and
/// with the configured time limit or five seconds.
pub proof fn law_process_is_started_as_configured(
    r: Result<BridgeLaunch, PolicyError>,
    config: ContextPolicyConfig,
    i: int,
)
    requires
        launches(r, config),
    ensures
        r is Ok <==> config.bridge_command is Some,
        r matches Err(error) ==> error.kind == ErrorKind::InvalidInput && error.message@
            == "MPC bridge_command is missing"@,
        r matches Ok(launch) ==> {
            &&& launch.command@ == config.bridge_command->0@
            &&& launch.args@.len() == config.bridge_args@.len()
            &&& 0 <= i < launch.args@.len() ==> launch.args@[i]@ == config.bridge_args@[i]@
            &&& launch.working_directory is Some <==> config.bridge_working_directory is Some
            &&& config.bridge_working_directory is Some ==> launch.working_directory->0@
                == config.bridge_working_directory->0@
            &&& config.bridge_timeout_ms is Some ==> launch.timeout_ms
                == config.bridge_timeout_ms->0
            &&& config.bridge_timeout_ms is None ==> launch.timeout_ms == 5_000
        },
{
    if let Ok(launch) = r {
        assert(texts(launch.args@).len() == texts(config.bridge_args@).len());
        if 0 <= i < launch.args@.len() {
            assert(texts(launch.args@)[i] == texts(config.bridge_args@)[i]);
        }
    }
}

} // verus!
