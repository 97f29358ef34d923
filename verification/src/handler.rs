//! The daemon's handling of one request. Answering a request takes calls
//! into the connected Crazyflie (reading the parameter table, reading and
//! writing parameters, stopping and starting log blocks); the handler is a
//! state machine that names the next call as a `Step`, takes its `Outcome`
//! back, and ends with exactly one `Step::Reply`.
use vstd::prelude::*;
use vstd::pervasive::unreached;
use crate::protocol::{
    strings_view, LogVarInfo, LogVarInfoView, ParamInfo, ParamInfoView, Request, RequestView,
    Response, ResponseView,
};
use crate::text::{parse_integer_spec, IntErrorKind};
use crate::value::{format_value, format_value_type, parse_integer_value, parse_value_spec, Value, ValueType};

verus! {

/// What the daemon knows of its own connection.
pub struct SessionInfo {
    pub uri: String,
    pub firmware_version: String,
}

/// The next thing to do for a request.
#[derive(Debug)]
pub enum Step {
    /// Send this response; when `shutdown` holds, stop the daemon afterwards.
    Reply { response: Response, shutdown: bool },
    /// List the names of all parameters; answer with `Outcome::Names`.
    ParamNames,
    /// Look up the type of a parameter; answer with `Outcome::Type`.
    ParamType { name: String },
    /// Look up whether a parameter is writable; answer with `Outcome::Writable`.
    ParamWritable { name: String },
    /// Read a parameter's value; answer with `Outcome::Read`.
    ParamRead { name: String },
    /// Write an integer value to a parameter; answer with `Outcome::Done`.
    ParamWrite { name: String, value: Value },
    /// Parse `text` as a float of `value_type` and write it to the parameter;
    /// answer with `Outcome::Done` (a parse failure is an error outcome).
    ParamWriteFloat { name: String, value_type: ValueType, text: String },
    /// List the names of all log variables; answer with `Outcome::Names`.
    LogNames,
    /// Look up the type of a log variable; answer with `Outcome::Type`.
    LogType { name: String },
    /// Stop the active log block, if any, and wait until it is gone; answer
    /// with `Outcome::Done`.
    LogStop,
    /// Create a log block with these variables at this period and start it;
    /// answer with `Outcome::Done`.
    LogStart { variables: Vec<String>, period_ms: u64 },
}

pub enum StepView {
    Reply { response: ResponseView, shutdown: bool },
    ParamNames,
    ParamType { name: Seq<char> },
    ParamWritable { name: Seq<char> },
    ParamRead { name: Seq<char> },
    ParamWrite { name: Seq<char>, value: Value },
    ParamWriteFloat { name: Seq<char>, value_type: ValueType, text: Seq<char> },
    LogNames,
    LogType { name: Seq<char> },
    LogStop,
    LogStart { variables: Seq<Seq<char>>, period_ms: u64 },
}

impl View for Step {
    type V = StepView;

    open spec fn view(&self) -> StepView {
        match self {
            Step::Reply { response, shutdown } => StepView::Reply {
                response: response@,
                shutdown: *shutdown,
            },
            Step::ParamNames => StepView::ParamNames,
            Step::ParamType { name } => StepView::ParamType { name: name@ },
            Step::ParamWritable { name } => StepView::ParamWritable { name: name@ },
            Step::ParamRead { name } => StepView::ParamRead { name: name@ },
            Step::ParamWrite { name, value } => StepView::ParamWrite { name: name@, value: *value },
            Step::ParamWriteFloat { name, value_type, text } => StepView::ParamWriteFloat {
                name: name@,
                value_type: *value_type,
                text: text@,
            },
            Step::LogNames => StepView::LogNames,
            Step::LogType { name } => StepView::LogType { name: name@ },
            Step::LogStop => StepView::LogStop,
            Step::LogStart { variables, period_ms } => StepView::LogStart {
                variables: strings_view(variables@),
                period_ms: *period_ms,
            },
        }
    }
}

/// The outcome of the call that a `Step` named; errors carry their message.
#[derive(Debug)]
pub enum Outcome {
    Names { names: Vec<String> },
    Type { result: Result<ValueType, String> },
    Writable { result: Result<bool, String> },
    Read { result: Result<Value, String> },
    Done { result: Result<(), String> },
}

pub enum OutcomeView {
    Names { names: Seq<Seq<char>> },
    Type { result: Result<ValueType, Seq<char>> },
    Writable { result: Result<bool, Seq<char>> },
    Read { result: Result<Value, Seq<char>> },
    Done { result: Result<(), Seq<char>> },
}

pub open spec fn error_view<T>(r: Result<T, String>) -> Result<T, Seq<char>> {
    match r {
        Ok(t) => Ok(t),
        Err(e) => Err(e@),
    }
}

impl View for Outcome {
    type V = OutcomeView;

    open spec fn view(&self) -> OutcomeView {
        match self {
            Outcome::Names { names } => OutcomeView::Names { names: strings_view(names@) },
            Outcome::Type { result } => OutcomeView::Type { result: error_view(*result) },
            Outcome::Writable { result } => OutcomeView::Writable { result: error_view(*result) },
            Outcome::Read { result } => OutcomeView::Read { result: error_view(*result) },
            Outcome::Done { result } => OutcomeView::Done { result: error_view(*result) },
        }
    }
}

/// Where the handling of a request stands, and what it waits for.
pub enum Phase {
    Finished,
    ParamListNames,
    ParamListType { names: Vec<String>, index: usize, params: Vec<ParamInfo> },
    ParamListWritable {
        names: Vec<String>,
        index: usize,
        params: Vec<ParamInfo>,
        value_type: String,
    },
    ParamListRead {
        names: Vec<String>,
        index: usize,
        params: Vec<ParamInfo>,
        value_type: String,
        access: String,
    },
    ParamGet { name: String },
    ParamSetWritable { name: String, value: String },
    ParamSetType { name: String, value: String },
    ParamSetWrite { name: String, value: String },
    LogListNames,
    LogListType { names: Vec<String>, index: usize, variables: Vec<LogVarInfo> },
    LogStartStop { variables: Vec<String>, period_ms: u64 },
    LogStartStart,
    LogStopStop,
}

pub enum PhaseView {
    Finished,
    ParamListNames,
    ParamListType { names: Seq<Seq<char>>, index: nat, params: Seq<ParamInfoView> },
    ParamListWritable {
        names: Seq<Seq<char>>,
        index: nat,
        params: Seq<ParamInfoView>,
        value_type: Seq<char>,
    },
    ParamListRead {
        names: Seq<Seq<char>>,
        index: nat,
        params: Seq<ParamInfoView>,
        value_type: Seq<char>,
        access: Seq<char>,
    },
    ParamGet { name: Seq<char> },
    ParamSetWritable { name: Seq<char>, value: Seq<char> },
    ParamSetType { name: Seq<char>, value: Seq<char> },
    ParamSetWrite { name: Seq<char>, value: Seq<char> },
    LogListNames,
    LogListType { names: Seq<Seq<char>>, index: nat, variables: Seq<LogVarInfoView> },
    LogStartStop { variables: Seq<Seq<char>>, period_ms: u64 },
    LogStartStart,
    LogStopStop,
}

pub open spec fn params_view(v: Seq<ParamInfo>) -> Seq<ParamInfoView> {
    v.map_values(|p: ParamInfo| p@)
}

pub open spec fn log_vars_view(v: Seq<LogVarInfo>) -> Seq<LogVarInfoView> {
    v.map_values(|p: LogVarInfo| p@)
}

impl View for Phase {
    type V = PhaseView;

    open spec fn view(&self) -> PhaseView {
        match self {
            Phase::Finished => PhaseView::Finished,
            Phase::ParamListNames => PhaseView::ParamListNames,
            Phase::ParamListType { names, index, params } => PhaseView::ParamListType {
                names: strings_view(names@),
                index: *index as nat,
                params: params_view(params@),
            },
            Phase::ParamListWritable { names, index, params, value_type } =>
                PhaseView::ParamListWritable {
                    names: strings_view(names@),
                    index: *index as nat,
                    params: params_view(params@),
                    value_type: value_type@,
                },
            Phase::ParamListRead { names, index, params, value_type, access } =>
                PhaseView::ParamListRead {
                    names: strings_view(names@),
                    index: *index as nat,
                    params: params_view(params@),
                    value_type: value_type@,
                    access: access@,
                },
            Phase::ParamGet { name } => PhaseView::ParamGet { name: name@ },
            Phase::ParamSetWritable { name, value } => PhaseView::ParamSetWritable {
                name: name@,
                value: value@,
            },
            Phase::ParamSetType { name, value } => PhaseView::ParamSetType {
                name: name@,
                value: value@,
            },
            Phase::ParamSetWrite { name, value } => PhaseView::ParamSetWrite {
                name: name@,
                value: value@,
            },
            Phase::LogListNames => PhaseView::LogListNames,
            Phase::LogListType { names, index, variables } => PhaseView::LogListType {
                names: strings_view(names@),
                index: *index as nat,
                variables: log_vars_view(variables@),
            },
            Phase::LogStartStop { variables, period_ms } => PhaseView::LogStartStop {
                variables: strings_view(variables@),
                period_ms: *period_ms,
            },
            Phase::LogStartStart => PhaseView::LogStartStart,
            Phase::LogStopStop => PhaseView::LogStopStop,
        }
    }
}

// ---------------------------------------------------------------------------
// The specification of request handling.
// ---------------------------------------------------------------------------

/// Log period for a requested rate: 1000 / rate milliseconds, held within
/// the 10..=2550 ms that a log block accepts; 100 ms for a rate of zero.
pub open spec fn log_period_spec(rate_hz: u64) -> u64 {
    if rate_hz == 0 {
        100
    } else {
        let p = 1000u64 / rate_hz;
        if p < 10 {
            10
        } else if p > 2550 {
            2550
        } else {
            p
        }
    }
}

pub open spec fn reply(response: ResponseView) -> StepView {
    StepView::Reply { response, shutdown: false }
}

pub open spec fn error_reply(message: Seq<char>) -> StepView {
    reply(ResponseView::Error { message })
}

pub open spec fn success_reply(message: Seq<char>) -> StepView {
    reply(ResponseView::Success { message })
}

pub open spec fn access_label(writable: bool) -> Seq<char> {
    if writable {
        "rw"@
    } else {
        "ro"@
    }
}

/// How the handling of `request` starts.
pub open spec fn start_spec(request: RequestView, uri: Seq<char>, firmware: Seq<char>) -> (
    PhaseView,
    StepView,
) {
    match request {
        RequestView::Stop => (
            PhaseView::Finished,
            StepView::Reply { response: ResponseView::Success { message: "stopping"@ }, shutdown: true },
        ),
        RequestView::Status => (
            PhaseView::Finished,
            reply(ResponseView::Status { connected: true, uri, firmware_version: Some(firmware) }),
        ),
        RequestView::ParamList => (PhaseView::ParamListNames, StepView::ParamNames),
        RequestView::ParamGet { name } => (PhaseView::ParamGet { name }, StepView::ParamRead { name }),
        RequestView::ParamSet { name, value } => (
            PhaseView::ParamSetWritable { name, value },
            StepView::ParamWritable { name },
        ),
        RequestView::LogList => (PhaseView::LogListNames, StepView::LogNames),
        RequestView::LogStart { variables, rate_hz } => (
            PhaseView::LogStartStop { variables, period_ms: log_period_spec(rate_hz) },
            StepView::LogStop,
        ),
        RequestView::LogStop => (PhaseView::LogStopStop, StepView::LogStop),
    }
}

/// Whether `outcome` is the kind of answer that `phase` waits for.
pub open spec fn accepts_spec(phase: PhaseView, outcome: OutcomeView) -> bool {
    match phase {
        PhaseView::Finished => false,
        PhaseView::ParamListNames | PhaseView::LogListNames => outcome is Names,
        PhaseView::ParamListType { .. } | PhaseView::ParamSetType { .. }
        | PhaseView::LogListType { .. } => outcome is Type,
        PhaseView::ParamListWritable { .. } | PhaseView::ParamSetWritable { .. } => outcome is Writable,
        PhaseView::ParamListRead { .. } | PhaseView::ParamGet { .. } => outcome is Read,
        PhaseView::ParamSetWrite { .. } | PhaseView::LogStartStop { .. } | PhaseView::LogStartStart
        | PhaseView::LogStopStop => outcome is Done,
    }
}

/// Invariant of the listing phases: the entries gathered so far describe
/// the first `index` names, in order, and `index` points into the names.
pub open spec fn phase_wf(phase: PhaseView) -> bool {
    match phase {
        PhaseView::ParamListType { names, index, params } => list_prefix_wf(names, index, params),
        PhaseView::ParamListWritable { names, index, params, .. } => list_prefix_wf(
            names,
            index,
            params,
        ),
        PhaseView::ParamListRead { names, index, params, .. } => list_prefix_wf(names, index, params),
        PhaseView::LogListType { names, index, variables } => {
            &&& index < names.len()
            &&& variables.len() == index
            &&& forall|k: int| 0 <= k < index ==> #[trigger] variables[k].name == names[k]
        },
        _ => true,
    }
}

pub open spec fn list_prefix_wf(names: Seq<Seq<char>>, index: nat, params: Seq<ParamInfoView>) -> bool {
    &&& index < names.len()
    &&& params.len() == index
    &&& forall|k: int| 0 <= k < index ==> #[trigger] params[k].name == names[k]
}

/// After a parameter's entry is complete: go on with the next name, or
/// reply with the whole list.
pub open spec fn param_list_next(names: Seq<Seq<char>>, index: nat, params: Seq<ParamInfoView>) -> (
    PhaseView,
    StepView,
) {
    if index < names.len() - 1 {
        (
            PhaseView::ParamListType { names, index: index + 1, params },
            StepView::ParamType { name: names[index + 1 as int] },
        )
    } else {
        (PhaseView::Finished, reply(ResponseView::ParamList { params }))
    }
}

/// After a log variable's entry is complete: go on with the next name, or
/// reply with the whole list.
pub open spec fn log_list_next(names: Seq<Seq<char>>, index: nat, variables: Seq<LogVarInfoView>) -> (
    PhaseView,
    StepView,
) {
    if index < names.len() - 1 {
        (
            PhaseView::LogListType { names, index: index + 1, variables },
            StepView::LogType { name: names[index + 1 as int] },
        )
    } else {
        (PhaseView::Finished, reply(ResponseView::LogList { variables }))
    }
}

/// How the handling goes on from `phase` once `outcome` is known.
pub open spec fn resume_spec(phase: PhaseView, outcome: OutcomeView) -> (PhaseView, StepView) {
    match (phase, outcome) {
        (PhaseView::ParamListNames, OutcomeView::Names { names }) => if names.len() == 0 {
            (PhaseView::Finished, reply(ResponseView::ParamList { params: seq![] }))
        } else {
            (
                PhaseView::ParamListType { names, index: 0, params: seq![] },
                StepView::ParamType { name: names[0] },
            )
        },
        (PhaseView::ParamListType { names, index, params }, OutcomeView::Type { result }) =>
            match result {
            Ok(t) => (
                PhaseView::ParamListWritable { names, index, params, value_type: t.label() },
                StepView::ParamWritable { name: names[index as int] },
            ),
            Err(e) => (
                PhaseView::Finished,
                error_reply("param type error for "@ + names[index as int] + ": "@ + e),
            ),
        },
        (
            PhaseView::ParamListWritable { names, index, params, value_type },
            OutcomeView::Writable { result },
        ) => match result {
            Ok(w) => (
                PhaseView::ParamListRead {
                    names,
                    index,
                    params,
                    value_type,
                    access: access_label(w),
                },
                StepView::ParamRead { name: names[index as int] },
            ),
            Err(e) => (
                PhaseView::Finished,
                error_reply("param access error for "@ + names[index as int] + ": "@ + e),
            ),
        },
        (
            PhaseView::ParamListRead { names, index, params, value_type, access },
            OutcomeView::Read { result },
        ) => match result {
            Ok(v) => param_list_next(
                names,
                index,
                params.push(
                    ParamInfoView { name: names[index as int], value_type, access, value: v.text() },
                ),
            ),
            Err(e) => (
                PhaseView::Finished,
                error_reply("param get error for "@ + names[index as int] + ": "@ + e),
            ),
        },
        (PhaseView::ParamGet { name }, OutcomeView::Read { result }) => match result {
            Ok(v) => (PhaseView::Finished, reply(ResponseView::ParamValue { name, value: v.text() })),
            Err(e) => (PhaseView::Finished, error_reply("param get error: "@ + e)),
        },
        (PhaseView::ParamSetWritable { name, value }, OutcomeView::Writable { result }) =>
            match result {
            Ok(true) => (PhaseView::ParamSetType { name, value }, StepView::ParamType { name }),
            Ok(false) => (
                PhaseView::Finished,
                error_reply("param set error: "@ + name + " is read-only"@),
            ),
            Err(e) => (PhaseView::Finished, error_reply("param set error: "@ + e)),
        },
        (PhaseView::ParamSetType { name, value }, OutcomeView::Type { result }) => match result {
            Ok(t) => if t.is_integer() {
                match parse_value_spec(t, value) {
                    Ok(v) => (PhaseView::ParamSetWrite { name, value }, StepView::ParamWrite { name, value: v }),
                    Err(k) => (PhaseView::Finished, error_reply("param set error: "@ + k.description_spec())),
                }
            } else {
                (
                    PhaseView::ParamSetWrite { name, value },
                    StepView::ParamWriteFloat { name, value_type: t, text: value },
                )
            },
            Err(e) => (PhaseView::Finished, error_reply("param set error: "@ + e)),
        },
        (PhaseView::ParamSetWrite { name, value }, OutcomeView::Done { result }) => match result {
            Ok(_) => (PhaseView::Finished, success_reply("set "@ + name + " = "@ + value)),
            Err(e) => (PhaseView::Finished, error_reply("param set error: "@ + e)),
        },
        (PhaseView::LogListNames, OutcomeView::Names { names }) => if names.len() == 0 {
            (PhaseView::Finished, reply(ResponseView::LogList { variables: seq![] }))
        } else {
            (
                PhaseView::LogListType { names, index: 0, variables: seq![] },
                StepView::LogType { name: names[0] },
            )
        },
        (PhaseView::LogListType { names, index, variables }, OutcomeView::Type { result }) => {
            let label = match result {
                Ok(t) => t.label(),
                Err(_) => "unknown"@,
            };
            log_list_next(
                names,
                index,
                variables.push(LogVarInfoView { name: names[index as int], value_type: label }),
            )
        },
        (PhaseView::LogStartStop { variables, period_ms }, OutcomeView::Done { .. }) => (
            PhaseView::LogStartStart,
            StepView::LogStart { variables, period_ms },
        ),
        (PhaseView::LogStartStart, OutcomeView::Done { result }) => match result {
            Ok(_) => (PhaseView::Finished, success_reply("log started"@)),
            Err(e) => (PhaseView::Finished, error_reply("log start error: "@ + e)),
        },
        (PhaseView::LogStopStop, OutcomeView::Done { .. }) => (
            PhaseView::Finished,
            success_reply("log stopped"@),
        ),
        _ => (phase, StepView::LogStop),
    }
}


// ---------------------------------------------------------------------------
// The handler.
// ---------------------------------------------------------------------------

fn join2(a: &str, b: &str) -> (s: String)
    ensures
        s@ == a@ + b@,
{
    let mut s = String::from_str(a);
    s.append(b);
    s
}

fn join3(a: &str, b: &str, c: &str) -> (s: String)
    ensures
        s@ == a@ + b@ + c@,
{
    let mut s = join2(a, b);
    s.append(c);
    s
}

fn join4(a: &str, b: &str, c: &str, d: &str) -> (s: String)
    ensures
        s@ == a@ + b@ + c@ + d@,
{
    let mut s = join3(a, b, c);
    s.append(d);
    s
}

fn error_step(message: String) -> (s: Step)
    ensures
        s@ == error_reply(message@),
{
    Step::Reply { response: Response::Error { message }, shutdown: false }
}

fn success_step(message: String) -> (s: Step)
    ensures
        s@ == success_reply(message@),
{
    Step::Reply { response: Response::Success { message }, shutdown: false }
}

/// Log period for a requested rate (see `log_period_spec`).
pub fn log_period_ms(rate_hz: u64) -> (p: u64)
    ensures
        p == log_period_spec(rate_hz),
{
    if rate_hz == 0 {
        100
    } else {
        let p = 1000 / rate_hz;
        if p < 10 {
            10
        } else if p > 2550 {
            2550
        } else {
            p
        }
    }
}

/// The handling of one request.
pub struct RequestHandler {
    phase: Phase,
}

impl View for RequestHandler {
    type V = PhaseView;

    closed spec fn view(&self) -> PhaseView {
        self.phase@
    }
}

impl RequestHandler {
    /// Starts handling `request` for the session `session`.
    pub fn start(request: Request, session: &SessionInfo) -> (r: (RequestHandler, Step))
        ensures
            (r.0@, r.1@) == start_spec(request@, session.uri@, session.firmware_version@),
            phase_wf(r.0@),
    {
        let (phase, step) = match request {
            Request::Stop => (
                Phase::Finished,
                Step::Reply {
                    response: Response::Success { message: String::from_str("stopping") },
                    shutdown: true,
                },
            ),
            Request::Status => (
                Phase::Finished,
                Step::Reply {
                    response: Response::Status {
                        connected: true,
                        uri: session.uri.clone(),
                        firmware_version: Some(session.firmware_version.clone()),
                    },
                    shutdown: false,
                },
            ),
            Request::ParamList => (Phase::ParamListNames, Step::ParamNames),
            Request::ParamGet { name } => {
                let n = name.clone();
                (Phase::ParamGet { name }, Step::ParamRead { name: n })
            },
            Request::ParamSet { name, value } => {
                let n = name.clone();
                (Phase::ParamSetWritable { name, value }, Step::ParamWritable { name: n })
            },
            Request::LogList => (Phase::LogListNames, Step::LogNames),
            Request::LogStart { variables, rate_hz } => (
                Phase::LogStartStop { variables, period_ms: log_period_ms(rate_hz) },
                Step::LogStop,
            ),
            Request::LogStop => (Phase::LogStopStop, Step::LogStop),
        };
        (RequestHandler { phase }, step)
    }

    /// Whether the request has been answered.
    pub fn is_finished(&self) -> (b: bool)
        ensures
            b == (self@ is Finished),
    {
        match self.phase {
            Phase::Finished => true,
            _ => false,
        }
    }

    /// Whether `outcome` is the kind of answer the handler waits for.
    pub fn accepts(&self, outcome: &Outcome) -> (b: bool)
        ensures
            b == accepts_spec(self@, outcome@),
    {
        match (&self.phase, outcome) {
            (Phase::ParamListNames, Outcome::Names { .. }) => true,
            (Phase::LogListNames, Outcome::Names { .. }) => true,
            (Phase::ParamListType { .. }, Outcome::Type { .. }) => true,
            (Phase::ParamSetType { .. }, Outcome::Type { .. }) => true,
            (Phase::LogListType { .. }, Outcome::Type { .. }) => true,
            (Phase::ParamListWritable { .. }, Outcome::Writable { .. }) => true,
            (Phase::ParamSetWritable { .. }, Outcome::Writable { .. }) => true,
            (Phase::ParamListRead { .. }, Outcome::Read { .. }) => true,
            (Phase::ParamGet { .. }, Outcome::Read { .. }) => true,
            (Phase::ParamSetWrite { .. }, Outcome::Done { .. }) => true,
            (Phase::LogStartStop { .. }, Outcome::Done { .. }) => true,
            (Phase::LogStartStart, Outcome::Done { .. }) => true,
            (Phase::LogStopStop, Outcome::Done { .. }) => true,
            _ => false,
        }
    }

    /// Goes on with the request once the outcome of the last step is known.
    pub fn resume(self, outcome: Outcome) -> (r: (RequestHandler, Step))
        requires
            phase_wf(self@),
            accepts_spec(self@, outcome@),
        ensures
            (r.0@, r.1@) == resume_spec(self@, outcome@),
            phase_wf(r.0@),
    {
        let ghost old_phase = self@;
        let (phase, step) = match self.phase {
            Phase::ParamListNames => match outcome {
                Outcome::Names { names } => {
                    if names.len() == 0 {
                        let params: Vec<ParamInfo> = Vec::new();
                        assert(params_view(params@) =~= Seq::<ParamInfoView>::empty());
                        (
                            Phase::Finished,
                            Step::Reply { response: Response::ParamList { params }, shutdown: false },
                        )
                    } else {
                        let first = names[0].clone();
                        let params: Vec<ParamInfo> = Vec::new();
                        assert(params_view(params@) =~= Seq::<ParamInfoView>::empty());
                        (Phase::ParamListType { names, index: 0, params }, Step::ParamType { name: first })
                    }
                },
                _ => unreached(),
            },
            Phase::ParamListType { names, index, params } => match outcome {
                Outcome::Type { result } => match result {
                    Ok(t) => {
                        let name = names[index].clone();
                        (
                            Phase::ParamListWritable {
                                names,
                                index,
                                params,
                                value_type: format_value_type(t),
                            },
                            Step::ParamWritable { name },
                        )
                    },
                    Err(e) => (
                        Phase::Finished,
                        error_step(join4("param type error for ", names[index].as_str(), ": ", e.as_str())),
                    ),
                },
                _ => unreached(),
            },
            Phase::ParamListWritable { names, index, params, value_type } => match outcome {
                Outcome::Writable { result } => match result {
                    Ok(w) => {
                        let name = names[index].clone();
                        let access = if w {
                            String::from_str("rw")
                        } else {
                            String::from_str("ro")
                        };
                        (
                            Phase::ParamListRead { names, index, params, value_type, access },
                            Step::ParamRead { name },
                        )
                    },
                    Err(e) => (
                        Phase::Finished,
                        error_step(
                            join4("param access error for ", names[index].as_str(), ": ", e.as_str()),
                        ),
                    ),
                },
                _ => unreached(),
            },
            Phase::ParamListRead { names, index, params, value_type, access } => match outcome {
                Outcome::Read { result } => match result {
                    Ok(v) => {
                        let mut params = params;
                        let ghost before = params@;
                        let info = ParamInfo {
                            name: names[index].clone(),
                            value_type,
                            access,
                            value: format_value(&v),
                        };
                        params.push(info);
                        assert(params_view(params@) =~= params_view(before).push(info@));
                        if index < names.len() - 1 {
                            let next = names[index + 1].clone();
                            (
                                Phase::ParamListType { names, index: index + 1, params },
                                Step::ParamType { name: next },
                            )
                        } else {
                            (
                                Phase::Finished,
                                Step::Reply { response: Response::ParamList { params }, shutdown: false },
                            )
                        }
                    },
                    Err(e) => (
                        Phase::Finished,
                        error_step(join4("param get error for ", names[index].as_str(), ": ", e.as_str())),
                    ),
                },
                _ => unreached(),
            },
            Phase::ParamGet { name } => match outcome {
                Outcome::Read { result } => match result {
                    Ok(v) => (
                        Phase::Finished,
                        Step::Reply {
                            response: Response::ParamValue { name, value: format_value(&v) },
                            shutdown: false,
                        },
                    ),
                    Err(e) => (Phase::Finished, error_step(join2("param get error: ", e.as_str()))),
                },
                _ => unreached(),
            },
            Phase::ParamSetWritable { name, value } => match outcome {
                Outcome::Writable { result } => match result {
                    Ok(true) => {
                        let n = name.clone();
                        (Phase::ParamSetType { name, value }, Step::ParamType { name: n })
                    },
                    Ok(false) => (
                        Phase::Finished,
                        error_step(join3("param set error: ", name.as_str(), " is read-only")),
                    ),
                    Err(e) => (Phase::Finished, error_step(join2("param set error: ", e.as_str()))),
                },
                _ => unreached(),
            },
            Phase::ParamSetType { name, value } => match outcome {
                Outcome::Type { result } => match result {
                    Ok(t) => {
                        if t.is_integer_type() {
                            match parse_integer_value(t, value.as_str()) {
                                Ok(v) => {
                                    let n = name.clone();
                                    (Phase::ParamSetWrite { name, value }, Step::ParamWrite { name: n, value: v })
                                },
                                Err(k) => {
                                    let d = k.description();
                                    (Phase::Finished, error_step(join2("param set error: ", d.as_str())))
                                },
                            }
                        } else {
                            let n = name.clone();
                            let text = value.clone();
                            (
                                Phase::ParamSetWrite { name, value },
                                Step::ParamWriteFloat { name: n, value_type: t, text },
                            )
                        }
                    },
                    Err(e) => (Phase::Finished, error_step(join2("param set error: ", e.as_str()))),
                },
                _ => unreached(),
            },
            Phase::ParamSetWrite { name, value } => match outcome {
                Outcome::Done { result } => match result {
                    Ok(_) => (
                        Phase::Finished,
                        success_step(join4("set ", name.as_str(), " = ", value.as_str())),
                    ),
                    Err(e) => (Phase::Finished, error_step(join2("param set error: ", e.as_str()))),
                },
                _ => unreached(),
            },
            Phase::LogListNames => match outcome {
                Outcome::Names { names } => {
                    let variables: Vec<LogVarInfo> = Vec::new();
                    assert(log_vars_view(variables@) =~= Seq::<LogVarInfoView>::empty());
                    if names.len() == 0 {
                        (
                            Phase::Finished,
                            Step::Reply { response: Response::LogList { variables }, shutdown: false },
                        )
                    } else {
                        let first = names[0].clone();
                        (Phase::LogListType { names, index: 0, variables }, Step::LogType { name: first })
                    }
                },
                _ => unreached(),
            },
            Phase::LogListType { names, index, variables } => match outcome {
                Outcome::Type { result } => {
                    let label = match result {
                        Ok(t) => format_value_type(t),
                        Err(_) => String::from_str("unknown"),
                    };
                    let mut variables = variables;
                    let ghost before = variables@;
                    let info = LogVarInfo { name: names[index].clone(), value_type: label };
                    variables.push(info);
                    assert(log_vars_view(variables@) =~= log_vars_view(before).push(info@));
                    if index < names.len() - 1 {
                        let next = names[index + 1].clone();
                        (
                            Phase::LogListType { names, index: index + 1, variables },
                            Step::LogType { name: next },
                        )
                    } else {
                        (
                            Phase::Finished,
                            Step::Reply { response: Response::LogList { variables }, shutdown: false },
                        )
                    }
                },
                _ => unreached(),
            },
            Phase::LogStartStop { variables, period_ms } => (
                Phase::LogStartStart,
                Step::LogStart { variables, period_ms },
            ),
            Phase::LogStartStart => match outcome {
                Outcome::Done { result } => match result {
                    Ok(_) => (Phase::Finished, success_step(String::from_str("log started"))),
                    Err(e) => (Phase::Finished, error_step(join2("log start error: ", e.as_str()))),
                },
                _ => unreached(),
            },
            Phase::LogStopStop => (Phase::Finished, success_step(String::from_str("log stopped"))),
            Phase::Finished => unreached(),
        };
        (RequestHandler { phase }, step)
    }
}

// ---------------------------------------------------------------------------
// Laws of request handling.
// ---------------------------------------------------------------------------

/// How many more steps a phase takes at most, once the names of a listing
/// are known.
pub open spec fn steps_left(phase: PhaseView) -> nat {
    match phase {
        PhaseView::Finished => 0,
        PhaseView::ParamListNames | PhaseView::LogListNames => 0,
        PhaseView::ParamListType { names, index, .. } => (3 * (names.len() - index)) as nat,
        PhaseView::ParamListWritable { names, index, .. } => (3 * (names.len() - index) - 1) as nat,
        PhaseView::ParamListRead { names, index, .. } => (3 * (names.len() - index) - 2) as nat,
        PhaseView::ParamGet { .. } => 1,
        PhaseView::ParamSetWritable { .. } => 3,
        PhaseView::ParamSetType { .. } => 2,
        PhaseView::ParamSetWrite { .. } => 1,
        PhaseView::LogListType { names, index, .. } => (names.len() - index) as nat,
        PhaseView::LogStartStop { .. } => 2,
        PhaseView::LogStartStart => 1,
        PhaseView::LogStopStop => 1,
    }
}

pub open spec fn is_names_phase(phase: PhaseView) -> bool {
    phase is ParamListNames || phase is LogListNames
}

/// Law: every request is answered by exactly one reply, which ends its
/// handling: a step is a reply exactly when the handler has finished, both
/// when handling starts and at every later step.
pub proof fn law_one_reply_per_request(
    request: RequestView,
    uri: Seq<char>,
    firmware: Seq<char>,
    phase: PhaseView,
    outcome: OutcomeView,
)
    ensures
        (start_spec(request, uri, firmware).1 is Reply) <==> (start_spec(request, uri, firmware).0 is Finished),
        phase_wf(start_spec(request, uri, firmware).0),
        phase_wf(phase) && accepts_spec(phase, outcome) ==> {
            &&& (resume_spec(phase, outcome).1 is Reply) <==> (resume_spec(phase, outcome).0 is Finished)
            &&& phase_wf(resume_spec(phase, outcome).0)
        },
{
    if phase_wf(phase) && accepts_spec(phase, outcome) {
        match (phase, outcome) {
            (PhaseView::ParamListRead { names, index, params, value_type, access }, OutcomeView::Read { result }) => {
                if let Ok(v) = result {
                    let ps = params.push(ParamInfoView { name: names[index as int], value_type, access, value: v.text() });
                    assert(forall|k: int| 0 <= k < index + 1 ==> #[trigger] ps[k].name == names[k]);
                }
            },
            (PhaseView::LogListType { names, index, variables }, OutcomeView::Type { result }) => {
                let label = match result {
                    Ok(t) => t.label(),
                    Err(_) => "unknown"@,
                };
                let vs = variables.push(LogVarInfoView { name: names[index as int], value_type: label });
                assert(forall|k: int| 0 <= k < index + 1 ==> #[trigger] vs[k].name == names[k]);
            },
            _ => {},
        }
    }
}

/// Law: handling a request ends. Once the names of a listing are known,
/// every step brings the handler strictly closer to its reply, and a phase
/// that waits for names is followed by one that does not.
pub proof fn law_handling_terminates(phase: PhaseView, outcome: OutcomeView)
    requires
        phase_wf(phase),
        accepts_spec(phase, outcome),
    ensures
        !is_names_phase(resume_spec(phase, outcome).0),
        !is_names_phase(phase) ==> steps_left(resume_spec(phase, outcome).0) < steps_left(phase),
{
}

/// Law: a new log block replaces the previous one. Starting to log always
/// first stops the active block, whatever the outcome of that stop, and only
/// then starts the new block, with the requested variables and a period in
/// the 10..=2550 ms that a log block accepts.
pub proof fn law_log_start_replaces_previous(
    variables: Seq<Seq<char>>,
    rate_hz: u64,
    uri: Seq<char>,
    firmware: Seq<char>,
    stopped: Result<(), Seq<char>>,
)
    ensures
        ({
            let (phase, step) = start_spec(RequestView::LogStart { variables, rate_hz }, uri, firmware);
            &&& step == StepView::LogStop
            &&& resume_spec(phase, OutcomeView::Done { result: stopped }).1 == StepView::LogStart {
                variables,
                period_ms: log_period_spec(rate_hz),
            }
        }),
        10 <= log_period_spec(rate_hz) <= 2550,
        rate_hz > 0 && 10 <= 1000u64 / rate_hz ==> log_period_spec(rate_hz) == 1000u64 / rate_hz,
{
}

/// Law: a read-only parameter is never written. When the parameter named in
/// a set request turns out not to be writable, the handler answers with an
/// error saying so and writes nothing.
pub proof fn law_read_only_param_never_written(
    name: Seq<char>,
    value: Seq<char>,
    uri: Seq<char>,
    firmware: Seq<char>,
)
    ensures
        ({
            let (phase, step) = start_spec(RequestView::ParamSet { name, value }, uri, firmware);
            &&& step == StepView::ParamWritable { name }
            &&& resume_spec(phase, OutcomeView::Writable { result: Ok(false) }) == (
                PhaseView::Finished,
                error_reply("param set error: "@ + name + " is read-only"@),
            )
        }),
{
}

/// Law: a parameter list reply has one entry per parameter name, in the
/// order of the names, each entry carrying its name.
pub proof fn law_param_list_covers_names(phase: PhaseView, outcome: OutcomeView)
    requires
        phase_wf(phase),
        phase is ParamListRead,
        resume_spec(phase, outcome).1 matches StepView::Reply { response: ResponseView::ParamList { .. }, .. },
    ensures
        ({
            let names = phase->ParamListRead_names;
            let params = resume_spec(phase, outcome).1->response->params;
            &&& params.len() == names.len()
            &&& forall|k: int| 0 <= k < names.len() ==> #[trigger] params[k].name == names[k]
        }),
{
    let names = phase->ParamListRead_names;
    let index = phase->ParamListRead_index;
    let params = phase->ParamListRead_params;
    if let OutcomeView::Read { result: Ok(v) } = outcome {
        let ps = params.push(ParamInfoView {
            name: names[index as int],
            value_type: phase->ParamListRead_value_type,
            access: phase->ParamListRead_access,
            value: v.text(),
        });
        assert(forall|k: int| 0 <= k < index + 1 ==> #[trigger] ps[k].name == names[k]);
    }
}

/// Law: a log list reply has one entry per log variable name, in the order
/// of the names; a variable whose type cannot be looked up is listed as
/// "unknown" rather than failing the list.
pub proof fn law_log_list_covers_names(phase: PhaseView, outcome: OutcomeView)
    requires
        phase_wf(phase),
        phase is LogListType,
        outcome is Type,
    ensures
        resume_spec(phase, outcome).1 is Reply ==> {
            let names = phase->LogListType_names;
            let variables = resume_spec(phase, outcome).1->response->variables;
            &&& resume_spec(phase, outcome).1->response is LogList
            &&& variables.len() == names.len()
            &&& forall|k: int| 0 <= k < names.len() ==> #[trigger] variables[k].name == names[k]
            &&& outcome->Type_result is Err ==> variables[names.len() - 1].value_type == "unknown"@
        },
{
    let names = phase->LogListType_names;
    let index = phase->LogListType_index;
    let variables = phase->LogListType_variables;
    let label = match outcome->Type_result {
        Ok(t) => t.label(),
        Err(_) => "unknown"@,
    };
    let vs = variables.push(LogVarInfoView { name: names[index as int], value_type: label });
    assert(forall|k: int| 0 <= k < index + 1 ==> #[trigger] vs[k].name == names[k]);
}

/// Law: stopping the log always stops the active block before confirming,
/// whatever the outcome of the stop.
pub proof fn law_log_stop_stops_logging(uri: Seq<char>, firmware: Seq<char>, stopped: Result<(), Seq<char>>)
    ensures
        ({
            let (phase, step) = start_spec(RequestView::LogStop, uri, firmware);
            &&& step == StepView::LogStop
            &&& resume_spec(phase, OutcomeView::Done { result: stopped }) == (
                PhaseView::Finished,
                success_reply("log stopped"@),
            )
        }),
{
}

/// Law: a status request is answered at once, from the session alone: the
/// reply says connected, with the session's URI and the session's firmware
/// version.
pub proof fn law_status_reports_session(uri: Seq<char>, firmware: Seq<char>)
    ensures
        start_spec(RequestView::Status, uri, firmware).0 is Finished,
        start_spec(RequestView::Status, uri, firmware).1 == (StepView::Reply {
            response: ResponseView::Status { connected: true, uri: uri, firmware_version: Some(firmware) },
            shutdown: false,
        }),
{
}

/// Law: each request starts with the call its request names, on the
/// parameter or variables it names: a get reads the named parameter, a set
/// first asks whether the named parameter is writable, the lists read the
/// tables, and a stop answers "stopping" and shuts the daemon down.
pub proof fn law_requests_start_on_what_they_name(
    name: Seq<char>,
    value: Seq<char>,
    uri: Seq<char>,
    firmware: Seq<char>,
)
    ensures
        start_spec(RequestView::ParamGet { name }, uri, firmware).1 == (StepView::ParamRead { name: name }),
        start_spec(RequestView::ParamSet { name, value }, uri, firmware).1 == (StepView::ParamWritable {
            name: name,
        }),
        start_spec(RequestView::ParamList, uri, firmware).1 == StepView::ParamNames,
        start_spec(RequestView::LogList, uri, firmware).1 == StepView::LogNames,
        start_spec(RequestView::Stop, uri, firmware) == (
            PhaseView::Finished,
            StepView::Reply { response: ResponseView::Success { message: "stopping"@ }, shutdown: true },
        ),
{
}

/// Law: a parameter is read as the value the Crazyflie gives: a get replies
/// with the parameter's name and the value's text, or with the read error.
pub proof fn law_param_get_replies_with_value(name: Seq<char>, read: Result<Value, Seq<char>>)
    ensures
        resume_spec(PhaseView::ParamGet { name }, OutcomeView::Read { result: read }) == (
            PhaseView::Finished,
            match read {
                Ok(v) => StepView::Reply {
                    response: ResponseView::ParamValue { name: name, value: v.text() },
                    shutdown: false,
                },
                Err(e) => StepView::Reply {
                    response: ResponseView::Error { message: "param get error: "@ + e },
                    shutdown: false,
                },
            },
        ),
{
}

/// Law: a value for a writable parameter is parsed by the parameter's type.
/// For an integer type the text is read with std's integer syntax over the
/// type's range and the integer is written as a value of that very type;
/// a text that does not parse is refused with std's description of the
/// error, and nothing is written. Only the float types are handed on as
/// text, to be written as floats.
pub proof fn law_param_set_parses_by_type(name: Seq<char>, value: Seq<char>, t: ValueType)
    ensures
        ({
            let (phase, step) = resume_spec(
                PhaseView::ParamSetType { name, value },
                OutcomeView::Type { result: Ok(t) },
            );
            if t is F16 || t is F32 || t is F64 {
                &&& phase == (PhaseView::ParamSetWrite { name, value })
                &&& step == (StepView::ParamWriteFloat { name: name, value_type: t, text: value })
            } else {
                match parse_integer_spec(value, t.min_value(), t.max_value()) {
                    Ok(i) => {
                        &&& phase == (PhaseView::ParamSetWrite { name, value })
                        &&& step matches StepView::ParamWrite { name: n, value: v }
                        &&& n == name
                        &&& v.value_type() == t
                        &&& v.as_int() == i
                        &&& !(v is F16 || v is F32 || v is F64)
                    },
                    Err(k) => {
                        &&& phase is Finished
                        &&& step == (StepView::Reply {
                            response: ResponseView::Error { message: "param set error: "@ + k.description_spec() },
                            shutdown: false,
                        })
                    },
                }
            }
        }),
{
    if !(t is F16 || t is F32 || t is F64) {
        if let Ok(i) = parse_integer_spec(value, t.min_value(), t.max_value()) {
            crate::text::lemma_parse_integer_spec_bounds(value, t.min_value(), t.max_value());
        }
    }
}

/// Law: a successful write is confirmed as "set <name> = <value>", with the
/// name and the text the client gave; a failed one reports its error.
pub proof fn law_param_set_confirms_write(name: Seq<char>, value: Seq<char>, written: Result<(), Seq<char>>)
    ensures
        resume_spec(PhaseView::ParamSetWrite { name, value }, OutcomeView::Done { result: written }).1 == match written {
            Ok(_) => StepView::Reply {
                response: ResponseView::Success { message: "set "@ + name + " = "@ + value },
                shutdown: false,
            },
            Err(e) => StepView::Reply {
                response: ResponseView::Error { message: "param set error: "@ + e },
                shutdown: false,
            },
        },
{
}

/// Law: a parameter list entry carries the parameter's name, its type's
/// label, "rw" or "ro" as the parameter is writable or not, and the text of
/// the value read.
pub proof fn law_param_list_entry(
    names: Seq<Seq<char>>,
    index: nat,
    params: Seq<ParamInfoView>,
    t: ValueType,
    writable: bool,
    v: Value,
)
    requires
        list_prefix_wf(names, index, params),
    ensures
        ({
            let (p1, s1) = resume_spec(
                PhaseView::ParamListType { names, index, params },
                OutcomeView::Type { result: Ok(t) },
            );
            let (p2, s2) = resume_spec(p1, OutcomeView::Writable { result: Ok(writable) });
            let (p3, s3) = resume_spec(p2, OutcomeView::Read { result: Ok(v) });
            let entry = ParamInfoView {
                name: names[index as int],
                value_type: t.label(),
                access: if writable {
                    "rw"@
                } else {
                    "ro"@
                },
                value: v.text(),
            };
            &&& s1 == (StepView::ParamWritable { name: names[index as int] })
            &&& s2 == (StepView::ParamRead { name: names[index as int] })
            &&& if index + 1 < names.len() {
                &&& p3 == (PhaseView::ParamListType { names, index: index + 1, params: params.push(entry) })
                &&& s3 == (StepView::ParamType { name: names[index + 1 as int] })
            } else {
                &&& p3 is Finished
                &&& s3 == (StepView::Reply {
                    response: ResponseView::ParamList { params: params.push(entry) },
                    shutdown: false,
                })
            }
        }),
{
}

/// Law: a failure while listing parameters ends the list with an error
/// that names the parameter and carries the failure's message.
pub proof fn law_param_list_failures_name_the_parameter(
    names: Seq<Seq<char>>,
    index: nat,
    params: Seq<ParamInfoView>,
    value_type: Seq<char>,
    access: Seq<char>,
    e: Seq<char>,
)
    requires
        list_prefix_wf(names, index, params),
    ensures
        resume_spec(PhaseView::ParamListType { names, index, params }, OutcomeView::Type { result: Err(e) })
            == (PhaseView::Finished, StepView::Reply {
            response: ResponseView::Error {
                message: "param type error for "@ + names[index as int] + ": "@ + e,
            },
            shutdown: false,
        }),
        resume_spec(
            PhaseView::ParamListWritable { names, index, params, value_type },
            OutcomeView::Writable { result: Err(e) },
        ) == (PhaseView::Finished, StepView::Reply {
            response: ResponseView::Error {
                message: "param access error for "@ + names[index as int] + ": "@ + e,
            },
            shutdown: false,
        }),
        resume_spec(
            PhaseView::ParamListRead { names, index, params, value_type, access },
            OutcomeView::Read { result: Err(e) },
        ) == (PhaseView::Finished, StepView::Reply {
            response: ResponseView::Error {
                message: "param get error for "@ + names[index as int] + ": "@ + e,
            },
            shutdown: false,
        }),
{
}

/// Law: a set request refuses a parameter that cannot be looked up, or
/// whose type cannot be looked up, with the lookup's error; a writable
/// parameter goes on to the type lookup of that same parameter.
pub proof fn law_param_set_lookup_failures(name: Seq<char>, value: Seq<char>, e: Seq<char>)
    ensures
        resume_spec(PhaseView::ParamSetWritable { name, value }, OutcomeView::Writable { result: Err(e) })
            == (PhaseView::Finished, StepView::Reply {
            response: ResponseView::Error { message: "param set error: "@ + e },
            shutdown: false,
        }),
        resume_spec(PhaseView::ParamSetWritable { name, value }, OutcomeView::Writable { result: Ok(true) })
            == (PhaseView::ParamSetType { name, value }, StepView::ParamType { name: name }),
        resume_spec(PhaseView::ParamSetType { name, value }, OutcomeView::Type { result: Err(e) }) == (
            PhaseView::Finished,
            StepView::Reply { response: ResponseView::Error { message: "param set error: "@ + e }, shutdown: false },
        ),
{
}

/// Law: a started log block is confirmed with "log started"; a block that
/// could not be started is reported with its error.
pub proof fn law_log_start_result(started: Result<(), Seq<char>>)
    ensures
        resume_spec(PhaseView::LogStartStart, OutcomeView::Done { result: started }) == (
            PhaseView::Finished,
            match started {
                Ok(_) => StepView::Reply { response: ResponseView::Success { message: "log started"@ }, shutdown: false },
                Err(e) => StepView::Reply {
                    response: ResponseView::Error { message: "log start error: "@ + e },
                    shutdown: false,
                },
            },
        ),
{
}

/// Law: a log list entry carries the variable's name and its type's label,
/// or "unknown" when the type cannot be looked up.
pub proof fn law_log_list_entry(
    names: Seq<Seq<char>>,
    index: nat,
    variables: Seq<LogVarInfoView>,
    looked_up: Result<ValueType, Seq<char>>,
)
    requires
        index < names.len(),
        variables.len() == index,
    ensures
        ({
            let entry = LogVarInfoView {
                name: names[index as int],
                value_type: match looked_up {
                    Ok(t) => t.label(),
                    Err(_) => "unknown"@,
                },
            };
            let (p, s) = resume_spec(
                PhaseView::LogListType { names, index, variables },
                OutcomeView::Type { result: looked_up },
            );
            if index + 1 < names.len() {
                &&& p == (PhaseView::LogListType { names, index: index + 1, variables: variables.push(entry) })
                &&& s == (StepView::LogType { name: names[index + 1 as int] })
            } else {
                &&& p is Finished
                &&& s == (StepView::Reply {
                    response: ResponseView::LogList { variables: variables.push(entry) },
                    shutdown: false,
                })
            }
        }),
{
}

} // verus!
