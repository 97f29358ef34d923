//! Requests and responses exchanged between the client and the daemon, one
//! JSON object per line over the session socket.
use vstd::prelude::*;

verus! {

/// One parameter as listed by the daemon.
#[derive(Clone, Debug, PartialEq, Eq)]
pub struct ParamInfo {
    pub name: String,
    pub value_type: String,
    pub access: String,
    pub value: String,
}

pub struct ParamInfoView {
    pub name: Seq<char>,
    pub value_type: Seq<char>,
    pub access: Seq<char>,
    pub value: Seq<char>,
}

impl View for ParamInfo {
    type V = ParamInfoView;

    open spec fn view(&self) -> ParamInfoView {
        ParamInfoView {
            name: self.name@,
            value_type: self.value_type@,
            access: self.access@,
            value: self.value@,
        }
    }
}

/// One log variable as listed by the daemon.
#[derive(Clone, Debug, PartialEq, Eq)]
pub struct LogVarInfo {
    pub name: String,
    pub value_type: String,
}

pub struct LogVarInfoView {
    pub name: Seq<char>,
    pub value_type: Seq<char>,
}

impl View for LogVarInfo {
    type V = LogVarInfoView;

    open spec fn view(&self) -> LogVarInfoView {
        LogVarInfoView { name: self.name@, value_type: self.value_type@ }
    }
}

/// Requests sent from client to daemon.
#[derive(Clone, Debug, PartialEq, Eq)]
pub enum Request {
    Stop,
    Status,
    ParamList,
    ParamGet { name: String },
    ParamSet { name: String, value: String },
    LogList,
    LogStart { variables: Vec<String>, rate_hz: u64 },
    LogStop,
}

pub enum RequestView {
    Stop,
    Status,
    ParamList,
    ParamGet { name: Seq<char> },
    ParamSet { name: Seq<char>, value: Seq<char> },
    LogList,
    LogStart { variables: Seq<Seq<char>>, rate_hz: u64 },
    LogStop,
}

pub open spec fn strings_view(v: Seq<String>) -> Seq<Seq<char>> {
    v.map_values(|s: String| s@)
}

impl View for Request {
    type V = RequestView;

    open spec fn view(&self) -> RequestView {
        match self {
            Request::Stop => RequestView::Stop,
            Request::Status => RequestView::Status,
            Request::ParamList => RequestView::ParamList,
            Request::ParamGet { name } => RequestView::ParamGet { name: name@ },
            Request::ParamSet { name, value } => RequestView::ParamSet { name: name@, value: value@ },
            Request::LogList => RequestView::LogList,
            Request::LogStart { variables, rate_hz } => RequestView::LogStart {
                variables: strings_view(variables@),
                rate_hz: *rate_hz,
            },
            Request::LogStop => RequestView::LogStop,
        }
    }
}

/// Responses sent from daemon to client. `Success` is the variant that the
/// wire format tags "Ok".
#[derive(Clone, Debug, PartialEq, Eq)]
pub enum Response {
    Success { message: String },
    Error { message: String },
    Status { connected: bool, uri: String, firmware_version: Option<String> },
    ParamList { params: Vec<ParamInfo> },
    ParamValue { name: String, value: String },
    LogList { variables: Vec<LogVarInfo> },
}

pub enum ResponseView {
    Success { message: Seq<char> },
    Error { message: Seq<char> },
    Status { connected: bool, uri: Seq<char>, firmware_version: Option<Seq<char>> },
    ParamList { params: Seq<ParamInfoView> },
    ParamValue { name: Seq<char>, value: Seq<char> },
    LogList { variables: Seq<LogVarInfoView> },
}

impl View for Response {
    type V = ResponseView;

    open spec fn view(&self) -> ResponseView {
        match self {
            Response::Success { message } => ResponseView::Success { message: message@ },
            Response::Error { message } => ResponseView::Error { message: message@ },
            Response::Status { connected, uri, firmware_version } => ResponseView::Status {
                connected: *connected,
                uri: uri@,
                firmware_version: match firmware_version {
                    Some(f) => Some(f@),
                    None => None,
                },
            },
            Response::ParamList { params } => ResponseView::ParamList {
                params: params@.map_values(|p: ParamInfo| p@),
            },
            Response::ParamValue { name, value } => ResponseView::ParamValue {
                name: name@,
                value: value@,
            },
            Response::LogList { variables } => ResponseView::LogList {
                variables: variables@.map_values(|v: LogVarInfo| v@),
            },
        }
    }
}

} // verus!
