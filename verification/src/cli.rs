//! The command line: the commands a user gives, the request a client sends
//! for each of them, and how a client shows the daemon's response.
use vstd::prelude::*;
use crate::protocol::{
    strings_view, LogVarInfo, LogVarInfoView, ParamInfo, ParamInfoView, Request, RequestView,
    Response, ResponseView,
};

verus! {

/// Top-level commands.
#[derive(Clone, Debug, PartialEq, Eq)]
pub enum Commands {
    /// Start a persistent session (daemon) connected to a Crazyflie.
    Start { uri: String },
    /// Stop the running session.
    Stop,
    /// Check if a session is running and the Crazyflie is connected.
    Status,
    /// Scan for Crazyflies on the radio.
    Scan,
    /// Parameter operations.
    Param { command: ParamCommands },
    /// Log variable operations.
    Log { command: LogCommands },
    /// Flash firmware to the Crazyflie: through its URI, or through one
    /// found by scanning when the URI is omitted; `cold` when it is already
    /// in bootloader mode.
    Flash { path: String, uri: Option<String>, cold: bool },
    /// Reboot the Crazyflie.
    Reset { uri: Option<String> },
    /// Recover a Crazyflie that can't be reached over radio.
    Recover,
}

/// Parameter commands.
#[derive(Clone, Debug, PartialEq, Eq)]
pub enum ParamCommands {
    List,
    Get { name: String },
    /// Set a parameter value (the `set` subcommand).
    SetValue { name: String, value: String },
}

/// Log commands.
#[derive(Clone, Debug, PartialEq, Eq)]
pub enum LogCommands {
    List,
    Start { variables: Vec<String>, rate: u64 },
    Stop,
}

/// Why a command cannot be sent to the daemon.
#[derive(Clone, Copy, Debug, PartialEq, Eq)]
pub enum ClientError {
    /// The command runs on its own, without a session.
    NotAClientCommand,
}

impl ClientError {
    pub open spec fn message_spec(&self) -> Seq<char> {
        "This command should not be dispatched through the client"@
    }

    pub fn message(&self) -> (s: String)
        ensures
            s@ == self.message_spec(),
    {
        String::from_str("This command should not be dispatched through the client")
    }
}

/// The request that a client sends for a command, if the command goes
/// through the daemon.
pub open spec fn client_request(cmd: Commands) -> Option<RequestView> {
    match cmd {
        Commands::Stop => Some(RequestView::Stop),
        Commands::Status => Some(RequestView::Status),
        Commands::Param { command } => Some(
            match command {
                ParamCommands::List => RequestView::ParamList,
                ParamCommands::Get { name } => RequestView::ParamGet { name: name@ },
                ParamCommands::SetValue { name, value } => RequestView::ParamSet {
                    name: name@,
                    value: value@,
                },
            },
        ),
        Commands::Log { command } => Some(
            match command {
                LogCommands::List => RequestView::LogList,
                LogCommands::Start { variables, rate } => RequestView::LogStart {
                    variables: strings_view(variables@),
                    rate_hz: rate,
                },
                LogCommands::Stop => RequestView::LogStop,
            },
        ),
        _ => None,
    }
}

/// The request to send to the daemon for `cmd`; commands that run on their
/// own (start, scan, flash, reset, recover) are refused.
pub fn request_for_command(cmd: Commands) -> (r: Result<Request, ClientError>)
    ensures
        match r {
            Ok(request) => client_request(cmd) == Some(request@),
            Err(_) => client_request(cmd) is None,
        },
{
    match cmd {
        Commands::Stop => Ok(Request::Stop),
        Commands::Status => Ok(Request::Status),
        Commands::Param { command } => Ok(
            match command {
                ParamCommands::List => Request::ParamList,
                ParamCommands::Get { name } => Request::ParamGet { name },
                ParamCommands::SetValue { name, value } => Request::ParamSet { name, value },
            },
        ),
        Commands::Log { command } => Ok(
            match command {
                LogCommands::List => Request::LogList,
                LogCommands::Start { variables, rate } => Request::LogStart {
                    variables,
                    rate_hz: rate,
                },
                LogCommands::Stop => Request::LogStop,
            },
        ),
        Commands::Start { .. } | Commands::Scan | Commands::Flash { .. } | Commands::Reset { .. }
        | Commands::Recover => Err(ClientError::NotAClientCommand),
    }
}

/// What a client shows for a response: lines for standard output, lines for
/// standard error, and the exit code of the client.
pub struct Rendering {
    pub stdout: Vec<String>,
    pub stderr: Vec<String>,
    pub exit_code: i32,
}

pub struct RenderingView {
    pub stdout: Seq<Seq<char>>,
    pub stderr: Seq<Seq<char>>,
    pub exit_code: i32,
}

impl View for Rendering {
    type V = RenderingView;

    open spec fn view(&self) -> RenderingView {
        RenderingView {
            stdout: strings_view(self.stdout@),
            stderr: strings_view(self.stderr@),
            exit_code: self.exit_code,
        }
    }
}

pub open spec fn bool_text(b: bool) -> Seq<char> {
    if b {
        "true"@
    } else {
        "false"@
    }
}

/// A parameter as a line: name, type, access and value, separated by tabs.
pub open spec fn param_line(p: ParamInfoView) -> Seq<char> {
    p.name + "\t"@ + p.value_type + "\t"@ + p.access + "\t"@ + p.value
}

/// A log variable as a line: name and type, separated by a tab.
pub open spec fn log_var_line(v: LogVarInfoView) -> Seq<char> {
    v.name + "\t"@ + v.value_type
}

pub open spec fn output(lines: Seq<Seq<char>>) -> RenderingView {
    RenderingView { stdout: lines, stderr: seq![], exit_code: 0 }
}

/// How a client shows `response`. An error is written to standard error
/// and makes the client exit with code 1; a status exits with code 0 when
/// the Crazyflie is connected and 1 when it is not.
pub open spec fn render_spec(response: ResponseView) -> RenderingView {
    match response {
        ResponseView::Success { message } => output(seq![message]),
        ResponseView::Error { message } => RenderingView {
            stdout: seq![],
            stderr: seq!["error: "@ + message],
            exit_code: 1,
        },
        ResponseView::Status { connected, uri, firmware_version } => RenderingView {
            stdout: seq!["connected: "@ + bool_text(connected), "uri: "@ + uri] + match firmware_version {
                Some(f) => seq!["firmware: "@ + f],
                None => Seq::<Seq<char>>::empty(),
            },
            stderr: seq![],
            exit_code: if connected {
                0
            } else {
                1
            },
        },
        ResponseView::ParamList { params } => output(params.map_values(|p: ParamInfoView| param_line(p))),
        ResponseView::ParamValue { value, .. } => output(seq![value]),
        ResponseView::LogList { variables } => output(
            variables.map_values(|v: LogVarInfoView| log_var_line(v)),
        ),
    }
}

fn prefixed(prefix: &str, text: &str) -> (s: String)
    ensures
        s@ == prefix@ + text@,
{
    let mut s = String::from_str(prefix);
    s.append(text);
    s
}

fn param_text(p: &ParamInfo) -> (s: String)
    ensures
        s@ == param_line(p@),
{
    let mut s = p.name.clone();
    s.append("\t");
    s.append(p.value_type.as_str());
    s.append("\t");
    s.append(p.access.as_str());
    s.append("\t");
    s.append(p.value.as_str());
    s
}

fn log_var_text(v: &LogVarInfo) -> (s: String)
    ensures
        s@ == log_var_line(v@),
{
    let mut s = v.name.clone();
    s.append("\t");
    s.append(v.value_type.as_str());
    s
}

/// How a client shows `response` (see `render_spec`).
pub fn render_response(response: &Response) -> (r: Rendering)
    ensures
        r@ == render_spec(response@),
{
    let mut stdout: Vec<String> = Vec::new();
    let mut stderr: Vec<String> = Vec::new();
    let mut exit_code: i32 = 0;
    match response {
        Response::Success { message } => {
            stdout.push(message.clone());
        },
        Response::Error { message } => {
            stderr.push(prefixed("error: ", message.as_str()));
            exit_code = 1;
        },
        Response::Status { connected, uri, firmware_version } => {
            let flag = if *connected {
                "true"
            } else {
                "false"
            };
            stdout.push(prefixed("connected: ", flag));
            if !*connected {
                exit_code = 1;
            }
            stdout.push(prefixed("uri: ", uri.as_str()));
            match firmware_version {
                Some(f) => {
                    stdout.push(prefixed("firmware: ", f.as_str()));
                },
                None => {},
            }
        },
        Response::ParamList { params } => {
            let n = params.len();
            let mut i: usize = 0;
            while i < n
                invariant
                    n == params@.len(),
                    i <= n,
                    strings_view(stdout@) =~= params@.subrange(0, i as int).map_values(
                        |p: ParamInfo| param_line(p@),
                    ),
                decreases n - i,
            {
                let ghost before = stdout@;
                stdout.push(param_text(&params[i]));
                assert(strings_view(stdout@) =~= strings_view(before).push(param_line(params@[i as int]@)));
                assert(params@.subrange(0, i + 1) =~= params@.subrange(0, i as int).push(params@[i as int]));
                i = i + 1;
            }
            assert(params@.subrange(0, n as int) == params@);
        },
        Response::ParamValue { value, .. } => {
            stdout.push(value.clone());
        },
        Response::LogList { variables } => {
            let n = variables.len();
            let mut i: usize = 0;
            while i < n
                invariant
                    n == variables@.len(),
                    i <= n,
                    strings_view(stdout@) =~= variables@.subrange(0, i as int).map_values(
                        |v: LogVarInfo| log_var_line(v@),
                    ),
                decreases n - i,
            {
                let ghost before = stdout@;
                stdout.push(log_var_text(&variables[i]));
                assert(strings_view(stdout@) =~= strings_view(before).push(log_var_line(variables@[i as int]@)));
                assert(variables@.subrange(0, i + 1) =~= variables@.subrange(0, i as int).push(variables@[i as int]));
                i = i + 1;
            }
            assert(variables@.subrange(0, n as int) == variables@);
        },
    }
    let r = Rendering { stdout, stderr, exit_code };
    assert(r@.stdout =~= render_spec(response@).stdout);
    assert(r@.stderr =~= render_spec(response@).stderr);
    r
}

/// Law: a client fails exactly on an error reply or a status that is not
/// connected; an error reply is written to standard error, starting with
/// "error: ".
pub proof fn law_client_exit_code(response: ResponseView)
    ensures
        (render_spec(response).exit_code != 0) <==> (response is Error || (response matches ResponseView::Status { connected, .. } && !connected)),
        response matches ResponseView::Error { message } ==> render_spec(response).stderr == seq!["error: "@ + message],
{
}

/// Law: a client sends each daemon command as the request of the same
/// kind, carrying the names, values, variables and rate exactly as given.
pub proof fn law_client_request_carries_arguments(cmd: Commands)
    ensures
        cmd is Stop ==> client_request(cmd) == Some(RequestView::Stop),
        cmd is Status ==> client_request(cmd) == Some(RequestView::Status),
        cmd matches Commands::Param { command: ParamCommands::List } ==> client_request(cmd) == Some(
            RequestView::ParamList,
        ),
        cmd matches Commands::Param { command: ParamCommands::Get { name } } ==> (client_request(cmd)
            matches Some(RequestView::ParamGet { name: n }) && n == name@),
        cmd matches Commands::Param { command: ParamCommands::SetValue { name, value } } ==> (
        client_request(cmd) matches Some(RequestView::ParamSet { name: n, value: v }) && n == name@ && v
            == value@),
        cmd matches Commands::Log { command: LogCommands::List } ==> client_request(cmd) == Some(
            RequestView::LogList,
        ),
        cmd matches Commands::Log { command: LogCommands::Stop } ==> client_request(cmd) == Some(
            RequestView::LogStop,
        ),
        cmd matches Commands::Log { command: LogCommands::Start { variables, rate } } ==> (client_request(
            cmd,
        ) matches Some(RequestView::LogStart { variables: vs, rate_hz: r }) && r == rate && vs.len()
            == variables.len() && forall|k: int| 0 <= k < vs.len() ==> #[trigger] vs[k] == variables@[k]@),
        (cmd is Start || cmd is Scan || cmd is Flash || cmd is Reset || cmd is Recover) ==> client_request(
            cmd,
        ) is None,
{
}

/// Law: list replies are shown one line per entry, in order: a parameter as
/// its name, type, access and value separated by tabs, a log variable as
/// its name and type separated by a tab; nothing goes to standard error and
/// the client succeeds.
pub proof fn law_lists_render_one_line_per_entry(response: ResponseView)
    ensures
        response matches ResponseView::LogList { variables } ==> {
            &&& render_spec(response).stdout.len() == variables.len()
            &&& forall|k: int|
                0 <= k < variables.len() ==> #[trigger] render_spec(response).stdout[k] == variables[k].name
                    + "\t"@ + variables[k].value_type
            &&& render_spec(response).stderr.len() == 0
            &&& render_spec(response).exit_code == 0
        },
        response matches ResponseView::ParamList { params } ==> {
            &&& render_spec(response).stdout.len() == params.len()
            &&& forall|k: int|
                0 <= k < params.len() ==> #[trigger] render_spec(response).stdout[k] == params[k].name + "\t"@
                    + params[k].value_type + "\t"@ + params[k].access + "\t"@ + params[k].value
            &&& render_spec(response).stderr.len() == 0
            &&& render_spec(response).exit_code == 0
        },
{
}

/// Law: a status is shown as its connection, its URI and, when known, its
/// firmware version, each on a line of its own in that order; a success
/// message or a parameter value is shown as the one line it holds.
pub proof fn law_single_replies_render(response: ResponseView)
    ensures
        response matches ResponseView::Status { connected, uri, firmware_version } ==> {
            &&& render_spec(response).stdout[0] == "connected: "@ + (if connected {
                "true"@
            } else {
                "false"@
            })
            &&& render_spec(response).stdout[1] == "uri: "@ + uri
            &&& match firmware_version {
                Some(f) => render_spec(response).stdout.len() == 3 && render_spec(response).stdout[2]
                    == "firmware: "@ + f,
                None => render_spec(response).stdout.len() == 2,
            }
        },
        response matches ResponseView::Success { message } ==> render_spec(response).stdout == seq![message],
        response matches ResponseView::ParamValue { value, .. } ==> render_spec(response).stdout == seq![value],
{
}

} // verus!
