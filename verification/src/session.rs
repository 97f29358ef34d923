//! The daemon's session: where its socket lives, how clients find it, and
//! the decisions of its accept loop.
use vstd::prelude::*;
use crate::text::{chars_of, push_char};

verus! {

/// What `char::is_alphanumeric` of std says of `c`.
pub uninterp spec fn alphanumeric(c: char) -> bool;

pub open spec fn is_ascii_alphanumeric(c: char) -> bool {
    ('a' <= c && c <= 'z') || ('A' <= c && c <= 'Z') || ('0' <= c && c <= '9')
}

/// Whether `c` is alphanumeric: for an ASCII character, exactly the ASCII
/// letters and digits; beyond ASCII, what std's Unicode tables say.
pub open spec fn is_alphanumeric_spec(c: char) -> bool {
    if c <= '\x7f' {
        is_ascii_alphanumeric(c)
    } else {
        alphanumeric(c)
    }
}

/// `char::is_alphanumeric` from std ("true if this char satisfies either
/// is_alphabetic() or is_numeric()"). Contract: among ASCII characters
/// exactly the letters and digits are alphanumeric (the Unicode Alphabetic
/// and Numeric properties hold of no other ASCII character); beyond ASCII
/// the result is the named property of `c`, which rests on the Unicode
/// tables of std and is not stated here.
#[verifier::external_body]
fn is_alphanumeric(c: char) -> (b: bool)
    ensures
        c <= '\x7f' ==> b == is_ascii_alphanumeric(c),
        c > '\x7f' ==> b == alphanumeric(c),
{
    c.is_alphanumeric()
}

/// The alphanumeric characters of `s`, in order.
pub open spec fn keep_alphanumeric(s: Seq<char>) -> Seq<char>
    decreases s.len(),
{
    if s.len() == 0 {
        s
    } else if is_alphanumeric_spec(s.last()) {
        keep_alphanumeric(s.drop_last()).push(s.last())
    } else {
        keep_alphanumeric(s.drop_last())
    }
}

/// The file name of the socket of the session connected to `uri`:
/// "crazyflie-agent-<id>.sock", where <id> is the alphanumeric characters of
/// the URI.
pub open spec fn socket_name_spec(uri: Seq<char>) -> Seq<char> {
    "crazyflie-agent-"@ + keep_alphanumeric(uri) + ".sock"@
}

/// The path of the socket of the session connected to `uri`, in /tmp.
pub open spec fn socket_path_spec(uri: Seq<char>) -> Seq<char> {
    "/tmp/"@ + socket_name_spec(uri)
}

/// Derives the session socket path from a Crazyflie URI: the socket is
/// placed at `/tmp/crazyflie-agent-<id>.sock` where `<id>` is the
/// alphanumeric characters of the URI.
pub fn socket_path(uri: &str) -> (p: String)
    ensures
        p@ == socket_path_spec(uri@),
{
    let cs = chars_of(uri);
    let mut p = String::from_str("/tmp/crazyflie-agent-");
    let ghost start = p@;
    let mut i: usize = 0;
    while i < cs.len()
        invariant
            i <= cs.len(),
            p@ == start + keep_alphanumeric(cs@.subrange(0, i as int)),
        decreases cs.len() - i,
    {
        let c = cs[i];
        let ghost prefix = cs@.subrange(0, i + 1);
        assert(prefix.last() == c);
        assert(prefix.drop_last() == cs@.subrange(0, i as int));
        if is_alphanumeric(c) {
            push_char(&mut p, c);
        }
        i = i + 1;
    }
    assert(cs@.subrange(0, cs.len() as int) == cs@);
    p.append(".sock");
    assert(start == "/tmp/"@ + "crazyflie-agent-"@) by {
        reveal_strlit("/tmp/crazyflie-agent-");
        reveal_strlit("/tmp/");
        reveal_strlit("crazyflie-agent-");
    }
    assert(p@ =~= socket_path_spec(uri@));
    p
}

pub open spec fn is_prefix_of(p: Seq<char>, s: Seq<char>) -> bool {
    p.len() <= s.len() && s.subrange(0, p.len() as int) == p
}

pub open spec fn is_suffix_of(p: Seq<char>, s: Seq<char>) -> bool {
    p.len() <= s.len() && s.subrange(s.len() - p.len(), s.len() as int) == p
}

/// Whether a file name is that of a session socket.
pub open spec fn session_socket_name_spec(name: Seq<char>) -> bool {
    is_prefix_of("crazyflie-agent-"@, name) && is_suffix_of(".sock"@, name)
}

fn matches_at(s: &Vec<char>, p: &Vec<char>, at: usize) -> (b: bool)
    requires
        at + p.len() <= s.len(),
    ensures
        b == (s@.subrange(at as int, at + p.len()) == p@),
{
    let mut i: usize = 0;
    while i < p.len()
        invariant
            at + p.len() <= s.len(),
            i <= p.len(),
            s@.subrange(at as int, at + i) == p@.subrange(0, i as int),
        decreases p.len() - i,
    {
        if s[at + i] != p[i] {
            assert(s@.subrange(at as int, at + p.len())[i as int] != p@[i as int]);
            return false;
        }
        assert(s@.subrange(at as int, at + i + 1) =~= p@.subrange(0, i + 1));
        i = i + 1;
    }
    assert(p@.subrange(0, p.len() as int) == p@);
    true
}

/// Whether `name` is the file name of a session socket: it starts with
/// "crazyflie-agent-" and ends with ".sock".
pub fn is_session_socket_name(name: &str) -> (b: bool)
    ensures
        b == session_socket_name_spec(name@),
{
    let s = chars_of(name);
    let prefix = chars_of("crazyflie-agent-");
    let suffix = chars_of(".sock");
    if prefix.len() > s.len() || suffix.len() > s.len() {
        return false;
    }
    matches_at(&s, &prefix, 0) && matches_at(&s, &suffix, s.len() - suffix.len())
}

/// The first name at or after position `from` in a directory listing that
/// is a session socket, if any. A client looks for an active session by
/// trying the first candidate and, when nothing listens there (a socket left
/// behind by a daemon that is gone), searching again after it.
pub fn find_session_socket_from(names: &Vec<String>, from: usize) -> (r: Option<usize>)
    ensures
        match r {
            Some(i) => from <= i < names.len() && session_socket_name_spec(names@[i as int]@)
                && forall|j: int| from <= j < i ==> !session_socket_name_spec(#[trigger] names@[j]@),
            None => forall|j: int|
                from <= j < names.len() ==> !session_socket_name_spec(#[trigger] names@[j]@),
        },
{
    let mut i: usize = from;
    while i < names.len()
        invariant
            from <= i,
            forall|j: int| from <= j < i ==> !session_socket_name_spec(#[trigger] names@[j]@),
        decreases names.len() - i,
    {
        if is_session_socket_name(names[i].as_str()) {
            return Some(i);
        }
        i = i + 1;
    }
    None
}

/// The first of the file names in a directory listing that is a session
/// socket, if any.
pub fn find_session_socket(names: &Vec<String>) -> (r: Option<usize>)
    ensures
        match r {
            Some(i) => i < names.len() && session_socket_name_spec(names@[i as int]@) && forall|j: int|
                0 <= j < i ==> !session_socket_name_spec(#[trigger] names@[j]@),
            None => forall|j: int| 0 <= j < names.len() ==> !session_socket_name_spec(#[trigger] names@[j]@),
        },
{
    find_session_socket_from(names, 0)
}

/// What a client learned when it tried to connect to a candidate socket.
pub enum ProbeResult {
    /// A daemon answered: the session is active.
    Listening,
    /// Nothing listens there: the socket is stale.
    Refused,
}

/// The decision after trying to connect to the candidate at position `at`:
/// a listening daemon is the active session; otherwise the search goes on
/// with the names after it.
pub fn after_probe(names: &Vec<String>, at: usize, probe: ProbeResult) -> (r: Result<usize, Option<usize>>)
    requires
        at < names.len(),
    ensures
        probe is Listening ==> r == Ok::<usize, Option<usize>>(at),
        probe is Refused ==> match r {
            Ok(_) => false,
            Err(Some(i)) => at < i < names.len() && session_socket_name_spec(names@[i as int]@)
                && forall|j: int| at < j < i ==> !session_socket_name_spec(#[trigger] names@[j]@),
            Err(None) => forall|j: int|
                at < j < names.len() ==> !session_socket_name_spec(#[trigger] names@[j]@),
        },
{
    match probe {
        ProbeResult::Listening => Ok(at),
        ProbeResult::Refused => Err(find_session_socket_from(names, at + 1)),
    }
}

proof fn lemma_keep_alphanumeric_has_no_slash(s: Seq<char>)
    ensures
        forall|i: int| 0 <= i < keep_alphanumeric(s).len() ==> #[trigger] keep_alphanumeric(s)[i] != '/',
    decreases s.len(),
{
    if s.len() > 0 {
        lemma_keep_alphanumeric_has_no_slash(s.drop_last());
        assert(!is_alphanumeric_spec('/'));
        let k = keep_alphanumeric(s.drop_last());
        if is_alphanumeric_spec(s.last()) {
            assert(keep_alphanumeric(s) == k.push(s.last()));
            assert forall|i: int| 0 <= i < k.len() + 1 implies #[trigger] k.push(s.last())[i] != '/' by {
                if i == k.len() {
                    assert(s.last() != '/');
                } else {
                    assert(k.push(s.last())[i] == k[i]);
                }
            }
        }
    }
}

/// Law: the session socket is determined by the URI's alphanumeric
/// characters alone: two URIs give the same socket path exactly when their
/// alphanumeric characters are the same; the socket always lies directly in
/// /tmp, as its file name holds no '/'.
pub proof fn law_socket_path_by_id(a: Seq<char>, b: Seq<char>)
    ensures
        (socket_path_spec(a) == socket_path_spec(b)) <==> (keep_alphanumeric(a) == keep_alphanumeric(b)),
        forall|i: int| 0 <= i < socket_name_spec(a).len() ==> #[trigger] socket_name_spec(a)[i] != '/',
{
    let pre = "/tmp/crazyflie-agent-"@;
    reveal_strlit("/tmp/");
    reveal_strlit("crazyflie-agent-");
    reveal_strlit(".sock");
    let ia = keep_alphanumeric(a);
    let ib = keep_alphanumeric(b);
    let pa = socket_path_spec(a);
    let pb = socket_path_spec(b);
    assert(pa =~= "/tmp/"@ + "crazyflie-agent-"@ + ia + ".sock"@);
    assert(pb =~= "/tmp/"@ + "crazyflie-agent-"@ + ib + ".sock"@);
    if pa == pb {
        assert(ia =~= pa.subrange(21, pa.len() - 5));
        assert(ib =~= pb.subrange(21, pb.len() - 5));
    }
    lemma_keep_alphanumeric_has_no_slash(a);
    let n = socket_name_spec(a);
    assert forall|i: int| 0 <= i < n.len() implies #[trigger] n[i] != '/' by {
        if i < 16 {
            assert(n[i] == "crazyflie-agent-"@[i]);
        } else if i < 16 + ia.len() {
            assert(n[i] == ia[i - 16]);
        } else {
            assert(n[i] == ".sock"@[i - 16 - ia.len()]);
        }
    }
}

/// Law: clients find the daemon. The socket of the session connected to any
/// URI lies in /tmp under a name that clients take for a session socket.
pub proof fn law_daemon_socket_is_found(uri: Seq<char>)
    ensures
        socket_path_spec(uri) == "/tmp/"@ + socket_name_spec(uri),
        session_socket_name_spec(socket_name_spec(uri)),
{
    let name = socket_name_spec(uri);
    let id = keep_alphanumeric(uri);
    assert(name.subrange(0, "crazyflie-agent-"@.len() as int) =~= "crazyflie-agent-"@);
    assert(name.subrange(name.len() - ".sock"@.len(), name.len() as int) =~= ".sock"@);
}

/// The firmware version to report: the one read from the Crazyflie, or
/// "unknown" when it could not be read.
pub fn firmware_label(read: Option<String>) -> (s: String)
    ensures
        s@ == match read {
            Some(v) => v@,
            None => "unknown"@,
        },
{
    match read {
        Some(v) => v,
        None => String::from_str("unknown"),
    }
}

/// The status message once connected: "connected uri=<uri> firmware=<version>".
pub fn connected_message(uri: &str, firmware: &str) -> (s: String)
    ensures
        s@ == "connected uri="@ + uri@ + " firmware="@ + firmware@,
{
    let mut s = String::from_str("connected uri=");
    s.append(uri);
    s.append(" firmware=");
    s.append(firmware);
    s
}

/// The status message once the socket listens: "listening on <path>".
pub fn listening_message(path: &str) -> (s: String)
    ensures
        s@ == "listening on "@ + path@,
{
    let mut s = String::from_str("listening on ");
    s.append(path);
    s
}

/// What happened while the daemon waited for clients.
pub enum DaemonEvent {
    /// A client connected.
    ClientConnected,
    /// Accepting a connection failed with this error.
    AcceptFailed { error: String },
    /// A stop request asked the daemon to shut down.
    ShutdownRequested,
}

/// What the daemon does next.
pub enum DaemonAction {
    /// Serve the client, then wait for the next event.
    ServeClient,
    /// Leave the accept loop after writing this error line.
    ExitWithError { message: String },
    /// Leave the accept loop after writing this status line.
    ExitWithStatus { message: String },
}

/// The accept loop's decision on an event: serve a client; on a failed
/// accept, report it and leave; on a shutdown request, say so and leave.
pub fn daemon_loop_step(event: DaemonEvent) -> (a: DaemonAction)
    ensures
        match event {
            DaemonEvent::ClientConnected => a is ServeClient,
            DaemonEvent::AcceptFailed { error } => a matches DaemonAction::ExitWithError { message } && message@
                == "accept error: "@ + error@,
            DaemonEvent::ShutdownRequested => a matches DaemonAction::ExitWithStatus { message } && message@
                == "shutting down"@,
        },
{
    match event {
        DaemonEvent::ClientConnected => DaemonAction::ServeClient,
        DaemonEvent::AcceptFailed { error } => {
            let mut message = String::from_str("accept error: ");
            message.append(error.as_str());
            DaemonAction::ExitWithError { message }
        },
        DaemonEvent::ShutdownRequested => DaemonAction::ExitWithStatus {
            message: String::from_str("shutting down"),
        },
    }
}

} // verus!
