use crazyflie_agent_cli::cli::render_response;
use crazyflie_agent_cli::handler::{log_period_ms, Outcome, RequestHandler, SessionInfo, Step};
use crazyflie_agent_cli::protocol::{LogVarInfo, ParamInfo, Request, Response};
use crazyflie_agent_cli::session::{find_session_socket, socket_path};
use crazyflie_agent_cli::value::{Value, ValueType};

const URI: &str = "radio://0/80/2M/E7E7E7E7E7";

fn session() -> SessionInfo {
    SessionInfo { uri: URI.to_string(), firmware_version: "2024.2".to_string() }
}

/// Drives a request through the handler, answering each step from `answer`,
/// and returns the steps taken (the last one is the reply).
fn drive(request: Request, mut answer: impl FnMut(&Step) -> Outcome) -> Vec<Step> {
    let (mut handler, mut step) = RequestHandler::start(request, &session());
    let mut steps = Vec::new();
    loop {
        if handler.is_finished() {
            steps.push(step);
            return steps;
        }
        let outcome = answer(&step);
        assert!(handler.accepts(&outcome), "outcome {:?} for step {:?}", outcome, step);
        steps.push(step);
        let (h, s) = handler.resume(outcome);
        handler = h;
        step = s;
    }
}

fn reply_of(steps: &[Step]) -> &Response {
    match steps.last() {
        Some(Step::Reply { response, .. }) => response,
        other => panic!("no reply: {:?}", other),
    }
}

fn no_answers(step: &Step) -> Outcome {
    panic!("unexpected step {:?}", step)
}

/// A simulated Crazyflie with a small parameter table.
fn param_table(step: &Step) -> Outcome {
    let known = |name: &str| -> Option<(ValueType, bool, Value)> {
        match name {
            "sound.effect" => Some((ValueType::U8, true, Value::U8(0))),
            "firmware.revision0" => Some((ValueType::U32, false, Value::U32(0x1234))),
            "system.selftestPassed" => Some((ValueType::U8, false, Value::U8(1))),
            "stabilizer.thrust" => Some((ValueType::F32, true, Value::F32("0.5".to_string()))),
            _ => None,
        }
    };
    let missing = |name: &str| format!("Param {} not found", name);
    match step {
        Step::ParamNames => Outcome::Names {
            names: vec![
                "sound.effect".to_string(),
                "firmware.revision0".to_string(),
                "system.selftestPassed".to_string(),
                "stabilizer.thrust".to_string(),
            ],
        },
        Step::ParamType { name } => Outcome::Type { result: known(name).map(|k| k.0).ok_or(missing(name)) },
        Step::ParamWritable { name } => Outcome::Writable { result: known(name).map(|k| k.1).ok_or(missing(name)) },
        Step::ParamRead { name } => Outcome::Read { result: known(name).map(|k| k.2).ok_or(missing(name)) },
        Step::ParamWrite { .. } => Outcome::Done { result: Ok(()) },
        Step::ParamWriteFloat { text, .. } => Outcome::Done {
            result: text.parse::<f32>().map(|_| ()).map_err(|e| e.to_string()),
        },
        other => panic!("unexpected step {:?}", other),
    }
}

#[test]
fn test_start_status_stop() {
    // status reports the connection, its URI and the firmware version
    let steps = drive(Request::Status, no_answers);
    let out = render_response(reply_of(&steps));
    assert_eq!(out.exit_code, 0, "status should succeed");
    let stdout = out.stdout.join("\n");
    assert!(stdout.contains("connected: true"), "should be connected.\nGot: {}", stdout);
    assert!(stdout.contains(URI), "status should contain URI.\nGot: {}", stdout);
    assert!(stdout.contains("firmware:"), "status should contain firmware version.\nGot: {}", stdout);

    // stop confirms and shuts the daemon down
    let steps = drive(Request::Stop, no_answers);
    match steps.last() {
        Some(Step::Reply { shutdown, .. }) => assert!(*shutdown),
        other => panic!("no reply: {:?}", other),
    }
    let out = render_response(reply_of(&steps));
    assert_eq!(out.exit_code, 0, "stop should succeed");
    assert!(out.stdout.join("\n").contains("stopping"), "stop should confirm.\nGot: {:?}", out.stdout);

    // once the daemon has removed its socket, a client finds no session
    let daemon_socket = socket_path(URI);
    let name = daemon_socket.strip_prefix("/tmp/").unwrap().to_string();
    assert_eq!(find_session_socket(&vec!["other".to_string(), name.clone()]), Some(1));
    assert_eq!(find_session_socket(&vec!["other".to_string()]), None, "status should fail after stop");
}

#[test]
fn test_param_list() {
    let steps = drive(Request::ParamList, param_table);
    let out = render_response(reply_of(&steps));
    assert_eq!(out.exit_code, 0, "param list should succeed");
    assert_eq!(out.stdout.len(), 4);
    for line in &out.stdout {
        let fields: Vec<&str> = line.split('\t').collect();
        assert_eq!(fields.len(), 4, "expected 4 fields, got {:?}", fields);
    }
    assert_eq!(out.stdout[0], "sound.effect\tu8\trw\t0");
    assert_eq!(out.stdout[1], "firmware.revision0\tu32\tro\t4660");
    assert_eq!(out.stdout[3], "stabilizer.thrust\tf32\trw\t0.5");
}

#[test]
fn param_list_stops_at_first_failure() {
    let steps = drive(Request::ParamList, |step| match step {
        Step::ParamNames => Outcome::Names { names: vec!["a.b".to_string(), "c.d".to_string()] },
        Step::ParamType { .. } => Outcome::Type { result: Ok(ValueType::U8) },
        Step::ParamWritable { .. } => Outcome::Writable { result: Ok(true) },
        Step::ParamRead { name } if name == "a.b" => Outcome::Read { result: Ok(Value::U8(3)) },
        Step::ParamRead { .. } => Outcome::Read { result: Err("timeout".to_string()) },
        other => panic!("unexpected step {:?}", other),
    });
    assert_eq!(
        reply_of(&steps),
        &Response::Error { message: "param get error for c.d: timeout".to_string() }
    );
    let steps = drive(Request::ParamList, |step| match step {
        Step::ParamNames => Outcome::Names { names: vec!["a.b".to_string()] },
        Step::ParamType { .. } => Outcome::Type { result: Err("bad".to_string()) },
        other => panic!("unexpected step {:?}", other),
    });
    assert_eq!(reply_of(&steps), &Response::Error { message: "param type error for a.b: bad".to_string() });
    let steps = drive(Request::ParamList, |step| match step {
        Step::ParamNames => Outcome::Names { names: vec!["a.b".to_string()] },
        Step::ParamType { .. } => Outcome::Type { result: Ok(ValueType::I16) },
        Step::ParamWritable { .. } => Outcome::Writable { result: Err("gone".to_string()) },
        other => panic!("unexpected step {:?}", other),
    });
    assert_eq!(reply_of(&steps), &Response::Error { message: "param access error for a.b: gone".to_string() });
}

#[test]
fn empty_tables_give_empty_lists() {
    let steps = drive(Request::ParamList, |_| Outcome::Names { names: vec![] });
    assert_eq!(reply_of(&steps), &Response::ParamList { params: vec![] });
    let steps = drive(Request::LogList, |_| Outcome::Names { names: vec![] });
    assert_eq!(reply_of(&steps), &Response::LogList { variables: vec![] });
}

#[test]
fn test_param_get() {
    let steps = drive(Request::ParamGet { name: "system.selftestPassed".to_string() }, param_table);
    let out = render_response(reply_of(&steps));
    assert_eq!(out.exit_code, 0, "param get should succeed");
    assert!(!out.stdout.join("\n").trim().is_empty(), "param value should not be empty");
    assert_eq!(out.stdout, vec!["1".to_string()]);
}

#[test]
fn test_param_get_nonexistent() {
    let steps = drive(Request::ParamGet { name: "nonexistent.param".to_string() }, param_table);
    let out = render_response(reply_of(&steps));
    assert_ne!(out.exit_code, 0, "param get of nonexistent should fail");
    let stderr = out.stderr.join("\n");
    assert!(stderr.contains("error"), "should print error.\nGot: {}", stderr);
    assert_eq!(stderr, "error: param get error: Param nonexistent.param not found");
}

#[test]
fn test_param_set_and_get() {
    let steps = drive(
        Request::ParamSet { name: "sound.effect".to_string(), value: "1".to_string() },
        param_table,
    );
    assert!(steps.iter().any(|s| matches!(s, Step::ParamWrite { name, value: Value::U8(1) } if name == "sound.effect")));
    let out = render_response(reply_of(&steps));
    assert_eq!(out.exit_code, 0, "param set should succeed");
    assert!(out.stdout.join("\n").contains("1"), "should confirm new value.\nGot: {:?}", out.stdout);
    assert_eq!(out.stdout, vec!["set sound.effect = 1".to_string()]);
}

#[test]
fn test_param_set_wrong_type() {
    let steps = drive(
        Request::ParamSet { name: "sound.effect".to_string(), value: "not_a_number".to_string() },
        param_table,
    );
    assert!(!steps.iter().any(|s| matches!(s, Step::ParamWrite { .. })));
    let out = render_response(reply_of(&steps));
    assert_ne!(out.exit_code, 0, "param set with wrong type should fail");
    let stderr = out.stderr.join("\n");
    assert!(stderr.contains("error"), "should print error.\nGot: {}", stderr);
    assert_eq!(stderr, "error: param set error: invalid digit found in string");
}

#[test]
fn test_param_set_readonly() {
    let steps = drive(
        Request::ParamSet { name: "firmware.revision0".to_string(), value: "42".to_string() },
        param_table,
    );
    assert!(!steps.iter().any(|s| matches!(s, Step::ParamWrite { .. } | Step::ParamWriteFloat { .. })));
    let out = render_response(reply_of(&steps));
    assert_ne!(out.exit_code, 0, "param set on read-only should fail");
    let stderr = out.stderr.join("\n");
    assert!(stderr.contains("error") || stderr.contains("read"), "should report an error about read-only.\nstderr: {}", stderr);
    assert_eq!(stderr, "error: param set error: firmware.revision0 is read-only");
}

#[test]
fn param_set_of_float_and_unknown_params() {
    let steps = drive(
        Request::ParamSet { name: "stabilizer.thrust".to_string(), value: "0.25".to_string() },
        param_table,
    );
    assert!(steps.iter().any(|s| matches!(s, Step::ParamWriteFloat { value_type: ValueType::F32, text, .. } if text == "0.25")));
    assert_eq!(reply_of(&steps), &Response::Success { message: "set stabilizer.thrust = 0.25".to_string() });
    let steps = drive(
        Request::ParamSet { name: "stabilizer.thrust".to_string(), value: "x".to_string() },
        param_table,
    );
    assert_eq!(reply_of(&steps), &Response::Error { message: "param set error: invalid float literal".to_string() });
    let steps = drive(
        Request::ParamSet { name: "no.such".to_string(), value: "1".to_string() },
        param_table,
    );
    assert_eq!(reply_of(&steps), &Response::Error { message: "param set error: Param no.such not found".to_string() });
    let steps = drive(
        Request::ParamSet { name: "sound.effect".to_string(), value: "300".to_string() },
        param_table,
    );
    assert_eq!(
        reply_of(&steps),
        &Response::Error { message: "param set error: number too large to fit in target type".to_string() }
    );
}

#[test]
fn test_log_list() {
    let names = ["pm.vbat", "stateEstimate.yaw", "odd.var"];
    let steps = drive(Request::LogList, |step| match step {
        Step::LogNames => Outcome::Names { names: names.iter().map(|n| n.to_string()).collect() },
        Step::LogType { name } if name == "odd.var" => Outcome::Type { result: Err("?".to_string()) },
        Step::LogType { .. } => Outcome::Type { result: Ok(ValueType::F32) },
        other => panic!("unexpected step {:?}", other),
    });
    let out = render_response(reply_of(&steps));
    assert_eq!(out.exit_code, 0, "log list should succeed");
    for line in &out.stdout {
        let fields: Vec<&str> = line.split('\t').collect();
        assert_eq!(fields.len(), 2, "expected 2 fields, got {:?}", fields);
    }
    assert_eq!(
        reply_of(&steps),
        &Response::LogList {
            variables: vec![
                LogVarInfo { name: "pm.vbat".to_string(), value_type: "f32".to_string() },
                LogVarInfo { name: "stateEstimate.yaw".to_string(), value_type: "f32".to_string() },
                LogVarInfo { name: "odd.var".to_string(), value_type: "unknown".to_string() },
            ],
        }
    );
}

#[test]
fn test_log_start_invalid_variable() {
    let steps = drive(
        Request::LogStart { variables: vec!["nonexistent.var".to_string()], rate_hz: 1 },
        |step| match step {
            Step::LogStop => Outcome::Done { result: Ok(()) },
            Step::LogStart { .. } => Outcome::Done { result: Err("Variable not found".to_string()) },
            other => panic!("unexpected step {:?}", other),
        },
    );
    let out = render_response(reply_of(&steps));
    assert_ne!(out.exit_code, 0, "log start with invalid var should fail");
    let stderr = out.stderr.join("\n");
    assert!(stderr.contains("error"), "should print error.\nGot: {}", stderr);
    assert_eq!(stderr, "error: log start error: Variable not found");
}

#[test]
fn test_log_start_and_stop() {
    let steps = drive(
        Request::LogStart { variables: vec!["pm.vbat".to_string()], rate_hz: 10 },
        |_| Outcome::Done { result: Ok(()) },
    );
    assert!(matches!(steps[0], Step::LogStop));
    match &steps[1] {
        Step::LogStart { variables, period_ms } => {
            assert_eq!(variables, &vec!["pm.vbat".to_string()]);
            assert_eq!(*period_ms, 100);
        },
        other => panic!("unexpected step {:?}", other),
    }
    let out = render_response(reply_of(&steps));
    assert!(out.stdout.join("\n").contains("log started"), "should confirm.\nGot: {:?}", out.stdout);

    let steps = drive(Request::LogStop, |_| Outcome::Done { result: Ok(()) });
    assert!(matches!(steps[0], Step::LogStop));
    let out = render_response(reply_of(&steps));
    assert_eq!(out.exit_code, 0, "log stop should succeed");
    assert!(out.stdout.join("\n").contains("log stopped"), "should confirm.\nGot: {:?}", out.stdout);
}

#[test]
fn test_log_start_replaces_previous() {
    for rate in [5u64, 1, 0, 1000] {
        let steps = drive(
            Request::LogStart { variables: vec!["stateEstimate.yaw".to_string()], rate_hz: rate },
            |_| Outcome::Done { result: Ok(()) },
        );
        // the previous block is stopped before the new one starts
        assert!(matches!(steps[0], Step::LogStop));
        assert!(matches!(&steps[1], Step::LogStart { variables, .. } if variables == &vec!["stateEstimate.yaw".to_string()]));
    }
}

#[test]
fn log_period_follows_rate() {
    assert_eq!(log_period_ms(0), 100);
    assert_eq!(log_period_ms(1), 1000);
    assert_eq!(log_period_ms(3), 333);
    assert_eq!(log_period_ms(10), 100);
    assert_eq!(log_period_ms(100), 10);
    assert_eq!(log_period_ms(1000), 10);
    assert_eq!(log_period_ms(u64::MAX), 10);
    for rate in 0..2000u64 {
        let p = log_period_ms(rate);
        assert!((10..=2550).contains(&p));
    }
}

#[test]
fn handler_refuses_mismatched_outcomes() {
    let (handler, step) = RequestHandler::start(Request::ParamList, &session());
    assert!(matches!(step, Step::ParamNames));
    assert!(!handler.accepts(&Outcome::Done { result: Ok(()) }));
    assert!(handler.accepts(&Outcome::Names { names: vec![] }));
    let (handler, _) = RequestHandler::start(Request::Status, &session());
    assert!(handler.is_finished());
    assert!(!handler.accepts(&Outcome::Done { result: Ok(()) }));
}

#[test]
fn param_info_entries_carry_all_fields() {
    let steps = drive(Request::ParamList, |step| match step {
        Step::ParamNames => Outcome::Names { names: vec!["x.y".to_string()] },
        Step::ParamType { .. } => Outcome::Type { result: Ok(ValueType::I8) },
        Step::ParamWritable { .. } => Outcome::Writable { result: Ok(false) },
        Step::ParamRead { .. } => Outcome::Read { result: Ok(Value::I8(-3)) },
        other => panic!("unexpected step {:?}", other),
    });
    assert_eq!(
        reply_of(&steps),
        &Response::ParamList {
            params: vec![ParamInfo {
                name: "x.y".to_string(),
                value_type: "i8".to_string(),
                access: "ro".to_string(),
                value: "-3".to_string(),
            }],
        }
    );
}
