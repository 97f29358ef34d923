use crazyflie_agent_cli::bootloader::{
    boot_from_scan, bootloader_address, choose_boot, disable_safelink_packet, flash_start_address, loaded_message,
    progress_message, progress_percent, reset_init_packet, reset_target, reset_to_bootloader_packet,
    reset_to_firmware_packet, safelink_disabled_uri, wait_for_address_step, BootMode, WaitAction,
    WaitEvent, CONFIRM_REPEATS, TARGET_NRF51,
};
use crazyflie_agent_cli::cli::{
    render_response, request_for_command, ClientError, Commands, LogCommands, ParamCommands,
};
use crazyflie_agent_cli::output::{log_entry, log_sample, tagged_line, Tag};
use crazyflie_agent_cli::protocol::{LogVarInfo, ParamInfo, Request, Response};
use crazyflie_agent_cli::session::{
    after_probe, connected_message, daemon_loop_step, find_session_socket, find_session_socket_from,
    firmware_label, is_session_socket_name, listening_message, socket_path, DaemonAction,
    DaemonEvent, ProbeResult,
};
use crazyflie_agent_cli::toc_cache::{ascii_bytes_of, join_path, FileTocCache};
use crazyflie_agent_cli::value::Value;

#[test]
fn client_commands_map_to_requests() {
    assert_eq!(request_for_command(Commands::Stop), Ok(Request::Stop));
    assert_eq!(request_for_command(Commands::Status), Ok(Request::Status));
    assert_eq!(
        request_for_command(Commands::Param { command: ParamCommands::List }),
        Ok(Request::ParamList)
    );
    assert_eq!(
        request_for_command(Commands::Param { command: ParamCommands::Get { name: "a.b".to_string() } }),
        Ok(Request::ParamGet { name: "a.b".to_string() })
    );
    assert_eq!(
        request_for_command(Commands::Param {
            command: ParamCommands::SetValue { name: "a.b".to_string(), value: "3".to_string() },
        }),
        Ok(Request::ParamSet { name: "a.b".to_string(), value: "3".to_string() })
    );
    assert_eq!(request_for_command(Commands::Log { command: LogCommands::List }), Ok(Request::LogList));
    assert_eq!(
        request_for_command(Commands::Log {
            command: LogCommands::Start { variables: vec!["pm.vbat".to_string()], rate: 10 },
        }),
        Ok(Request::LogStart { variables: vec!["pm.vbat".to_string()], rate_hz: 10 })
    );
    assert_eq!(request_for_command(Commands::Log { command: LogCommands::Stop }), Ok(Request::LogStop));
}

#[test]
fn standalone_commands_are_not_sent_to_the_daemon() {
    let standalone = [
        Commands::Start { uri: "radio://0/80/2M".to_string() },
        Commands::Scan,
        Commands::Flash { path: "cf2.bin".to_string(), uri: None, cold: false },
        Commands::Reset { uri: None },
        Commands::Recover,
    ];
    for cmd in standalone {
        assert_eq!(request_for_command(cmd), Err(ClientError::NotAClientCommand));
    }
    assert_eq!(
        ClientError::NotAClientCommand.message(),
        "This command should not be dispatched through the client"
    );
}

#[test]
fn responses_render_as_lines() {
    let r = render_response(&Response::Success { message: "log started".to_string() });
    assert_eq!((r.stdout, r.stderr, r.exit_code), (vec!["log started".to_string()], vec![], 0));
    let r = render_response(&Response::Error { message: "boom".to_string() });
    assert_eq!((r.stdout, r.stderr, r.exit_code), (vec![], vec!["error: boom".to_string()], 1));
    let r = render_response(&Response::Status {
        connected: false,
        uri: "radio://0/80/2M".to_string(),
        firmware_version: None,
    });
    assert_eq!(r.stdout, vec!["connected: false".to_string(), "uri: radio://0/80/2M".to_string()]);
    assert_eq!(r.exit_code, 1);
    let r = render_response(&Response::Status {
        connected: true,
        uri: "u".to_string(),
        firmware_version: Some("2024.2".to_string()),
    });
    assert_eq!(r.stdout, vec!["connected: true", "uri: u", "firmware: 2024.2"]);
    assert_eq!(r.exit_code, 0);
    let r = render_response(&Response::ParamValue { name: "a.b".to_string(), value: "7".to_string() });
    assert_eq!(r.stdout, vec!["7".to_string()]);
    let r = render_response(&Response::ParamList {
        params: vec![ParamInfo {
            name: "a.b".to_string(),
            value_type: "u8".to_string(),
            access: "rw".to_string(),
            value: "1".to_string(),
        }],
    });
    assert_eq!(r.stdout, vec!["a.b\tu8\trw\t1".to_string()]);
    let r = render_response(&Response::LogList {
        variables: vec![LogVarInfo { name: "pm.vbat".to_string(), value_type: "f32".to_string() }],
    });
    assert_eq!(r.stdout, vec!["pm.vbat\tf32".to_string()]);
}

#[test]
fn tags_and_lines() {
    assert_eq!(Tag::Console.label(), "[console]");
    assert_eq!(Tag::Status.label(), "[status]");
    assert_eq!(Tag::Flash.label(), "[flash]");
    assert_eq!(Tag::Error.label(), "[error]");
    assert_eq!(Tag::Recover.label(), "[recover]");
    assert_eq!(Tag::Log(1234).label(), "[log 1.234]");
    assert_eq!(Tag::Log(5).label(), "[log 0.005]");
    assert_eq!(Tag::Log(0).label(), "[log 0.000]");
    assert_eq!(Tag::Log(16_777_215).label(), "[log 16777.215]");
    for ms in [0u32, 1, 999, 1000, 1001, 123_456, u32::MAX] {
        assert_eq!(Tag::Log(ms).label(), format!("[log {:.3}]", ms as f64 / 1000.0));
    }
    assert_eq!(tagged_line(Tag::Console, "hello"), "[console] hello");
    assert_eq!(log_entry("pm.vbat", &Value::F32("3.7".to_string())), "pm.vbat=3.7");
    assert_eq!(log_entry("x", &Value::I16(-2)), "x=-2");
    assert!(tagged_line(Tag::Log(42), "").starts_with('['));
    let sample = vec![
        ("var1".to_string(), Value::F32("0.5".to_string())),
        ("var2".to_string(), Value::F32("1.2".to_string())),
    ];
    assert_eq!(tagged_line(Tag::Log(1234), &log_sample(&sample)), "[log 1.234] var1=0.5 var2=1.2");
    assert_eq!(log_sample(&vec![]), "");
    assert_eq!(log_sample(&vec![("pm.vbat".to_string(), Value::U8(3))]), "pm.vbat=3");
}

#[test]
fn session_socket_naming() {
    assert_eq!(
        socket_path("radio://0/80/2M/E7E7E7E7E7"),
        "/tmp/crazyflie-agent-radio0802ME7E7E7E7E7.sock"
    );
    assert_eq!(socket_path(""), "/tmp/crazyflie-agent-.sock");
    assert_eq!(socket_path("usb://0"), "/tmp/crazyflie-agent-usb0.sock");
    assert!(is_session_socket_name("crazyflie-agent-radio0802M.sock"));
    assert!(is_session_socket_name("crazyflie-agent-.sock"));
    assert!(!is_session_socket_name("crazyflie-agent-x.sock.bak"));
    assert!(!is_session_socket_name("other.sock"));
    assert!(!is_session_socket_name("crazyflie-agent"));
    assert!(!is_session_socket_name(""));
    let names = vec!["a".to_string(), "crazyflie-agent-1.sock".to_string(), "crazyflie-agent-2.sock".to_string()];
    assert_eq!(find_session_socket(&names), Some(1));
    assert_eq!(find_session_socket(&vec![]), None);
    assert_eq!(find_session_socket_from(&names, 2), Some(2));
    assert_eq!(find_session_socket_from(&names, 3), None);
    // a stale socket is passed over for the next candidate
    assert_eq!(after_probe(&names, 1, ProbeResult::Listening), Ok(1));
    assert_eq!(after_probe(&names, 1, ProbeResult::Refused), Err(Some(2)));
    assert_eq!(after_probe(&names, 2, ProbeResult::Refused), Err(None));
    assert_eq!(socket_path("radio://0/80/2M/E7E7E7E7E7"), socket_path("radio0802ME7E7E7E7E7"));
    assert_ne!(socket_path("radio://0/80/2M"), socket_path("radio://0/90/2M"));
    for uri in ["radio://0/80/2M/E7E7E7E7E7", "radio://0/80/2M?safelink=0", "ü://ß"] {
        let p = socket_path(uri);
        assert!(is_session_socket_name(p.strip_prefix("/tmp/").unwrap()));
    }
}

#[test]
fn daemon_messages_and_loop() {
    assert_eq!(firmware_label(Some("2024.2".to_string())), "2024.2");
    assert_eq!(firmware_label(None), "unknown");
    assert_eq!(connected_message("radio://0", "2024.2"), "connected uri=radio://0 firmware=2024.2");
    assert_eq!(listening_message("/tmp/x.sock"), "listening on /tmp/x.sock");
    assert!(matches!(daemon_loop_step(DaemonEvent::ClientConnected), DaemonAction::ServeClient));
    match daemon_loop_step(DaemonEvent::AcceptFailed { error: "too many files".to_string() }) {
        DaemonAction::ExitWithError { message } => assert_eq!(message, "accept error: too many files"),
        _ => panic!("expected an error exit"),
    }
    match daemon_loop_step(DaemonEvent::ShutdownRequested) {
        DaemonAction::ExitWithStatus { message } => assert_eq!(message, "shutting down"),
        _ => panic!("expected a status exit"),
    }
}

#[test]
fn bootloader_packets() {
    assert_eq!(TARGET_NRF51, 0xFE);
    assert_eq!(CONFIRM_REPEATS, 10);
    assert_eq!(disable_safelink_packet(), vec![0xFF, 0xFE, 0xFF, 0x05, 0x00]);
    assert_eq!(reset_init_packet(), vec![0xFF, 0xFE, 0xFF]);
    assert_eq!(reset_to_bootloader_packet(), vec![0xFF, 0xFE, 0xF0, 0x00]);
    assert_eq!(reset_to_firmware_packet(), vec![0xFF, 0xFE, 0xF0, 0x01]);
}

#[test]
fn safelink_uri() {
    assert_eq!(safelink_disabled_uri("radio://0/80/2M/E7E7E7E7E7"), "radio://0/80/2M/E7E7E7E7E7?safelink=0");
    assert_eq!(safelink_disabled_uri("radio://0/80/2M?ack=1"), "radio://0/80/2M?ack=1&safelink=0");
    assert_eq!(safelink_disabled_uri(""), "?safelink=0");
}

#[test]
fn bootloader_address_from_answer() {
    assert_eq!(bootloader_address(&[0xFE, 0xFF, 1, 2, 3, 4]), Some([0xB1, 4, 3, 2, 1]));
    assert_eq!(bootloader_address(&[0xFE, 0xFF, 1, 2, 3, 4, 9, 9]), Some([0xB1, 4, 3, 2, 1]));
    assert_eq!(bootloader_address(&[0xFE, 0xFF]), None);
    assert_eq!(bootloader_address(&[0xFE, 0x00, 1, 2, 3, 4]), None);
    assert_eq!(bootloader_address(&[]), None);
}

#[test]
fn waiting_for_the_bootloader() {
    match wait_for_address_step(&WaitEvent::Received {
        data: vec![0xFE, 0xFF, 0xA, 0xB, 0xC, 0xD],
        past_deadline: false,
    }) {
        WaitAction::Found { address } => assert_eq!(address, [0xB1, 0xD, 0xC, 0xB, 0xA]),
        _ => panic!("expected the address"),
    }
    assert!(matches!(
        wait_for_address_step(&WaitEvent::Received { data: vec![0x00, 0x01, 0x02], past_deadline: false }),
        WaitAction::KeepWaiting
    ));
    // past the deadline the wait ends, whatever arrives
    for data in [vec![0x00, 0x01, 0x02], vec![0xFE, 0xFF, 1, 2, 3, 4], vec![0xFE, 0xFF, 1]] {
        match wait_for_address_step(&WaitEvent::Received { data, past_deadline: true }) {
            WaitAction::GiveUp { message } => assert_eq!(message, "Timeout waiting for bootloader address"),
            _ => panic!("expected to give up"),
        }
    }
    match wait_for_address_step(&WaitEvent::Quiet { past_deadline: false }) {
        WaitAction::Resend { packet } => assert_eq!(packet, vec![0xFF, 0xFE, 0xFF]),
        _ => panic!("expected a resend"),
    }
    match wait_for_address_step(&WaitEvent::Quiet { past_deadline: true }) {
        WaitAction::GiveUp { message } => assert_eq!(message, "Timeout waiting for bootloader address"),
        _ => panic!("expected to give up"),
    }
}

#[test]
fn boot_mode_choice() {
    assert_eq!(choose_boot(None, true), BootMode::Cold);
    assert_eq!(choose_boot(Some("radio://0".to_string()), true), BootMode::Cold);
    assert_eq!(
        choose_boot(Some("radio://0".to_string()), false),
        BootMode::Warm { uri: "radio://0".to_string() }
    );
    assert_eq!(choose_boot(None, false), BootMode::Scan);
    assert_eq!(
        boot_from_scan(&vec!["radio://0/80/2M/E7E7E7E7E7".to_string(), "radio://0/90/2M".to_string()]),
        Ok(BootMode::Warm { uri: "radio://0/80/2M/E7E7E7E7E7".to_string() })
    );
    assert_eq!(boot_from_scan(&vec![]), Err("No Crazyflie found on radio".to_string()));
}

#[test]
fn flashing_arithmetic_and_messages() {
    assert_eq!(flash_start_address(16, 1024), 16384);
    assert_eq!(flash_start_address(0xffff, 0xffff), 0xfffe_0001);
    assert_eq!(progress_percent(0, 200), 0);
    assert_eq!(progress_percent(199, 200), 99);
    assert_eq!(progress_percent(200, 200), 100);
    assert_eq!(progress_message(50, 200), "progress 25%");
    assert_eq!(loaded_message(1234, "build/cf2.bin"), "loaded 1234 bytes from build/cf2.bin");
}

#[test]
fn reset_picks_the_first_found() {
    assert_eq!(
        reset_target(&vec!["radio://0/80/2M".to_string(), "radio://0/90/2M".to_string()]),
        Ok("radio://0/80/2M".to_string())
    );
    assert_eq!(reset_target(&vec![]), Err("No Crazyflie found on radio".to_string()));
}

#[test]
fn toc_cache_layout() {
    let c = FileTocCache::with_cache_root(Some(b"/home/alice/.cache".to_vec()));
    assert_eq!(c.dir(), b"/home/alice/.cache/crazyflie-agent-cli/toc-cache");
    let c = FileTocCache::with_cache_root(Some(b"/home/alice/.cache/".to_vec()));
    assert_eq!(c.dir(), b"/home/alice/.cache/crazyflie-agent-cli/toc-cache");
    // a root that is not UTF-8 is kept as it is
    let c = FileTocCache::with_cache_root(Some(vec![b'/', 0xff, 0xfe]));
    assert_eq!(c.dir(), b"/\xff\xfe/crazyflie-agent-cli/toc-cache");
    let c = FileTocCache::with_cache_root(None);
    assert_eq!(c.dir(), b"/tmp/crazyflie-agent-cli/toc-cache");
    assert_eq!(c.entry_path(&[1, 2, 3, 15, 16]), b"/tmp/crazyflie-agent-cli/toc-cache/0102030f10".to_vec());
    assert_eq!(c.entry_path(&[0xde, 0xad, 0xbe, 0xef]), b"/tmp/crazyflie-agent-cli/toc-cache/deadbeef".to_vec());
    assert_ne!(c.entry_path(&[0x01]), c.entry_path(&[0x10]));
    let fresh = FileTocCache::new();
    assert!(fresh.dir().ends_with(b"crazyflie-agent-cli/toc-cache"));
    assert_eq!(join_path(b"", b"a"), b"a".to_vec());
    assert_eq!(join_path(b"/", b"a"), b"/a".to_vec());
    assert_eq!(join_path(b"x", b"a"), b"x/a".to_vec());
    assert_eq!(ascii_bytes_of("toc"), b"toc".to_vec());
}
