use dashpipe::client::{client_input, launch_mode, ClientInput, Launch};
use dashpipe::cmd_line::{cmd_line_arguments, parse_port, ArgValues, CmdArguments};
use dashpipe::proto::server_address;
use dashpipe::util::AppError;

fn values(port: &str) -> ArgValues {
    ArgValues {
        port: port.to_string(),
        name: Some("n".to_string()),
        file: None,
        dashboard: Some("dash".to_string()),
        chart: None,
        no_show: true,
        replace: false,
        halt: false,
        force_new: true,
        daemon: false,
        once: true,
    }
}

#[test]
fn port_parsing_follows_u16_from_str() {
    for s in ["3030", "+3030", "0", "65535", "0003030", "", "+", "-1", "65536", "30a", " 1", "99999999999"] {
        assert_eq!(parse_port(s), s.parse::<u16>().ok(), "{:?}", s);
    }
}

#[test]
fn port_numeral_round_trip() {
    for p in [0u16, 7, 10, 3030, 65535] {
        let a = server_address(p);
        assert_eq!(parse_port(&a["127.0.0.1:".len()..]), Some(p));
    }
}

#[test]
fn arguments_from_command_line_values() {
    let a = cmd_line_arguments(values("3030"));
    assert_eq!(a.port, 3030);
    assert_eq!(a.pipe_args.kind, "data");
    assert_eq!(a.pipe_args.name, Some("n".to_string()));
    assert_eq!(a.pipe_args.dashboard, Some("dash".to_string()));
    assert_eq!(a.pipe_args.no_show, Some(true));
    assert_eq!(a.pipe_args.replace, None);
    assert_eq!(a.pipe_args.halt, None);
    assert_eq!(a.pipe_args.force_new, Some(true));
    assert!(a.once && !a.daemon_only);
    assert_eq!(a.file, None);
    assert_eq!(a.trickle, None);
}

fn args_with(halt: bool, daemon: bool, file: Option<&str>) -> CmdArguments {
    let mut v = values("1");
    v.halt = halt;
    v.daemon = daemon;
    v.file = file.map(|s| s.to_string());
    cmd_line_arguments(v)
}

#[test]
fn launch_modes() {
    assert!(matches!(launch_mode(&args_with(false, true, None)), Launch::DaemonOnly));
    assert!(matches!(
        launch_mode(&args_with(false, false, None)),
        Launch::Client { start_daemon: true }
    ));
    assert!(matches!(
        launch_mode(&args_with(true, false, None)),
        Launch::Client { start_daemon: false }
    ));
}

#[test]
fn client_inputs() {
    assert!(matches!(client_input(&args_with(true, false, Some("f"))), ClientInput::Halt));
    match client_input(&args_with(false, false, Some("data.csv"))) {
        ClientInput::File(f) => assert_eq!(f, "data.csv"),
        _ => panic!("expected a file"),
    }
    assert!(matches!(client_input(&args_with(false, false, None)), ClientInput::Stdin));
}

#[test]
fn app_error_message() {
    assert_eq!(AppError::HaltError.message(), "halt");
}
