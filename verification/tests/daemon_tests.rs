use glogout::daemon::{socket_action, SocketAction};
use glogout::daemon::{client_line, parse_request, socket_path, Command, DaemonError, Request};

#[test]
fn requests_are_read_after_trimming() {
    assert!(matches!(parse_request("show\n"), Request::Command(Command::Show)));
    assert!(matches!(parse_request("  toggle \r\n"), Request::Command(Command::Toggle)));
    assert!(matches!(parse_request("\n"), Request::Empty));
    assert!(matches!(parse_request(""), Request::Empty));
    match parse_request(" hide\n") {
        Request::Unknown(s) => assert_eq!(s, "hide"),
        other => panic!("unexpected {other:?}"),
    }
    assert!(matches!(parse_request("SHOW"), Request::Unknown(_)));
}

#[test]
fn client_lines_round_trip() {
    for c in [Command::Show, Command::Toggle] {
        let line = client_line(c);
        assert!(line.ends_with('\n'));
        match parse_request(&line) {
            Request::Command(back) => assert_eq!(back, c),
            other => panic!("unexpected {other:?}"),
        }
    }
    assert_eq!(client_line(Command::Show), "show\n");
    assert_eq!(client_line(Command::Toggle), "toggle\n");
    assert_eq!(Command::Toggle.word(), "toggle");
}

#[test]
fn socket_lives_in_runtime_dir() {
    assert_eq!(socket_path(Some("/run/user/1000")), Ok("/run/user/1000/glogout.sock".to_string()));
    assert_eq!(socket_path(Some("/tmp/")), Ok("/tmp/glogout.sock".to_string()));
    assert_eq!(socket_path(None), Err(DaemonError::RuntimeDirUnset));
}

#[test]
fn live_daemon_is_never_displaced() {
    assert_eq!(socket_action(false, false), SocketAction::Bind);
    assert_eq!(socket_action(true, true), SocketAction::Refuse);
    assert_eq!(socket_action(true, false), SocketAction::ReplaceStale);
}
