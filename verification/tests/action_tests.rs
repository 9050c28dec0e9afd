use glogout::action::unknown_reason;
use glogout::action::{builtin, resolve, Dispatcher, Resolved};
use glogout::config::{default_buttons, Button};

fn button(id: &str, action: Option<&str>, command: Option<&str>) -> Button {
    Button {
        id: id.to_string(),
        label: id.to_string(),
        icon: None,
        keybind: None,
        action: action.map(|s| s.to_string()),
        command: command.map(|s| s.to_string()),
    }
}

fn spawn_parts(r: &Resolved) -> (String, Vec<String>) {
    match r {
        Resolved::Spawn(s) => (s.program.clone(), s.args.clone()),
        other => panic!("expected a spawn, got {other:?}"),
    }
}

#[test]
fn builtins_map_to_system_commands() {
    let cases: [(&str, &str, &[&str]); 6] = [
        ("reboot", "systemctl", &["reboot"]),
        ("shutdown", "systemctl", &["poweroff"]),
        ("suspend", "systemctl", &["suspend"]),
        ("hibernate", "systemctl", &["hibernate"]),
        ("lock", "loginctl", &["lock-session"]),
        ("logout", "loginctl", &["terminate-user", "alice"]),
    ];
    for (name, program, args) in cases {
        let r = builtin(name, "alice").expect("built-in");
        let (p, a) = spawn_parts(&r);
        assert_eq!(p, program);
        assert_eq!(a, args.iter().map(|s| s.to_string()).collect::<Vec<_>>());
    }
    assert!(matches!(builtin("cancel", "alice"), Some(Resolved::Cancel)));
    assert!(builtin("dance", "alice").is_none());
    assert!(builtin("Reboot", "alice").is_none());
}

#[test]
fn logout_with_unset_user_passes_empty_name() {
    let (p, a) = spawn_parts(&builtin("logout", "").unwrap());
    assert_eq!(p, "loginctl");
    assert_eq!(a, vec!["terminate-user".to_string(), String::new()]);
}

#[test]
fn explicit_command_wins_and_runs_through_sh() {
    let b = button("logout", Some("logout"), Some("grim ~/shot.png | wl-copy"));
    let (p, a) = spawn_parts(&resolve(&b, "alice"));
    assert_eq!(p, "sh");
    assert_eq!(a, vec!["-c".to_string(), "grim ~/shot.png | wl-copy".to_string()]);
}

#[test]
fn missing_action_falls_back_to_id() {
    let b = button("reboot", None, None);
    let (p, a) = spawn_parts(&resolve(&b, "alice"));
    assert_eq!(p, "systemctl");
    assert_eq!(a, vec!["reboot".to_string()]);
}

#[test]
fn unknown_action_reports_the_quoted_name() {
    let b = button("x", Some("dance \"now\""), None);
    match resolve(&b, "alice") {
        Resolved::Unknown(reason) => {
            assert_eq!(reason, "unknown built-in action \"dance \\\"now\\\"\"");
        }
        other => panic!("expected unknown, got {other:?}"),
    }
    let b = button("screenshot", None, None);
    match resolve(&b, "alice") {
        Resolved::Unknown(reason) => assert_eq!(reason, "unknown built-in action \"screenshot\""),
        other => panic!("expected unknown, got {other:?}"),
    }
}

#[test]
fn dispatcher_finds_registered_ids_only() {
    let d = Dispatcher::new(&default_buttons(), "bob");
    let (p, a) = spawn_parts(d.dispatch("logout").unwrap());
    assert_eq!(p, "loginctl");
    assert_eq!(a, vec!["terminate-user".to_string(), "bob".to_string()]);
    assert!(matches!(d.dispatch("cancel"), Some(Resolved::Cancel)));
    assert!(d.dispatch("shutdown").is_none());
    assert!(d.dispatch("").is_none());
}

#[test]
fn dispatcher_last_duplicate_id_wins() {
    let buttons = vec![
        button("go", Some("reboot"), None),
        button("other", Some("lock"), None),
        button("go", Some("suspend"), None),
    ];
    let d = Dispatcher::new(&buttons, "u");
    let (_, a) = spawn_parts(d.dispatch("go").unwrap());
    assert_eq!(a, vec!["suspend".to_string()]);
    let (p, _) = spawn_parts(d.dispatch("other").unwrap());
    assert_eq!(p, "loginctl");
}

#[test]
fn empty_dispatcher_knows_nothing() {
    let d = Dispatcher::new(&[], "u");
    assert!(d.dispatch("cancel").is_none());
}

#[test]
fn unknown_reason_text() {
    assert_eq!(unknown_reason("\"x\""), "unknown built-in action \"x\"");
    assert_eq!(unknown_reason(""), "unknown built-in action ");
}
