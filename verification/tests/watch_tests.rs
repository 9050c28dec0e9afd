use glogout::watch::{batch_is_relevant, is_relevant_name, FsEvent};

fn ev(access: bool, names: &[Option<&str>]) -> FsEvent {
    FsEvent { is_access: access, file_names: names.iter().map(|n| n.map(|s| s.to_string())).collect() }
}

#[test]
fn watched_names() {
    assert!(is_relevant_name("config.toml"));
    assert!(is_relevant_name("style.css"));
    assert!(is_relevant_name("template.html"));
    assert!(!is_relevant_name("config.toml~"));
    assert!(!is_relevant_name(".style.css.swp"));
}

#[test]
fn access_events_never_reload() {
    assert!(!batch_is_relevant(&[ev(true, &[Some("config.toml")]), ev(true, &[Some("style.css")])]));
}

#[test]
fn a_change_to_a_watched_file_reloads() {
    assert!(batch_is_relevant(&[ev(true, &[Some("style.css")]), ev(false, &[None, Some("template.html")])]));
    assert!(!batch_is_relevant(&[ev(false, &[Some("notes.txt"), None])]));
    assert!(!batch_is_relevant(&[]));
}
