use glogout::init::{default_files, init_action, target_dir, InitAction, DEFAULT_CONFIG_TOML};
use glogout::ui::{DEFAULT_CSS, DEFAULT_TEMPLATE};

#[test]
fn init_directory() {
    assert_eq!(target_dir(Some("/x"), Some("/h")), Some("/x/glogout".to_string()));
    assert_eq!(target_dir(Some(""), Some("/h")), Some("/h/.config/glogout".to_string()));
    assert_eq!(target_dir(None, Some("/h/")), Some("/h/.config/glogout".to_string()));
    assert_eq!(target_dir(None, None), None);
}

#[test]
fn existing_files_need_force() {
    assert_eq!(init_action(true, false), InitAction::Skip);
    assert_eq!(init_action(true, true), InitAction::Write);
    assert_eq!(init_action(false, false), InitAction::Write);
    assert_eq!(init_action(false, true), InitAction::Write);
}

#[test]
fn writes_config_style_template() {
    let files = default_files();
    assert_eq!(files, vec![
        ("config.toml", DEFAULT_CONFIG_TOML),
        ("style.css", DEFAULT_CSS),
        ("template.html", DEFAULT_TEMPLATE),
    ]);
    assert!(DEFAULT_CONFIG_TOML.contains("close_on_escape = true"));
}
