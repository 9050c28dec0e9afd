use glogout::config::choose_loaded;
use glogout::config::{
    default_buttons, dimmer_rgb, join_path, load_step, parse_hex_color, search_paths, Config,
    LoadStep, Loaded, Probe, Rgb, Settings,
};

#[test]
fn default_buttons_are_logout_reboot_cancel() {
    let b = default_buttons();
    assert_eq!(b.len(), 3);
    assert_eq!(b[0].id, "logout");
    assert_eq!(b[0].label, "Log out");
    assert_eq!(b[0].icon.as_deref(), Some("⏻"));
    assert_eq!(b[0].keybind.as_deref(), Some("l"));
    assert_eq!(b[0].action.as_deref(), Some("logout"));
    assert_eq!(b[1].id, "reboot");
    assert_eq!(b[1].icon.as_deref(), Some("⟳"));
    assert_eq!(b[1].keybind.as_deref(), Some("r"));
    assert_eq!(b[2].id, "cancel");
    assert_eq!(b[2].keybind, None);
    assert_eq!(b[2].icon.as_deref(), Some("✕"));
    assert!(b.iter().all(|x| x.command.is_none()));
}

#[test]
fn default_settings() {
    let s = Settings::default();
    assert!(s.close_on_escape);
    assert_eq!(s.output, None);
    assert_eq!(s.dimmer_color, "#121216");
    let c = Config::default();
    assert_eq!(c.buttons.len(), 3);
    let l = Loaded::fallback();
    assert!(l.dir.is_none());
    assert_eq!(l.config.buttons[1].id, "reboot");
}

#[test]
fn joining_paths() {
    assert_eq!(join_path("/home/a", ".config/glogout"), "/home/a/.config/glogout");
    assert_eq!(join_path("/home/a/", ".config/glogout"), "/home/a/.config/glogout");
    assert_eq!(join_path("", "glogout"), "glogout");
}

#[test]
fn search_order_is_xdg_home_etc() {
    assert_eq!(
        search_paths(Some("/x"), Some("/h")),
        vec!["/x/glogout", "/h/.config/glogout", "/etc/glogout"]
    );
    assert_eq!(search_paths(Some(""), Some("/h")), vec!["/h/.config/glogout", "/etc/glogout"]);
    assert_eq!(search_paths(None, None), vec!["/etc/glogout"]);
    assert_eq!(search_paths(Some("/x"), None), vec!["/x/glogout", "/etc/glogout"]);
}

#[test]
fn hex_colors() {
    assert_eq!(parse_hex_color("#121216"), Some(Rgb { r: 0x12, g: 0x12, b: 0x16 }));
    assert_eq!(parse_hex_color("#FFaa00"), Some(Rgb { r: 255, g: 170, b: 0 }));
    assert_eq!(parse_hex_color("#abc"), parse_hex_color("#aabbcc"));
    assert_eq!(parse_hex_color("#abc"), Some(Rgb { r: 0xaa, g: 0xbb, b: 0xcc }));
    assert_eq!(parse_hex_color("121216"), None);
    assert_eq!(parse_hex_color("#12121g"), None);
    assert_eq!(parse_hex_color("#1212"), None);
    assert_eq!(parse_hex_color(""), None);
    assert_eq!(parse_hex_color("#"), None);
}

#[test]
fn dimmer_color_falls_back_to_default() {
    let mut s = Settings::default();
    assert_eq!(dimmer_rgb(&s), Rgb { r: 0x12, g: 0x12, b: 0x16 });
    s.dimmer_color = "#000".to_string();
    assert_eq!(dimmer_rgb(&s), Rgb { r: 0, g: 0, b: 0 });
    s.dimmer_color = "black".to_string();
    assert_eq!(dimmer_rgb(&s), Rgb { r: 0x12, g: 0x12, b: 0x16 });
}

#[test]
fn load_stops_at_first_parsed_config() {
    assert!(matches!(load_step("/a".to_string(), Probe::Missing), LoadStep::Next));
    assert!(matches!(load_step("/a".to_string(), Probe::Unreadable), LoadStep::Next));
    assert!(matches!(load_step("/a".to_string(), Probe::Invalid), LoadStep::Next));
    match load_step("/b".to_string(), Probe::Parsed(Config::default())) {
        LoadStep::Use(l) => {
            assert_eq!(l.dir.as_deref(), Some("/b"));
            assert_eq!(l.config.buttons.len(), 3);
        }
        LoadStep::Next => panic!("a parsed config must be used"),
    }
}

#[test]
fn first_parsed_directory_wins() {
    let mut second = Config::default();
    second.buttons.truncate(1);
    let l = choose_loaded(vec![
        ("/a".to_string(), Probe::Missing),
        ("/b".to_string(), Probe::Invalid),
        ("/c".to_string(), Probe::Parsed(second)),
        ("/d".to_string(), Probe::Parsed(Config::default())),
    ]);
    assert_eq!(l.dir.as_deref(), Some("/c"));
    assert_eq!(l.config.buttons.len(), 1);
    let l = choose_loaded(vec![("/a".to_string(), Probe::Unreadable)]);
    assert!(l.dir.is_none());
    assert_eq!(l.config.buttons.len(), 3);
    assert!(choose_loaded(vec![]).dir.is_none());
}
