use glogout::window::{pick_menu_monitor, MonitorChoice, MonitorInfo};

fn mon(name: Option<&str>, x: i32, y: i32) -> MonitorInfo {
    MonitorInfo { connector: name.map(|s| s.to_string()), x, y }
}

#[test]
fn configured_output_wins() {
    let ms = vec![mon(Some("DP-1"), 0, 0), mon(Some("HDMI-A-1"), 1920, 0)];
    assert_eq!(
        pick_menu_monitor(&ms, Some("HDMI-A-1")),
        MonitorChoice { index: Some(1), wanted_missing: false }
    );
}

#[test]
fn missing_output_falls_back_to_origin() {
    let ms = vec![mon(Some("DP-2"), 1920, 0), mon(None, 0, 0), mon(Some("DP-1"), 0, 0)];
    assert_eq!(
        pick_menu_monitor(&ms, Some("eDP-1")),
        MonitorChoice { index: Some(1), wanted_missing: true }
    );
    assert_eq!(pick_menu_monitor(&ms, None), MonitorChoice { index: Some(1), wanted_missing: false });
}

#[test]
fn no_origin_takes_first() {
    let ms = vec![mon(Some("A"), 10, 0), mon(Some("B"), 0, 10)];
    assert_eq!(pick_menu_monitor(&ms, None), MonitorChoice { index: Some(0), wanted_missing: false });
}

#[test]
fn no_monitors_no_choice() {
    assert_eq!(pick_menu_monitor(&[], None), MonitorChoice { index: None, wanted_missing: false });
    assert_eq!(pick_menu_monitor(&[], Some("DP-1")), MonitorChoice { index: None, wanted_missing: true });
}
