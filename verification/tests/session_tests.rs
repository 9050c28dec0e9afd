use glogout::daemon::Command;
use glogout::session::{Event, Mode, Overlay, Reaction, Surfaces};

#[test]
fn one_shot_starts_shown_daemon_hidden() {
    let (o, s) = Overlay::start(Mode::OneShot, true);
    assert!(o.is_visible());
    assert_eq!(s, Surfaces::Present);
    let (o, s) = Overlay::start(Mode::Daemon, true);
    assert!(!o.is_visible());
    assert_eq!(s, Surfaces::Keep);
}

#[test]
fn toggle_twice_restores() {
    let (mut o, _) = Overlay::start(Mode::Daemon, true);
    let before = o;
    assert_eq!(o.step(Event::Command(Command::Toggle)).surfaces, Surfaces::Present);
    assert!(o.is_visible());
    assert_eq!(o.step(Event::Command(Command::Toggle)).surfaces, Surfaces::Hide);
    assert_eq!(o, before);
}

#[test]
fn show_is_idempotent() {
    let (mut o, _) = Overlay::start(Mode::Daemon, true);
    o.step(Event::Command(Command::Show));
    let once = o;
    assert_eq!(o.step(Event::Command(Command::Show)).surfaces, Surfaces::Present);
    assert_eq!(o, once);
}

#[test]
fn chosen_action_dispatches_then_closes() {
    let (mut o, _) = Overlay::start(Mode::OneShot, true);
    assert_eq!(o.step(Event::ActionChosen), Reaction { dispatch: true, surfaces: Surfaces::Quit });
    let (mut o, _) = Overlay::start(Mode::Daemon, false);
    o.show();
    assert_eq!(o.step(Event::ActionChosen), Reaction { dispatch: true, surfaces: Surfaces::Hide });
    assert!(!o.is_visible());
}

#[test]
fn escape_respects_close_on_escape() {
    let (mut o, _) = Overlay::start(Mode::OneShot, false);
    assert_eq!(o.step(Event::Escape), Reaction { dispatch: false, surfaces: Surfaces::Keep });
    assert!(o.is_visible());
    o.step(Event::Reloaded { close_on_escape: true });
    assert_eq!(o.escape(), Surfaces::Quit);
    let (mut o, _) = Overlay::start(Mode::Daemon, true);
    o.toggle();
    assert_eq!(o.escape(), Surfaces::Hide);
    assert!(!o.is_visible());
}
