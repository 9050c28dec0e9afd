//! The overlay's visibility, driven by events: the one-shot menu and the
//! daemon differ only in what closing means (quit versus hide).

use vstd::prelude::*;
use crate::daemon::Command;

verus! {

/// How the program runs.
#[derive(PartialEq, Eq, Structural, Clone, Copy, Debug)]
pub enum Mode {
    /// Shown at once; closing quits the main loop.
    OneShot,
    /// Starts hidden and waits for socket commands; closing hides the
    /// surfaces and the daemon goes back to standby.
    Daemon,
}

/// Something that happened to the overlay.
#[derive(PartialEq, Eq, Structural, Clone, Copy, Debug)]
pub enum Event {
    /// A command arrived on the daemon socket.
    Command(Command),
    /// Escape was pressed on the menu surface.
    Escape,
    /// The page posted a button's action id; it is dispatched.
    ActionChosen,
    /// The configuration was reloaded with this `close_on_escape`.
    Reloaded { close_on_escape: bool },
}

/// What to do with the surfaces.
#[derive(PartialEq, Eq, Structural, Clone, Copy, Debug)]
pub enum Surfaces {
    /// Leave them as they are.
    Keep,
    /// Present (map) every surface.
    Present,
    /// Hide every surface.
    Hide,
    /// Quit the main loop.
    Quit,
}

/// The reaction to an event: whether to dispatch the chosen action first,
/// then what to do with the surfaces.
#[derive(PartialEq, Eq, Structural, Clone, Copy, Debug)]
pub struct Reaction {
    pub dispatch: bool,
    pub surfaces: Surfaces,
}

/// The overlay's state.
#[derive(PartialEq, Eq, Structural, Clone, Copy, Debug)]
pub struct Overlay {
    pub mode: Mode,
    /// Whether the surfaces are mapped.
    pub visible: bool,
    /// Whether Escape closes the menu.
    pub close_on_escape: bool,
}

/// What closing does in a mode.
pub open spec fn close_of(mode: Mode) -> Surfaces {
    match mode {
        Mode::OneShot => Surfaces::Quit,
        Mode::Daemon => Surfaces::Hide,
    }
}

/// The visibility after a surface action.
pub open spec fn visible_after(visible: bool, s: Surfaces) -> bool {
    match s {
        Surfaces::Keep => visible,
        Surfaces::Present => true,
        Surfaces::Hide => false,
        Surfaces::Quit => false,
    }
}

/// The reaction to `e` in state `s`.
pub open spec fn reaction(s: Overlay, e: Event) -> Reaction {
    match e {
        Event::Command(Command::Show) => Reaction { dispatch: false, surfaces: Surfaces::Present },
        Event::Command(Command::Toggle) => Reaction {
            dispatch: false,
            surfaces: if s.visible {
                Surfaces::Hide
            } else {
                Surfaces::Present
            },
        },
        Event::Escape => Reaction {
            dispatch: false,
            surfaces: if s.close_on_escape {
                close_of(s.mode)
            } else {
                Surfaces::Keep
            },
        },
        Event::ActionChosen => Reaction { dispatch: true, surfaces: close_of(s.mode) },
        Event::Reloaded { .. } => Reaction { dispatch: false, surfaces: Surfaces::Keep },
    }
}

/// The state after `e` in state `s`.
pub open spec fn next(s: Overlay, e: Event) -> Overlay {
    Overlay {
        mode: s.mode,
        visible: visible_after(s.visible, reaction(s, e).surfaces),
        close_on_escape: match e {
            Event::Reloaded { close_on_escape } => close_on_escape,
            _ => s.close_on_escape,
        },
    }
}

impl Overlay {
    /// The state at startup and what to do first: the one-shot menu is
    /// presented at once, the daemon starts hidden.
    pub fn start(mode: Mode, close_on_escape: bool) -> (r: (Overlay, Surfaces))
        ensures
            r.0.mode == mode,
            r.0.close_on_escape == close_on_escape,
            r.0.visible == (mode == Mode::OneShot),
            r.1 == (if mode == Mode::OneShot {
                Surfaces::Present
            } else {
                Surfaces::Keep
            }),
    {
        match mode {
            Mode::OneShot => (Overlay { mode, visible: true, close_on_escape }, Surfaces::Present),
            Mode::Daemon => (Overlay { mode, visible: false, close_on_escape }, Surfaces::Keep),
        }
    }

    /// Whether the surfaces are mapped; what `toggle` decides by.
    pub fn is_visible(&self) -> (r: bool)
        ensures
            r == self.visible,
    {
        self.visible
    }

    /// Present every surface.
    pub fn show(&mut self) -> (r: Surfaces)
        ensures
            r == Surfaces::Present,
            *final(self) == (Overlay { visible: true, ..*old(self) }),
    {
        self.visible = true;
        Surfaces::Present
    }

    /// Hide every surface.
    pub fn dismiss(&mut self) -> (r: Surfaces)
        ensures
            r == Surfaces::Hide,
            *final(self) == (Overlay { visible: false, ..*old(self) }),
    {
        self.visible = false;
        Surfaces::Hide
    }

    /// Show if hidden, hide if shown.
    pub fn toggle(&mut self) -> (r: Surfaces)
        ensures
            r == (if old(self).visible {
                Surfaces::Hide
            } else {
                Surfaces::Present
            }),
            *final(self) == (Overlay { visible: !old(self).visible, ..*old(self) }),
    {
        if self.is_visible() {
            self.dismiss()
        } else {
            self.show()
        }
    }

    /// What Escape does: nothing when `close_on_escape` is off, otherwise
    /// close as the mode closes.
    pub fn escape(&mut self) -> (r: Surfaces)
        ensures
            r == reaction(*old(self), Event::Escape).surfaces,
            *final(self) == next(*old(self), Event::Escape),
    {
        if !self.close_on_escape {
            return Surfaces::Keep;
        }
        match self.mode {
            Mode::OneShot => {
                self.visible = false;
                Surfaces::Quit
            },
            Mode::Daemon => self.dismiss(),
        }
    }

    /// Reacts to one event.
    pub fn step(&mut self, e: Event) -> (r: Reaction)
        ensures
            r == reaction(*old(self), e),
            *final(self) == next(*old(self), e),
    {
        match e {
            Event::Command(Command::Show) => Reaction { dispatch: false, surfaces: self.show() },
            Event::Command(Command::Toggle) => Reaction {
                dispatch: false,
                surfaces: self.toggle(),
            },
            Event::Escape => Reaction { dispatch: false, surfaces: self.escape() },
            Event::ActionChosen => {
                let surfaces = match self.mode {
                    Mode::OneShot => {
                        self.visible = false;
                        Surfaces::Quit
                    },
                    Mode::Daemon => self.dismiss(),
                };
                Reaction { dispatch: true, surfaces }
            },
            Event::Reloaded { close_on_escape } => {
                self.close_on_escape = close_on_escape;
                Reaction { dispatch: false, surfaces: Surfaces::Keep }
            },
        }
    }
}

/// Two toggles in a row leave the overlay as it was.
pub proof fn lemma_toggle_twice(s: Overlay)
    ensures
        next(next(s, Event::Command(Command::Toggle)), Event::Command(Command::Toggle)) == s,
{
}

/// Showing an overlay that is already shown changes nothing but presents
/// the surfaces again.
pub proof fn lemma_show_idempotent(s: Overlay)
    ensures
        next(next(s, Event::Command(Command::Show)), Event::Command(Command::Show)) == next(
            s,
            Event::Command(Command::Show),
        ),
        next(s, Event::Command(Command::Show)).visible,
{
}

/// A chosen action is always dispatched and always closes the menu: the
/// one-shot menu quits, the daemon hides and goes back to standby.
pub proof fn lemma_action_closes(s: Overlay)
    ensures
        reaction(s, Event::ActionChosen).dispatch,
        reaction(s, Event::ActionChosen).surfaces == close_of(s.mode),
        !next(s, Event::ActionChosen).visible,
{
}

/// With `close_on_escape` off, Escape does nothing at all.
pub proof fn lemma_escape_disabled(s: Overlay)
    requires
        !s.close_on_escape,
    ensures
        reaction(s, Event::Escape) == (Reaction { dispatch: false, surfaces: Surfaces::Keep }),
        next(s, Event::Escape) == s,
{
}

/// Only a chosen action is ever dispatched.
pub proof fn lemma_dispatch_only_on_action(s: Overlay, e: Event)
    ensures
        reaction(s, e).dispatch <==> e == Event::ActionChosen,
{
}

} // verus!

verus! {

/// Reloading the configuration is in place: it never shows, hides or quits,
/// never dispatches, keeps the mode and the visibility, and only takes on
/// the new `close_on_escape`.
pub proof fn lemma_reload_in_place(s: Overlay, c: bool)
    ensures
        reaction(s, Event::Reloaded { close_on_escape: c }) == (Reaction {
            dispatch: false,
            surfaces: Surfaces::Keep,
        }),
        next(s, Event::Reloaded { close_on_escape: c }) == (Overlay {
            mode: s.mode,
            visible: s.visible,
            close_on_escape: c,
        }),
{
}

/// No event changes the mode, and only a reload changes `close_on_escape`.
pub proof fn lemma_mode_and_setting_kept(s: Overlay, e: Event)
    ensures
        next(s, e).mode == s.mode,
        !(e is Reloaded) ==> next(s, e).close_on_escape == s.close_on_escape,
{
}

/// Show always presents and leaves the overlay shown; toggle presents a
/// hidden overlay and hides a shown one, in either mode.
pub proof fn lemma_show_and_toggle(s: Overlay)
    ensures
        reaction(s, Event::Command(Command::Show)).surfaces == Surfaces::Present,
        next(s, Event::Command(Command::Show)).visible,
        !s.visible ==> reaction(s, Event::Command(Command::Toggle)).surfaces == Surfaces::Present
            && next(s, Event::Command(Command::Toggle)).visible,
        s.visible ==> reaction(s, Event::Command(Command::Toggle)).surfaces == Surfaces::Hide
            && !next(s, Event::Command(Command::Toggle)).visible,
        !reaction(s, Event::Command(Command::Show)).dispatch,
        !reaction(s, Event::Command(Command::Toggle)).dispatch,
{
}

/// With `close_on_escape` on, Escape quits the one-shot menu and hides the
/// daemon's, without dispatching anything.
pub proof fn lemma_escape_enabled(s: Overlay)
    requires
        s.close_on_escape,
    ensures
        s.mode == Mode::OneShot ==> reaction(s, Event::Escape) == (Reaction {
            dispatch: false,
            surfaces: Surfaces::Quit,
        }),
        s.mode == Mode::Daemon ==> reaction(s, Event::Escape) == (Reaction {
            dispatch: false,
            surfaces: Surfaces::Hide,
        }),
        !next(s, Event::Escape).visible,
{
}

} // verus!
