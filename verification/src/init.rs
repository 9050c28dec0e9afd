//! `glogout init`: the default files it writes and where.

use vstd::prelude::*;
use crate::config::{joined, join_path};
use crate::text::chars_of;

verus! {

/// The commented `config.toml` written by `glogout init`.
pub const DEFAULT_CONFIG_TOML: &'static str = r##"# glogout config — see https://github.com/synnode/glogout

[settings]
# Close the menu when Escape is pressed.
close_on_escape = true

# Close the menu when it loses focus. Currently a no-op because the menu
# grabs the keyboard exclusively, but reserved for future work.
close_on_focus_loss = true

# Pin the menu to a specific output by connector name (e.g. "DP-1").
# Leave commented out to use the focused output.
# output = "DP-1"

# Dimmer overlay drawn behind the menu on every monitor. dimmer_color is
# #RRGGBB; dimmer_opacity is 0.0 (fully see-through, shows your desktop) to
# 1.0 (opaque). Lower the opacity to let the desktop shine through.
# dimmer_color = "#121216"
# dimmer_opacity = 0.6

[[buttons]]
id = "logout"
label = "Log out"
icon = "⏻"
keybind = "l"
action = "logout"   # built-in: loginctl terminate-user $USER

[[buttons]]
id = "reboot"
label = "Reboot"
icon = "⟳"
keybind = "r"
action = "reboot"   # built-in: systemctl reboot

[[buttons]]
id = "cancel"
label = "Cancel"
icon = "✕"
action = "cancel"   # built-in: just close the menu

# Other available built-ins: shutdown, suspend, hibernate, lock.
# For anything else, use `command = "..."` instead of `action = "..."`.
# Commands run via `sh -c` so quoting, pipes, and env vars work as expected.
"##;

/// The directory `glogout init` writes to: `$XDG_CONFIG_HOME/glogout` when
/// that is set and non-empty, else `$HOME/.config/glogout`, else none.
pub open spec fn target_dir_spec(xdg: Option<Seq<char>>, home: Option<Seq<char>>) -> Option<
    Seq<char>,
> {
    match xdg {
        Some(x) if x.len() > 0 => Some(joined(x, "glogout"@)),
        _ => match home {
            Some(h) => Some(joined(h, ".config/glogout"@)),
            None => None,
        },
    }
}

/// Resolves the init directory from `$XDG_CONFIG_HOME` and `$HOME`.
pub fn target_dir(xdg: Option<&str>, home: Option<&str>) -> (r: Option<String>)
    ensures
        match r {
            Some(d) => target_dir_spec(
                match xdg {
                    Some(x) => Some(x@),
                    None => None,
                },
                match home {
                    Some(h) => Some(h@),
                    None => None,
                },
            ) == Some(d@),
            None => target_dir_spec(
                match xdg {
                    Some(x) => Some(x@),
                    None => None,
                },
                match home {
                    Some(h) => Some(h@),
                    None => None,
                },
            ) is None,
        },
{
    proof {
        reveal_strlit("glogout");
        reveal_strlit(".config/glogout");
    }
    if let Some(x) = xdg {
        if chars_of(x).len() > 0 {
            return Some(join_path(x, "glogout"));
        }
    }
    match home {
        Some(h) => Some(join_path(h, ".config/glogout")),
        None => None,
    }
}

/// What `glogout init` does with one of its files.
#[derive(PartialEq, Eq, Structural, Clone, Copy, Debug)]
pub enum InitAction {
    /// Leave the existing file alone.
    Skip,
    /// Write the default contents.
    Write,
}

/// An existing file is skipped unless `--force` is given.
pub fn init_action(exists: bool, force: bool) -> (r: InitAction)
    ensures
        r == (if exists && !force {
            InitAction::Skip
        } else {
            InitAction::Write
        }),
{
    if exists && !force {
        InitAction::Skip
    } else {
        InitAction::Write
    }
}

/// The file names and contents `glogout init` writes, in order.
pub fn default_files() -> (r: Vec<(&'static str, &'static str)>)
    ensures
        r@.len() == 3,
        r@[0].0@ == "config.toml"@ && r@[0].1@ == DEFAULT_CONFIG_TOML@,
        r@[1].0@ == "style.css"@ && r@[1].1@ == crate::ui::DEFAULT_CSS@,
        r@[2].0@ == "template.html"@ && r@[2].1@ == crate::ui::DEFAULT_TEMPLATE@,
{
    let mut r: Vec<(&'static str, &'static str)> = Vec::new();
    r.push(("config.toml", DEFAULT_CONFIG_TOML));
    r.push(("style.css", crate::ui::DEFAULT_CSS));
    r.push(("template.html", crate::ui::DEFAULT_TEMPLATE));
    r
}

} // verus!
