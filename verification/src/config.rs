//! The menu's configuration: buttons, settings, their built-in defaults, the
//! directories searched for `config.toml`, and the dimmer color.

use vstd::prelude::*;
use crate::text::{chars_of, push_str};

verus! {

/// One `[[buttons]]` entry of `config.toml`.
#[derive(Debug)]
pub struct Button {
    pub id: String,
    pub label: String,
    pub icon: Option<String>,
    pub keybind: Option<String>,
    pub action: Option<String>,
    pub command: Option<String>,
}

/// The characters of an optional string.
pub open spec fn opt_view(o: Option<String>) -> Option<Seq<char>> {
    match o {
        Some(s) => Some(s@),
        None => None,
    }
}

/// A button as plain character sequences.
pub struct ButtonView {
    pub id: Seq<char>,
    pub label: Seq<char>,
    pub icon: Option<Seq<char>>,
    pub keybind: Option<Seq<char>>,
    pub action: Option<Seq<char>>,
    pub command: Option<Seq<char>>,
}

impl View for Button {
    type V = ButtonView;

    open spec fn view(&self) -> ButtonView {
        ButtonView {
            id: self.id@,
            label: self.label@,
            icon: opt_view(self.icon),
            keybind: opt_view(self.keybind),
            action: opt_view(self.action),
            command: opt_view(self.command),
        }
    }
}

/// The views of a list of buttons.
pub open spec fn buttons_view(bs: Seq<Button>) -> Seq<ButtonView> {
    bs.map_values(|b: Button| b@)
}

/// The `[settings]` table that the menu logic reads. The dimmer opacity, a
/// floating-point value, is kept by the caller beside it.
#[derive(Debug)]
pub struct Settings {
    /// Close the menu when Escape is pressed.
    pub close_on_escape: bool,
    /// Connector name of the output that should carry the menu.
    pub output: Option<String>,
    /// Dimmer fill color as `#RRGGBB` (or `#RGB`).
    pub dimmer_color: String,
}

/// Settings as plain values.
pub struct SettingsView {
    pub close_on_escape: bool,
    pub output: Option<Seq<char>>,
    pub dimmer_color: Seq<char>,
}

impl View for Settings {
    type V = SettingsView;

    open spec fn view(&self) -> SettingsView {
        SettingsView {
            close_on_escape: self.close_on_escape,
            output: opt_view(self.output),
            dimmer_color: self.dimmer_color@,
        }
    }
}

/// A whole configuration.
#[derive(Debug)]
pub struct Config {
    pub settings: Settings,
    pub buttons: Vec<Button>,
}

/// A configuration as plain values.
pub struct ConfigView {
    pub settings: SettingsView,
    pub buttons: Seq<ButtonView>,
}

impl View for Config {
    type V = ConfigView;

    open spec fn view(&self) -> ConfigView {
        ConfigView { settings: self.settings@, buttons: buttons_view(self.buttons@) }
    }
}

/// The default settings: Escape closes, no pinned output, dimmer `#121216`.
pub open spec fn default_settings() -> SettingsView {
    SettingsView { close_on_escape: true, output: None, dimmer_color: "#121216"@ }
}

/// The built-in three-button menu used when no config file is found.
pub open spec fn default_buttons_spec() -> Seq<ButtonView> {
    seq![
        ButtonView {
            id: "logout"@,
            label: "Log out"@,
            icon: Some("⏻"@),
            keybind: Some("l"@),
            action: Some("logout"@),
            command: None,
        },
        ButtonView {
            id: "reboot"@,
            label: "Reboot"@,
            icon: Some("⟳"@),
            keybind: Some("r"@),
            action: Some("reboot"@),
            command: None,
        },
        ButtonView {
            id: "cancel"@,
            label: "Cancel"@,
            icon: Some("✕"@),
            keybind: None,
            action: Some("cancel"@),
            command: None,
        },
    ]
}

impl Default for Settings {
    fn default() -> (r: Self)
        ensures
            r@ == default_settings(),
    {
        Settings {
            close_on_escape: true,
            output: None,
            dimmer_color: String::from_str("#121216"),
        }
    }
}

impl Default for Config {
    fn default() -> (r: Self)
        ensures
            r@ == (ConfigView { settings: default_settings(), buttons: default_buttons_spec() }),
    {
        Config { settings: Settings::default(), buttons: default_buttons() }
    }
}

/// Built-in three-button fallback (log out, reboot, cancel).
pub fn default_buttons() -> (r: Vec<Button>)
    ensures
        buttons_view(r@) == default_buttons_spec(),
{
    let mut r: Vec<Button> = Vec::new();
    r.push(
        Button {
            id: String::from_str("logout"),
            label: String::from_str("Log out"),
            icon: Some(String::from_str("⏻")),
            keybind: Some(String::from_str("l")),
            action: Some(String::from_str("logout")),
            command: None,
        },
    );
    r.push(
        Button {
            id: String::from_str("reboot"),
            label: String::from_str("Reboot"),
            icon: Some(String::from_str("⟳")),
            keybind: Some(String::from_str("r")),
            action: Some(String::from_str("reboot")),
            command: None,
        },
    );
    r.push(
        Button {
            id: String::from_str("cancel"),
            label: String::from_str("Cancel"),
            icon: Some(String::from_str("✕")),
            keybind: None,
            action: Some(String::from_str("cancel")),
            command: None,
        },
    );
    assert(buttons_view(r@) =~= default_buttons_spec());
    r
}

} // verus!

verus! {

/// `base` joined with the relative path `name`, as `Path::join` does: a
/// `/` goes between them unless `base` is empty or already ends in `/`.
pub open spec fn joined(base: Seq<char>, name: Seq<char>) -> Seq<char> {
    if base.len() == 0 || base.last() == '/' {
        base + name
    } else {
        base + seq!['/'] + name
    }
}

/// Joins the relative path `name` onto `base`.
pub fn join_path(base: &str, name: &str) -> (r: String)
    requires
        name@.len() > 0,
        name@[0] != '/',
    ensures
        r@ == joined(base@, name@),
{
    let cs = chars_of(base);
    let mut r = String::from_str(base);
    if cs.len() > 0 && cs[cs.len() - 1] != '/' {
        crate::text::push_char(&mut r, '/');
    }
    push_str(&mut r, name);
    r
}

/// The directories searched for `config.toml`, in order:
/// `$XDG_CONFIG_HOME/glogout` (when set and non-empty), then
/// `$HOME/.config/glogout` (when set), then `/etc/glogout`.
pub open spec fn search_paths_spec(xdg: Option<Seq<char>>, home: Option<Seq<char>>) -> Seq<
    Seq<char>,
> {
    let first: Seq<Seq<char>> = match xdg {
        Some(x) => if x.len() > 0 {
            seq![joined(x, "glogout"@)]
        } else {
            Seq::empty()
        },
        None => Seq::empty(),
    };
    let second: Seq<Seq<char>> = match home {
        Some(h) => seq![joined(h, ".config/glogout"@)],
        None => Seq::empty(),
    };
    first + second + seq!["/etc/glogout"@]
}

/// The views of a list of strings.
pub open spec fn strings_view(v: Seq<String>) -> Seq<Seq<char>> {
    v.map_values(|s: String| s@)
}

/// The candidate config directories, given the values of
/// `$XDG_CONFIG_HOME` and `$HOME` (`None` where unset).
pub fn search_paths(xdg: Option<&str>, home: Option<&str>) -> (r: Vec<String>)
    ensures
        strings_view(r@) == search_paths_spec(
            match xdg {
                Some(x) => Some(x@),
                None => None,
            },
            match home {
                Some(h) => Some(h@),
                None => None,
            },
        ),
{
    proof {
        reveal_strlit("glogout");
        reveal_strlit(".config/glogout");
    }
    let mut r: Vec<String> = Vec::new();
    if let Some(x) = xdg {
        if chars_of(x).len() > 0 {
            r.push(join_path(x, "glogout"));
        }
    }
    if let Some(h) = home {
        r.push(join_path(h, ".config/glogout"));
    }
    r.push(String::from_str("/etc/glogout"));
    assert(strings_view(r@) =~= search_paths_spec(
        match xdg {
            Some(x) => Some(x@),
            None => None,
        },
        match home {
            Some(h) => Some(h@),
            None => None,
        },
    ));
    r
}

/// A resolved configuration and the directory it came from (`None` when the
/// built-in defaults are used). The directory is where `style.css` and
/// `template.html` are looked up.
#[derive(Debug)]
pub struct Loaded {
    pub config: Config,
    pub dir: Option<String>,
}

impl Loaded {
    /// The built-in defaults, used when no directory holds a readable and
    /// parsable `config.toml`.
    pub fn fallback() -> (r: Loaded)
        ensures
            r.config@ == (ConfigView {
                settings: default_settings(),
                buttons: default_buttons_spec(),
            }),
            r.dir is None,
    {
        Loaded { config: Config::default(), dir: None }
    }
}

/// An RGB color.
#[derive(PartialEq, Eq, Structural, Clone, Copy, Debug)]
pub struct Rgb {
    pub r: u8,
    pub g: u8,
    pub b: u8,
}

/// The value of a hexadecimal digit (either case), if `c` is one.
pub open spec fn hex_digit(c: char) -> Option<u8> {
    let u = c as u32;
    if 0x30 <= u <= 0x39 {
        Some((u - 0x30) as u8)
    } else if 0x61 <= u <= 0x66 {
        Some((u - 0x61 + 10) as u8)
    } else if 0x41 <= u <= 0x46 {
        Some((u - 0x41 + 10) as u8)
    } else {
        None
    }
}

/// Whether every character of `s` after the first is a hexadecimal digit.
pub open spec fn hex_tail(s: Seq<char>) -> bool {
    forall|i: int| 1 <= i < s.len() ==> #[trigger] hex_digit(s[i]) is Some
}

/// The digit value at position `i`.
pub open spec fn digit_at(s: Seq<char>, i: int) -> int {
    hex_digit(s[i])->0 as int
}

/// The color written as `#RRGGBB` or `#RGB` (each digit of the short form
/// doubled), or `None` for any other text.
pub open spec fn parsed_color(s: Seq<char>) -> Option<(int, int, int)> {
    if s.len() == 7 && s[0] == '#' && hex_tail(s) {
        Some(
            (
                16 * digit_at(s, 1) + digit_at(s, 2),
                16 * digit_at(s, 3) + digit_at(s, 4),
                16 * digit_at(s, 5) + digit_at(s, 6),
            ),
        )
    } else if s.len() == 4 && s[0] == '#' && hex_tail(s) {
        Some((17 * digit_at(s, 1), 17 * digit_at(s, 2), 17 * digit_at(s, 3)))
    } else {
        None
    }
}

/// The value of the hexadecimal digit `c`.
fn hex_value(c: char) -> (r: Option<u8>)
    ensures
        r == hex_digit(c),
{
    let u = c as u32;
    if 0x30 <= u && u <= 0x39 {
        Some((u - 0x30) as u8)
    } else if 0x61 <= u && u <= 0x66 {
        Some((u - 0x61 + 10) as u8)
    } else if 0x41 <= u && u <= 0x46 {
        Some((u - 0x41 + 10) as u8)
    } else {
        None
    }
}

/// Parses a `#RRGGBB` or `#RGB` color.
pub fn parse_hex_color(s: &str) -> (r: Option<Rgb>)
    ensures
        match r {
            Some(c) => parsed_color(s@) == Some((c.r as int, c.g as int, c.b as int)),
            None => parsed_color(s@) is None,
        },
{
    let cs = chars_of(s);
    let n = cs.len();
    if !(n == 7 || n == 4) || cs[0] != '#' {
        return None;
    }
    let mut d: Vec<u8> = Vec::new();
    for i in 1..n
        invariant
            cs@ == s@,
            n == cs@.len(),
            d@.len() == i - 1,
            forall|j: int| 0 <= j < d@.len() ==> #[trigger] d@[j] < 16,
            forall|j: int| 1 <= j < i ==> #[trigger] hex_digit(s@[j]) == Some(d@[j - 1]),
    {
        match hex_value(cs[i]) {
            Some(v) => d.push(v),
            None => {
                assert(!hex_tail(s@));
                return None;
            },
        }
    }
    assert(hex_tail(s@));
    if n == 7 {
        assert(digit_at(s@, 1) == d@[0] && digit_at(s@, 2) == d@[1]);
        assert(digit_at(s@, 3) == d@[2] && digit_at(s@, 4) == d@[3]);
        assert(digit_at(s@, 5) == d@[4] && digit_at(s@, 6) == d@[5]);
        Some(Rgb { r: 16 * d[0] + d[1], g: 16 * d[2] + d[3], b: 16 * d[4] + d[5] })
    } else {
        assert(digit_at(s@, 1) == d@[0] && digit_at(s@, 2) == d@[1] && digit_at(s@, 3) == d@[2]);
        Some(Rgb { r: 17 * d[0], g: 17 * d[1], b: 17 * d[2] })
    }
}

/// The dimmer's fill color: the configured `dimmer_color` where it parses,
/// else the default `#121216`.
pub fn dimmer_rgb(settings: &Settings) -> (r: Rgb)
    ensures
        match parsed_color(settings.dimmer_color@) {
            Some((red, green, blue)) => r.r == red && r.g == green && r.b == blue,
            None => r.r == 0x12 && r.g == 0x12 && r.b == 0x16,
        },
{
    match parse_hex_color(settings.dimmer_color.as_str()) {
        Some(c) => c,
        None => Rgb { r: 0x12, g: 0x12, b: 0x16 },
    }
}

} // verus!

verus! {

/// `#RGB` is the same color as `#RRGGBB` with each digit doubled.
pub proof fn lemma_short_color_doubles(a: char, b: char, c: char)
    requires
        hex_digit(a) is Some,
        hex_digit(b) is Some,
        hex_digit(c) is Some,
    ensures
        parsed_color(seq!['#', a, b, c]) == parsed_color(seq!['#', a, a, b, b, c, c]),
        parsed_color(seq!['#', a, b, c]) is Some,
{
    let s4 = seq!['#', a, b, c];
    let s7 = seq!['#', a, a, b, b, c, c];
    assert(hex_tail(s4));
    assert(hex_tail(s7));
}

} // verus!

verus! {

/// What looking for `config.toml` in one candidate directory found.
pub enum Probe {
    /// No `config.toml` there.
    Missing,
    /// The file exists but could not be read (already reported).
    Unreadable,
    /// The file was read but does not parse (already reported).
    Invalid,
    /// The file parsed.
    Parsed(Config),
}

/// Whether to stop at a directory or go on to the next one.
pub enum LoadStep {
    /// Use this configuration.
    Use(Loaded),
    /// Try the next candidate directory (the defaults after the last one).
    Next,
}

/// The search stops at the first directory whose `config.toml` parsed;
/// missing, unreadable and invalid files are passed over.
pub fn load_step(dir: String, probe: Probe) -> (r: LoadStep)
    ensures
        match probe {
            Probe::Parsed(c) => r matches LoadStep::Use(l) && l.config@ == c@ && opt_view(l.dir)
                == Some(dir@),
            _ => r matches LoadStep::Next,
        },
{
    match probe {
        Probe::Parsed(config) => LoadStep::Use(Loaded { config, dir: Some(dir) }),
        _ => LoadStep::Next,
    }
}

} // verus!

verus! {

/// The position of the first candidate directory whose `config.toml` parsed.
pub open spec fn first_parsed(c: Seq<(String, Probe)>) -> Option<int>
    decreases c.len(),
{
    if c.len() == 0 {
        None
    } else if c[0].1 is Parsed {
        Some(0)
    } else {
        match first_parsed(c.skip(1)) {
            Some(i) => Some(i + 1),
            None => None,
        }
    }
}

/// The configuration in use, given what each candidate directory held, in
/// search order: that of the first directory whose `config.toml` parsed,
/// with that directory; the built-in defaults when none did.
pub fn choose_loaded(candidates: Vec<(String, Probe)>) -> (r: Loaded)
    ensures
        match first_parsed(candidates@) {
            Some(i) => (candidates@[i].1 matches Probe::Parsed(c) && r.config@ == c@) && opt_view(
                r.dir,
            ) == Some(candidates@[i].0@),
            None => r.config@ == (ConfigView {
                settings: default_settings(),
                buttons: default_buttons_spec(),
            }) && r.dir is None,
        },
{
    let ghost orig = candidates@;
    let ghost mut k: int = 0;
    let mut rest = candidates;
    assert(orig.skip(0) =~= orig);
    while rest.len() > 0
        invariant
            0 <= k <= orig.len(),
            orig == candidates@,
            rest@ == orig.skip(k),
            first_parsed(orig) == match first_parsed(rest@) {
                Some(i) => Some(i + k),
                None => None::<int>,
            },
        decreases rest@.len(),
    {
        let ghost before = rest@;
        let entry = rest.remove(0);
        assert(entry == before[0]);
        let (dir, probe) = entry;
        assert(before.skip(1) =~= rest@);
        assert(rest@ =~= orig.skip(k + 1));
        match load_step(dir, probe) {
            LoadStep::Use(l) => {
                assert(before[0].1 is Parsed);
                assert(first_parsed(before) == Some(0int));
                assert(orig[k] == before[0]);
                return l;
            },
            LoadStep::Next => {},
        }
        proof {
            k = k + 1;
        }
    }
    Loaded::fallback()
}

} // verus!

verus! {

/// `joined(base, name)` starts with `base` and ends with `name`, with at
/// most one `/` put between them.
pub proof fn lemma_joined_shape(base: Seq<char>, name: Seq<char>)
    ensures
        joined(base, name).take(base.len() as int) == base,
        joined(base, name).skip(joined(base, name).len() - name.len()) == name,
        joined(base, name).len() == base.len() + name.len() || (joined(base, name).len()
            == base.len() + name.len() + 1 && joined(base, name)[base.len() as int] == '/'),
{
    let j = joined(base, name);
    assert(j.take(base.len() as int) =~= base);
    assert(j.skip(j.len() - name.len()) =~= name);
}

/// The search list always ends with `/etc/glogout`; just before it comes
/// `$HOME/.config/glogout` whenever `$HOME` is set, whatever
/// `$XDG_CONFIG_HOME` is; `$XDG_CONFIG_HOME/glogout` comes first exactly when
/// that variable is set and non-empty; nothing else is searched.
pub proof fn lemma_search_order(xdg: Option<Seq<char>>, home: Option<Seq<char>>)
    ensures
        ({
            let p = search_paths_spec(xdg, home);
            let n_xdg: int = match xdg {
                Some(x) => if x.len() > 0 {
                    1
                } else {
                    0
                },
                None => 0,
            };
            let n_home: int = if home is Some {
                1
            } else {
                0
            };
            &&& p.len() == n_xdg + n_home + 1
            &&& p.last() == "/etc/glogout"@
            &&& (home matches Some(h) ==> p[p.len() - 2] == joined(h, ".config/glogout"@))
            &&& (xdg matches Some(x) ==> (x.len() > 0 ==> p[0] == joined(x, "glogout"@)))
        }),
        search_paths_spec(None, None) == seq!["/etc/glogout"@],
        forall|h: Seq<char>|
            search_paths_spec(None, Some(h)) == seq![joined(h, ".config/glogout"@), "/etc/glogout"@],
{
    assert forall|h: Seq<char>|
        search_paths_spec(None, Some(h)) == seq![joined(h, ".config/glogout"@), "/etc/glogout"@] by {
        assert(search_paths_spec(None, Some(h)) =~= seq![
            joined(h, ".config/glogout"@),
            "/etc/glogout"@,
        ]);
    }
    assert(search_paths_spec(None, None) =~= seq!["/etc/glogout"@]);
}

/// Each of the 22 hexadecimal characters has its standard value: `0`..`9`
/// are 0..9, and `a`..`f` and `A`..`F` are 10..15.
pub proof fn lemma_hex_digit_values()
    ensures
        hex_digit('0') == Some(0u8),
        hex_digit('1') == Some(1u8),
        hex_digit('2') == Some(2u8),
        hex_digit('3') == Some(3u8),
        hex_digit('4') == Some(4u8),
        hex_digit('5') == Some(5u8),
        hex_digit('6') == Some(6u8),
        hex_digit('7') == Some(7u8),
        hex_digit('8') == Some(8u8),
        hex_digit('9') == Some(9u8),
        hex_digit('a') == Some(10u8),
        hex_digit('b') == Some(11u8),
        hex_digit('c') == Some(12u8),
        hex_digit('d') == Some(13u8),
        hex_digit('e') == Some(14u8),
        hex_digit('f') == Some(15u8),
        hex_digit('A') == Some(10u8),
        hex_digit('B') == Some(11u8),
        hex_digit('C') == Some(12u8),
        hex_digit('D') == Some(13u8),
        hex_digit('E') == Some(14u8),
        hex_digit('F') == Some(15u8),
{
}

/// Characters just outside the digit ranges are no digits, so a color with
/// one of them does not parse.
pub proof fn lemma_hex_digit_bounds()
    ensures
        hex_digit('/') is None,
        hex_digit(':') is None,
        hex_digit('`') is None,
        hex_digit('g') is None,
        hex_digit('@') is None,
        hex_digit('G') is None,
        hex_digit('#') is None,
        hex_digit(' ') is None,
{
}

/// A well-formed long color gives, per channel, 16 times the first digit's
/// value plus the second's; a short one 17 times its digit; text of any
/// other length, or without the leading `#`, gives no color.
pub proof fn lemma_color_channels(s: Seq<char>)
    ensures
        s.len() == 7 && s[0] == '#' && hex_tail(s) ==> parsed_color(s) == Some(
            (
                16 * digit_at(s, 1) + digit_at(s, 2),
                16 * digit_at(s, 3) + digit_at(s, 4),
                16 * digit_at(s, 5) + digit_at(s, 6),
            ),
        ),
        s.len() == 4 && s[0] == '#' && hex_tail(s) ==> parsed_color(s) == Some(
            (17 * digit_at(s, 1), 17 * digit_at(s, 2), 17 * digit_at(s, 3)),
        ),
        s.len() != 7 && s.len() != 4 ==> parsed_color(s) is None,
        s.len() > 0 && s[0] != '#' ==> parsed_color(s) is None,
        (s.len() == 7 || s.len() == 4) && !hex_tail(s) ==> parsed_color(s) is None,
        parsed_color(s) matches Some((r, g, b)) ==> 0 <= r < 256 && 0 <= g < 256 && 0 <= b < 256,
{
    if parsed_color(s) is Some {
        assert(hex_digit(s[1]) is Some);
        assert(hex_digit(s[2]) is Some);
        assert(hex_digit(s[3]) is Some);
        if s.len() == 7 {
            assert(hex_digit(s[4]) is Some);
            assert(hex_digit(s[5]) is Some);
            assert(hex_digit(s[6]) is Some);
        }
    }
}

/// White is `#ffffff`, `#FFFFFF` and `#fff`.
pub proof fn lemma_white()
    ensures
        parsed_color(seq!['#', 'f', 'f', 'f', 'f', 'f', 'f']) == Some((255int, 255int, 255int)),
        parsed_color(seq!['#', 'F', 'F', 'F', 'F', 'F', 'F']) == Some((255int, 255int, 255int)),
        parsed_color(seq!['#', 'f', 'f', 'f']) == Some((255int, 255int, 255int)),
{
    let a = seq!['#', 'f', 'f', 'f', 'f', 'f', 'f'];
    let b = seq!['#', 'F', 'F', 'F', 'F', 'F', 'F'];
    let c = seq!['#', 'f', 'f', 'f'];
    assert(hex_tail(a));
    assert(hex_tail(b));
    assert(hex_tail(c));
}

} // verus!
