//! The menu page: HTML escaping, the button markup, and the page assembled
//! from the template, the stylesheet and the click/keybind script.

use vstd::prelude::*;
use crate::config::{Button, ButtonView, Config, buttons_view};
use crate::text::{escape, html_escaped, push_str, replace_all, replaced, trim, trimmed};

verus! {

/// The reference stylesheet, always injected before the user's `style.css`.
pub const DEFAULT_CSS: &'static str = r#"
:root {
  --bg: rgba(18, 18, 22, 0.6);
  --fg: #f2f2f2;
  --muted: rgba(255, 255, 255, 0.55);
  --button-bg: rgba(255, 255, 255, 0.05);
  --button-bg-hover: rgba(255, 255, 255, 0.1);
  --button-border: rgba(255, 255, 255, 0.1);
  --button-border-hover: rgba(255, 255, 255, 0.25);
  --accent: #7aa7ff;
}
html, body {
  margin: 0;
  height: 100%;
  width: 100%;
  background: var(--bg);
  color: var(--fg);
  font-family: system-ui, sans-serif;
}
body {
  display: flex;
  align-items: center;
  justify-content: center;
  backdrop-filter: blur(14px);
  animation: glogout-enter 180ms ease-out;
}
@keyframes glogout-enter {
  from { opacity: 0; transform: scale(0.98); }
  to   { opacity: 1; transform: scale(1); }
}
@media (prefers-reduced-motion: reduce) {
  body { animation: none; }
  button { transition: none; }
}
.layout {
  display: flex;
  flex-direction: column;
  align-items: center;
  gap: 1.75rem;
}
.menu {
  display: grid;
  grid-auto-flow: column;
  gap: 1.25rem;
}
button {
  position: relative;
  appearance: none;
  background: var(--button-bg);
  border: 1px solid var(--button-border);
  color: inherit;
  font: inherit;
  font-size: 1.2rem;
  padding: 3rem 3.5rem;
  min-width: 9rem;
  border-radius: 0.85rem;
  cursor: pointer;
  transition: background 140ms ease, border-color 140ms ease,
              transform 140ms ease, box-shadow 140ms ease;
  display: flex;
  flex-direction: column;
  gap: 0.75rem;
  align-items: center;
  box-shadow: 0 1px 0 rgba(255, 255, 255, 0.04) inset,
              0 8px 24px rgba(0, 0, 0, 0.25);
}
button:hover {
  background: var(--button-bg-hover);
  border-color: var(--button-border-hover);
  transform: translateY(-2px);
}
button:focus-visible {
  outline: none;
  border-color: var(--accent);
  box-shadow: 0 0 0 2px rgba(122, 167, 255, 0.4),
              0 8px 24px rgba(0, 0, 0, 0.3);
}
button:active { transform: translateY(0); }
.icon { font-size: 2.4rem; line-height: 1; }
.kbd {
  position: absolute;
  top: 0.7rem;
  right: 0.7rem;
  font-size: 0.65rem;
  font-weight: 600;
  padding: 0.15rem 0.4rem;
  background: rgba(255, 255, 255, 0.08);
  border: 1px solid rgba(255, 255, 255, 0.18);
  border-radius: 0.3rem;
  text-transform: uppercase;
  letter-spacing: 0.06em;
  color: var(--muted);
}
.hint { font-size: 0.8rem; color: var(--muted); letter-spacing: 0.02em; }
"#;

/// The page used when the config directory holds no `template.html`.
pub const DEFAULT_TEMPLATE: &'static str = r#"<!doctype html>
<html>
<head>
<meta charset="utf-8">
{{stylesheet}}
</head>
<body>
  <div class="layout">
    <div class="menu">{{buttons}}</div>
    <div class="hint">Press a key, click a button, or hit Esc to cancel</div>
  </div>
  <script>{{script}}</script>
</body>
</html>"#;

/// The click and keybind dispatcher injected at `{{script}}`: it posts a
/// button's `data-action` to the `ipc` message handler.
pub const SCRIPT: &'static str = r#"
const send = (action) => window.webkit.messageHandlers.ipc.postMessage(action);
const buttons = [...document.querySelectorAll('button[data-action]')];
buttons.forEach(btn => btn.addEventListener('click', () => send(btn.dataset.action)));
document.addEventListener('keydown', (e) => {
  const key = e.key.toLowerCase();
  const btn = buttons.find(b => b.dataset.keybind && b.dataset.keybind.toLowerCase() === key);
  if (btn) send(btn.dataset.action);
});
"#;

} // verus!

verus! {

/// The escaped keybind of a button, empty when it has none.
pub open spec fn keybind_text(b: ButtonView) -> Seq<char> {
    match b.keybind {
        Some(k) => html_escaped(k),
        None => Seq::empty(),
    }
}

/// The keybind badge: present only when the escaped keybind is non-empty.
pub open spec fn kbd_badge(b: ButtonView) -> Seq<char> {
    if keybind_text(b).len() == 0 {
        Seq::empty()
    } else {
        "<span class=\"kbd\">"@ + keybind_text(b) + "</span>"@
    }
}

/// The icon span: present only when the button has an icon.
pub open spec fn icon_span(b: ButtonView) -> Seq<char> {
    match b.icon {
        Some(i) => "<span class=\"icon\">"@ + html_escaped(i) + "</span>"@,
        None => Seq::empty(),
    }
}

/// The `autofocus` attribute, for the first button only.
pub open spec fn autofocus_attr(autofocus: bool) -> Seq<char> {
    if autofocus {
        " autofocus"@
    } else {
        Seq::empty()
    }
}

/// The markup of one button: `data-action` is its id, `data-keybind` its
/// keybind; then the badge, the icon and the label in a class-less span.
pub open spec fn button_html(b: ButtonView, autofocus: bool) -> Seq<char> {
    "<button data-action=\""@ + html_escaped(b.id) + "\" data-keybind=\""@ + keybind_text(b)
        + "\""@ + autofocus_attr(autofocus) + ">"@ + kbd_badge(b) + icon_span(b) + "<span>"@
        + html_escaped(b.label) + "</span></button>"@
}

/// The markup of all buttons, in config order, the first with `autofocus`.
pub open spec fn buttons_html(bs: Seq<ButtonView>) -> Seq<char>
    decreases bs.len(),
{
    if bs.len() == 0 {
        Seq::empty()
    } else {
        buttons_html(bs.drop_last()) + button_html(bs.last(), bs.len() == 1)
    }
}

/// Renders one button.
pub fn render_button(btn: &Button, autofocus: bool) -> (r: String)
    ensures
        r@ == button_html(btn@, autofocus),
{
    let id = escape(btn.id.as_str());
    let label = escape(btn.label.as_str());
    let keybind = match &btn.keybind {
        Some(k) => escape(k.as_str()),
        None => String::new(),
    };
    let mut r = String::from_str("<button data-action=\"");
    push_str(&mut r, id.as_str());
    push_str(&mut r, "\" data-keybind=\"");
    push_str(&mut r, keybind.as_str());
    push_str(&mut r, "\"");
    if autofocus {
        push_str(&mut r, " autofocus");
    }
    push_str(&mut r, ">");
    if crate::text::chars_of(keybind.as_str()).len() > 0 {
        push_str(&mut r, "<span class=\"kbd\">");
        push_str(&mut r, keybind.as_str());
        push_str(&mut r, "</span>");
    }
    if let Some(i) = &btn.icon {
        let icon = escape(i.as_str());
        push_str(&mut r, "<span class=\"icon\">");
        push_str(&mut r, icon.as_str());
        push_str(&mut r, "</span>");
    }
    push_str(&mut r, "<span>");
    push_str(&mut r, label.as_str());
    push_str(&mut r, "</span></button>");
    assert(r@ =~= button_html(btn@, autofocus));
    r
}

/// Renders all buttons in order; the first gets `autofocus`.
pub fn render_buttons(buttons: &[Button]) -> (r: String)
    ensures
        r@ == buttons_html(buttons_view(buttons@)),
{
    let mut r = String::new();
    let n = buttons.len();
    for i in 0..n
        invariant
            n == buttons@.len(),
            r@ == buttons_html(buttons_view(buttons@.take(i as int))),
    {
        let piece = render_button(&buttons[i], i == 0);
        push_str(&mut r, piece.as_str());
        assert(buttons_view(buttons@.take(i + 1)).drop_last() =~= buttons_view(
            buttons@.take(i as int),
        ));
        assert(buttons_view(buttons@.take(i + 1)).last() == buttons@[i as int]@);
    }
    assert(buttons@.take(n as int) =~= buttons@);
    r
}

} // verus!

verus! {

/// What the page is made from besides the config, as read from the system:
/// each `None` where the file or variable was absent or unreadable.
#[derive(Debug)]
pub struct PageSources {
    /// Contents of `style.css` in the config directory.
    pub user_css: Option<String>,
    /// Contents of `template.html` in the config directory.
    pub template: Option<String>,
    /// Value of `$USER`.
    pub username: Option<String>,
    /// Contents of `/etc/hostname`.
    pub hostname_file: Option<String>,
}

/// The rendered page.
#[derive(Debug)]
pub struct Built {
    pub html: String,
}

/// The characters of an optional string, empty when absent.
pub open spec fn or_empty(o: Option<String>) -> Seq<char> {
    match o {
        Some(s) => s@,
        None => Seq::empty(),
    }
}

/// The template in use: the user's, else the default one.
pub open spec fn template_text(src: PageSources) -> Seq<char> {
    match src.template {
        Some(t) => t@,
        None => DEFAULT_TEMPLATE@,
    }
}

/// The host name: `/etc/hostname` without surrounding white space.
pub open spec fn hostname_text(src: PageSources) -> Seq<char> {
    match src.hostname_file {
        Some(h) => trimmed(h@),
        None => Seq::empty(),
    }
}

/// The `<style>` element: the reference stylesheet, a newline, then the
/// user's stylesheet.
pub open spec fn stylesheet_tag(src: PageSources) -> Seq<char> {
    "<style>"@ + DEFAULT_CSS@ + "\n"@ + or_empty(src.user_css) + "</style>"@
}

/// The page: in the template, `{{stylesheet}}`, `{{buttons}}`, `{{script}}`,
/// `{{username}}` and `{{hostname}}` are replaced in that order, the last
/// two by the escaped user and host names.
pub open spec fn page_html(bs: Seq<ButtonView>, src: PageSources) -> Seq<char> {
    let t1 = replaced(template_text(src), "{{stylesheet}}"@, stylesheet_tag(src));
    let t2 = replaced(t1, "{{buttons}}"@, buttons_html(bs));
    let t3 = replaced(t2, "{{script}}"@, SCRIPT@);
    let t4 = replaced(t3, "{{username}}"@, html_escaped(or_empty(src.username)));
    replaced(t4, "{{hostname}}"@, html_escaped(hostname_text(src)))
}

/// Builds the menu page for `config`.
pub fn build(config: &Config, sources: &PageSources) -> (r: Built)
    ensures
        r.html@ == page_html(config@.buttons, *sources),
{
    proof {
        reveal_strlit("{{stylesheet}}");
        reveal_strlit("{{buttons}}");
        reveal_strlit("{{script}}");
        reveal_strlit("{{username}}");
        reveal_strlit("{{hostname}}");
    }
    let mut tag = String::from_str("<style>");
    push_str(&mut tag, DEFAULT_CSS);
    push_str(&mut tag, "\n");
    if let Some(css) = &sources.user_css {
        push_str(&mut tag, css.as_str());
    }
    push_str(&mut tag, "</style>");
    assert(tag@ =~= stylesheet_tag(*sources));

    let buttons_html = render_buttons(config.buttons.as_slice());
    let template: &str = match &sources.template {
        Some(t) => t.as_str(),
        None => DEFAULT_TEMPLATE,
    };
    let username = match &sources.username {
        Some(u) => escape(u.as_str()),
        None => escape(""),
    };
    let hostname = match &sources.hostname_file {
        Some(h) => trim(h.as_str()),
        None => String::new(),
    };
    let hostname = escape(hostname.as_str());
    proof {
        reveal_strlit("");
        assert(html_escaped(Seq::<char>::empty()) == Seq::<char>::empty());
    }

    let html = replace_all(template, "{{stylesheet}}", tag.as_str());
    let html = replace_all(html.as_str(), "{{buttons}}", buttons_html.as_str());
    let html = replace_all(html.as_str(), "{{script}}", SCRIPT);
    let html = replace_all(html.as_str(), "{{username}}", username.as_str());
    let html = replace_all(html.as_str(), "{{hostname}}", hostname.as_str());
    Built { html }
}

} // verus!

verus! {

/// A template without any of the five placeholders is served as it is.
pub proof fn lemma_plain_template(bs: Seq<ButtonView>, src: PageSources)
    requires
        forall|i: int| !crate::text::occurs_at(template_text(src), i, "{{stylesheet}}"@),
        forall|i: int| !crate::text::occurs_at(template_text(src), i, "{{buttons}}"@),
        forall|i: int| !crate::text::occurs_at(template_text(src), i, "{{script}}"@),
        forall|i: int| !crate::text::occurs_at(template_text(src), i, "{{username}}"@),
        forall|i: int| !crate::text::occurs_at(template_text(src), i, "{{hostname}}"@),
    ensures
        page_html(bs, src) == template_text(src),
{
    reveal_strlit("{{stylesheet}}");
    reveal_strlit("{{buttons}}");
    reveal_strlit("{{script}}");
    reveal_strlit("{{username}}");
    reveal_strlit("{{hostname}}");
    let t = template_text(src);
    crate::text::lemma_replace_absent(t, "{{stylesheet}}"@, stylesheet_tag(src));
    crate::text::lemma_replace_absent(t, "{{buttons}}"@, buttons_html(bs));
    crate::text::lemma_replace_absent(t, "{{script}}"@, SCRIPT@);
    crate::text::lemma_replace_absent(t, "{{username}}"@, html_escaped(or_empty(src.username)));
    crate::text::lemma_replace_absent(t, "{{hostname}}"@, html_escaped(hostname_text(src)));
}

} // verus!

verus! {

/// The markup up to the end of the `data-keybind` attribute.
pub open spec fn head_of(id: Seq<char>, kb: Seq<char>) -> Seq<char> {
    "<button data-action=\""@ + html_escaped(id) + "\" data-keybind=\""@ + kb + "\""@
}

/// The markup of the label and the closing tag.
pub open spec fn label_tail(label: Seq<char>) -> Seq<char> {
    "<span>"@ + html_escaped(label) + "</span></button>"@
}

/// Every button starts with its escaped id as `data-action` and its escaped
/// keybind (empty when unset) as `data-keybind`, and ends with its escaped
/// label in a class-less span.
pub proof fn lemma_button_frame(b: ButtonView, autofocus: bool)
    ensures
        ({
            let kb = match b.keybind {
                Some(k) => html_escaped(k),
                None => Seq::<char>::empty(),
            };
            let h = head_of(b.id, kb);
            let t = label_tail(b.label);
            let m = button_html(b, autofocus);
            &&& m.len() >= h.len() + t.len()
            &&& m.take(h.len() as int) == h
            &&& m.skip(m.len() - t.len()) == t
        }),
{
    let kb = match b.keybind {
        Some(k) => html_escaped(k),
        None => Seq::<char>::empty(),
    };
    let h = head_of(b.id, kb);
    let t = label_tail(b.label);
    let mid = autofocus_attr(autofocus) + ">"@ + kbd_badge(b) + icon_span(b);
    let m = button_html(b, autofocus);
    assert(m =~= h + mid + t);
    assert(m.take(h.len() as int) =~= h);
    assert(m.skip(m.len() - t.len()) =~= t);
}

/// The icon depends on the icon alone: a button with icon `i` is the same
/// button without an icon, with `<span class="icon">` + escaped `i` +
/// `</span>` put just before the label, whatever the keybind or focus.
pub proof fn lemma_icon_slot(b: ButtonView, autofocus: bool, i: Seq<char>)
    ensures
        ({
            let with = ButtonView { icon: Some(i), ..b };
            let without = ButtonView { icon: None, ..b };
            let t = label_tail(b.label);
            let m0 = button_html(without, autofocus);
            &&& m0.len() >= t.len()
            &&& m0.skip(m0.len() - t.len()) == t
            &&& button_html(with, autofocus) == m0.take(m0.len() - t.len())
                + "<span class=\"icon\">"@ + html_escaped(i) + "</span>"@ + t
        }),
{
    let with = ButtonView { icon: Some(i), ..b };
    let without = ButtonView { icon: None, ..b };
    let t = label_tail(b.label);
    let kb = keybind_text(b);
    let front = head_of(b.id, kb) + autofocus_attr(autofocus) + ">"@ + kbd_badge(b);
    let m0 = button_html(without, autofocus);
    assert(keybind_text(without) == kb);
    assert(keybind_text(with) == kb);
    assert(kbd_badge(without) == kbd_badge(b));
    assert(kbd_badge(with) == kbd_badge(b));
    assert(m0 =~= front + t);
    assert(m0.take(m0.len() - t.len()) =~= front);
    assert(m0.skip(m0.len() - t.len()) =~= t);
    assert(button_html(with, autofocus) =~= front + ("<span class=\"icon\">"@ + html_escaped(i)
        + "</span>"@) + t);
}

/// The keybind badge: a button with a keybind whose escaped text is
/// non-empty carries `<span class="kbd">` + that text + `</span>` right
/// after the opening tag; the same button without keybind has none, and the
/// rest of the markup (icon and label) is the same for both.
pub proof fn lemma_badge_slot(b: ButtonView, autofocus: bool, k: Seq<char>)
    requires
        html_escaped(k).len() > 0,
    ensures
        ({
            let with = ButtonView { keybind: Some(k), ..b };
            let without = ButtonView { keybind: None, ..b };
            let open_with = head_of(b.id, html_escaped(k)) + autofocus_attr(autofocus) + ">"@;
            let open_without = head_of(b.id, Seq::empty()) + autofocus_attr(autofocus) + ">"@;
            let m0 = button_html(without, autofocus);
            &&& m0.len() >= open_without.len()
            &&& m0.take(open_without.len() as int) == open_without
            &&& button_html(with, autofocus) == open_with + "<span class=\"kbd\">"@ + html_escaped(k)
                + "</span>"@ + m0.skip(open_without.len() as int)
        }),
{
    let with = ButtonView { keybind: Some(k), ..b };
    let without = ButtonView { keybind: None, ..b };
    let open_with = head_of(b.id, html_escaped(k)) + autofocus_attr(autofocus) + ">"@;
    let open_without = head_of(b.id, Seq::empty()) + autofocus_attr(autofocus) + ">"@;
    let rest = icon_span(b) + label_tail(b.label);
    let m0 = button_html(without, autofocus);
    assert(kbd_badge(without) =~= Seq::<char>::empty());
    assert(icon_span(without) == icon_span(b));
    assert(icon_span(with) == icon_span(b));
    assert(m0 =~= open_without + rest);
    assert(m0.take(open_without.len() as int) =~= open_without);
    assert(m0.skip(open_without.len() as int) =~= rest);
    assert(button_html(with, autofocus) =~= open_with + ("<span class=\"kbd\">"@ + html_escaped(k)
        + "</span>"@) + rest);
}

/// Focus only adds ` autofocus` right after the `data-keybind` attribute.
pub proof fn lemma_autofocus_slot(b: ButtonView)
    ensures
        ({
            let h = head_of(b.id, keybind_text(b));
            let m0 = button_html(b, false);
            &&& m0.take(h.len() as int) == h
            &&& button_html(b, true) == h + " autofocus"@ + m0.skip(h.len() as int)
        }),
{
    let h = head_of(b.id, keybind_text(b));
    let rest = ">"@ + kbd_badge(b) + icon_span(b) + label_tail(b.label);
    let m0 = button_html(b, false);
    assert(m0 =~= h + rest);
    assert(m0.take(h.len() as int) =~= h);
    assert(m0.skip(h.len() as int) =~= rest);
    assert(button_html(b, true) =~= h + " autofocus"@ + rest);
}

/// The button list: a single button is rendered with focus, and appending
/// a button to a non-empty list appends its unfocused markup, so the
/// buttons come in config order and only the first has `autofocus`.
pub proof fn lemma_buttons_list(bs: Seq<ButtonView>, b: ButtonView)
    ensures
        buttons_html(seq![b]) == button_html(b, true),
        bs.len() > 0 ==> buttons_html(bs.push(b)) == buttons_html(bs) + button_html(b, false),
        buttons_html(Seq::<ButtonView>::empty()) == Seq::<char>::empty(),
{
    assert(seq![b].drop_last() =~= Seq::<ButtonView>::empty());
    assert(buttons_html(Seq::<ButtonView>::empty()) == Seq::<char>::empty());
    assert(seq![b].last() == b);
    assert(buttons_html(seq![b]) =~= Seq::<char>::empty() + button_html(b, true));
    assert(bs.push(b).drop_last() =~= bs);
}

} // verus!
