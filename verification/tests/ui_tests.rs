use glogout::config::{default_buttons, Button, Config};
use glogout::text::escape;
use glogout::ui::{build, render_button, render_buttons, PageSources, DEFAULT_CSS, DEFAULT_TEMPLATE, SCRIPT};

fn sources(template: Option<&str>) -> PageSources {
    PageSources {
        user_css: None,
        template: template.map(|s| s.to_string()),
        username: None,
        hostname_file: None,
    }
}

#[test]
fn escapes_the_five_markup_characters() {
    assert_eq!(escape("a&b<c>d\"e'f"), "a&amp;b&lt;c&gt;d&quot;e&#39;f");
    assert_eq!(escape(""), "");
    assert_eq!(escape("plain ⏻ text"), "plain ⏻ text");
}

#[test]
fn escaped_text_has_no_markup() {
    let e = escape("<script>alert('x')</script>\"");
    assert!(!e.contains('<') && !e.contains('>') && !e.contains('"') && !e.contains('\''));
}

#[test]
fn first_default_button_markup() {
    let b = &default_buttons()[0];
    assert_eq!(
        render_button(b, true),
        "<button data-action=\"logout\" data-keybind=\"l\" autofocus><span class=\"kbd\">l</span><span class=\"icon\">⏻</span><span>Log out</span></button>"
    );
}

#[test]
fn badge_and_icon_only_when_set() {
    let b = Button {
        id: "a&b".into(),
        label: "<L>".into(),
        icon: None,
        keybind: None,
        action: None,
        command: None,
    };
    assert_eq!(
        render_button(&b, false),
        "<button data-action=\"a&amp;b\" data-keybind=\"\"><span>&lt;L&gt;</span></button>"
    );
    let b = Button { keybind: Some(String::new()), icon: Some(String::new()), ..b };
    assert_eq!(
        render_button(&b, false),
        "<button data-action=\"a&amp;b\" data-keybind=\"\"><span class=\"icon\"></span><span>&lt;L&gt;</span></button>"
    );
}

#[test]
fn buttons_in_order_first_autofocus() {
    let bs = default_buttons();
    let html = render_buttons(&bs);
    let expected: String = bs.iter().enumerate().map(|(i, b)| render_button(b, i == 0)).collect();
    assert_eq!(html, expected);
    assert_eq!(html.matches(" autofocus").count(), 1);
    assert!(html.find("logout").unwrap() < html.find("reboot").unwrap());
    assert!(html.find("reboot").unwrap() < html.find("cancel").unwrap());
    assert_eq!(render_buttons(&[]), "");
}

#[test]
fn page_fills_every_placeholder() {
    let config = Config::default();
    let src = PageSources {
        user_css: Some("body{}".into()),
        template: Some("[{{stylesheet}}|{{buttons}}|{{script}}|{{username}}@{{hostname}}|{{username}}]".into()),
        username: Some("a<b".into()),
        hostname_file: Some("  box\n".into()),
    };
    let built = build(&config, &src);
    let expected = format!(
        "[<style>{DEFAULT_CSS}\nbody{{}}</style>|{}|{SCRIPT}|a&lt;b@box|a&lt;b]",
        render_buttons(&config.buttons)
    );
    assert_eq!(built.html, expected);
}

#[test]
fn default_template_when_none_given() {
    let config = Config::default();
    let built = build(&config, &sources(None));
    let expected = DEFAULT_TEMPLATE
        .replace("{{stylesheet}}", &format!("<style>{DEFAULT_CSS}\n</style>"))
        .replace("{{buttons}}", &render_buttons(&config.buttons))
        .replace("{{script}}", SCRIPT);
    assert_eq!(built.html, expected);
    assert!(built.html.contains("<div class=\"menu\"><button data-action=\"logout\""));
}

#[test]
fn template_without_placeholders_is_served_as_is() {
    let t = "<html><body>{{ buttons }} {stylesheet}</body></html>";
    assert_eq!(build(&Config::default(), &sources(Some(t))).html, t);
}

#[test]
fn unset_user_and_host_render_empty() {
    let built = build(&Config::default(), &sources(Some("({{username}}|{{hostname}})")));
    assert_eq!(built.html, "(|)");
}

#[test]
fn distinct_texts_escape_differently() {
    let inputs = ["&lt;", "<", "&amp;lt;", "&", "'", "&#39;", "\"", "&quot;"];
    for (i, a) in inputs.iter().enumerate() {
        for b in &inputs[i + 1..] {
            assert_ne!(escape(a), escape(b));
        }
    }
}
