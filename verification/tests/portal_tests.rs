use tokensbyte::portal::{
    active_custom_homepage, bilingual_span, bilingual_text, column_paths, html_escape,
    replace_managed_block, replace_meta_content, style_applies_to_homepage, tera_child_source,
};

fn cfg(v: &[(&str, &str)]) -> Vec<(String, String)> {
    v.iter().map(|(a, b)| (a.to_string(), b.to_string())).collect()
}

#[test]
fn escapes_html() {
    assert_eq!(html_escape(r#"<a href="x">Tom & 'Jerry'</a>"#), "&lt;a href=&quot;x&quot;&gt;Tom &amp; &#39;Jerry&#39;&lt;/a&gt;");
    assert_eq!(html_escape("plain"), "plain");
}

#[test]
fn bilingual_labels() {
    assert_eq!(bilingual_text(" 首页 | Home "), ("首页", "Home"));
    assert_eq!(bilingual_text(" Docs "), ("Docs", "Docs"));
    assert_eq!(bilingual_text("a|b|c"), ("a", "b|c"));
    assert_eq!(
        bilingual_span("关于|About <us>"),
        "<span data-portal-zh=\"关于\" data-portal-en=\"About &lt;us&gt;\">About &lt;us&gt;</span>"
    );
}

#[test]
fn managed_block_replacement() {
    let mut html = "<div><!-- PORTAL_NAV_START -->old<!-- PORTAL_NAV_END --></div>".to_string();
    replace_managed_block(&mut html, "NAV", "<nav/>");
    assert_eq!(html, "<div><!-- PORTAL_NAV_START -->\n<nav/>\n  <!-- PORTAL_NAV_END --></div>");
    let mut missing = "<div>no markers</div>".to_string();
    replace_managed_block(&mut missing, "NAV", "x");
    assert_eq!(missing, "<div>no markers</div>");
}

#[test]
fn meta_content_replacement() {
    let mut html = "<meta name=\"description\" content=old\">".to_string();
    replace_meta_content(&mut html, "description", "A & B");
    assert_eq!(html, "<meta name=\"description\" content=A &amp; B\">");
    let mut quoted = "<meta name=\"keywords\" content=\"k\">".to_string();
    replace_meta_content(&mut quoted, "keywords", "x");
    assert_eq!(quoted, "<meta name=\"keywords\" content=x\"k\">");
}

#[test]
fn custom_homepage_choice() {
    let on = cfg(&[("custom_homepage", r#"{"enabled":true,"html":"  <h1>Hi</h1>  "}"#)]);
    assert_eq!(active_custom_homepage(&on), Some("<h1>Hi</h1>".to_string()));
    let blank = cfg(&[("custom_homepage", r#"{"enabled":true,"html":"   "}"#)]);
    assert_eq!(active_custom_homepage(&blank), None);
    let off = cfg(&[("custom_homepage", r#"{"enabled":false,"html":"<h1/>"}"#)]);
    assert_eq!(active_custom_homepage(&off), None);
    assert_eq!(active_custom_homepage(&cfg(&[])), None);
}

#[test]
fn style_and_columns() {
    assert!(style_applies_to_homepage(&cfg(&[])));
    assert!(!style_applies_to_homepage(&cfg(&[("style_config", r#"{"apply_to_homepage":false}"#)])));
    assert!(style_applies_to_homepage(&cfg(&[("style_config", "broken")])));
    let c = cfg(&[("columns_config", r#"{"models":{"path":"catalog"},"about":{"path":"us"}}"#)]);
    assert_eq!(column_paths(&c), ("catalog".to_string(), "contact".to_string(), "us".to_string()));
    assert_eq!(column_paths(&cfg(&[])), ("models".to_string(), "contact".to_string(), "about".to_string()));
}

#[test]
fn tera_child_drops_header() {
    assert_eq!(tera_child_source("{# c #}\n{% extends \"base\" %}x"), "{% extends \"base\" %}x");
    assert_eq!(tera_child_source("no extends"), "no extends");
}
