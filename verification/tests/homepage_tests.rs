use serde_json::Value;
use tokensbyte::homepage::{apply_seo_and_scripts, managed_homepage_blocks, managed_homepage_html, title_tags_in_order};
use tokensbyte::json_tree::JsonValue;
use tokensbyte::portal_config::{default_portal_footer_config, default_portal_nav_config};

fn j(s: &str) -> Value {
    serde_json::from_str(s).unwrap()
}

fn tree(v: &Value) -> JsonValue {
    match v {
        Value::Null => JsonValue::Null,
        Value::Bool(b) => JsonValue::Bool(*b),
        Value::Number(n) => JsonValue::Number(n.to_string()),
        Value::String(s) => JsonValue::Str(s.clone()),
        Value::Array(a) => JsonValue::Array(a.iter().map(tree).collect()),
        Value::Object(m) => JsonValue::Object(m.iter().map(|(k, v)| (k.clone(), tree(v))).collect()),
    }
}

const TEMPLATE: &str = "<html lang=\"en\"><head><title>Old</title><meta name=\"description\" content=\"d\"></head><body>\n<!-- PORTAL_LOGO_START -->x<!-- PORTAL_LOGO_END -->\n<!-- PORTAL_NAV_START --><!-- PORTAL_NAV_END -->\n<!-- PORTAL_ACTIONS_START --><!-- PORTAL_ACTIONS_END -->\n<!-- PORTAL_FOOTER_START --><!-- PORTAL_FOOTER_END -->\n</body></html>";

#[test]
fn blocks_are_filled_from_settings() {
    let nav = tree(&j(r##"{"logo_text":"Acme & Co","logo_link":"/","logo_url":"/l.png","items":[{"label":"甲|A","path":"#a"},{"label":"B","path":"#b","enabled":false}]}"##));
    let html = managed_homepage_blocks(TEMPLATE, &nav, &default_portal_footer_config());
    assert!(html.starts_with("<html lang=\"en\" data-managed-seo=\"true\">"));
    assert!(html.contains("<img src=\"/l.png\" alt=\"Acme &amp; Co\""));
    assert!(html.contains("<a href=\"#a\" class=\"text-sm font-medium text-muted-foreground hover:text-foreground transition-colors\"><span data-portal-zh=\"甲\" data-portal-en=\"A\">A</span></a>"));
    assert!(!html.contains("#b"));
    assert!(html.contains("<p>Company Name: Sexy Velora LLC</p>"));
    assert!(html.contains("href=\"/login\""));
    assert!(title_tags_in_order(&html));
}

#[test]
fn seo_and_scripts_applied() {
    let html = managed_homepage_html(
        TEMPLATE,
        None,
        None,
        Some(tree(&j(r#"{"analytics":"<script>a</script>","customer_service":""}"#))),
        Some(tree(&j(r#"{"meta_title":"New <T>","meta_description":"D\"q"}"#))),
    );
    assert!(html.contains("<title>New &lt;T&gt;</title>"));
    assert!(html.contains("<meta name=\"description\" content=D&quot;q\"d\">"));
    assert!(html.contains("<script>a</script>\n</head>"));
    let plain = apply_seo_and_scripts("<title>x</title>".to_string(), &None, &None);
    assert_eq!(plain, "<title>x</title>");
    assert!(!title_tags_in_order("</title><title>"));
    let _ = default_portal_nav_config();
}
