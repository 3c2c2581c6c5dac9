//! The managed portal homepage: the homepage template with its logo,
//! navigation, actions and footer blocks filled from the portal settings,
//! its SEO title and meta tags set, and the site's scripts added.
use vstd::prelude::*;
use crate::json_tree::{item_views, jarray, jbool, jget, jstr, JsonValue, JsonView};
use crate::portal::{
    bilingual_span, bilingual_span_model, block_end, block_start, html_escape, html_escape_model,
    meta_prefix, replace_between, replace_managed_block, replace_meta_content,
};
use crate::portal_config::{footer_model, nav_model, portal_footer_config, portal_nav_config};
use crate::text::{
    chars_find, chars_of, contains, first_index, occurs_at, replace_first, replacen_once, slice_range,
    string_append, string_from_chars, to_owned_string,
};

verus! {

// ───────────────────────── layouts ─────────────────────────

/// The `logo_image_fmt` layout.
pub open spec fn logo_image_fmt(url: Seq<char>, alt: Seq<char>) -> Seq<char> {
    "<img src=\""@ + url + "\" alt=\""@ + alt + "\" class=\"h-8 w-8 object-contain transition-transform duration-300 group-hover:scale-105\">"@
}

fn logo_image_fmt_of(url: &str, alt: &str) -> (r: String)
    ensures
        r@ == logo_image_fmt(url@, alt@),
{
    let mut s = to_owned_string("<img src=\"");
    string_append(&mut s, url);
    string_append(&mut s, "\" alt=\"");
    string_append(&mut s, alt);
    string_append(&mut s, "\" class=\"h-8 w-8 object-contain transition-transform duration-300 group-hover:scale-105\">");
    s
}

/// The `logo_fmt` layout.
pub open spec fn logo_fmt(link: Seq<char>, label: Seq<char>, image: Seq<char>, text: Seq<char>) -> Seq<char> {
    "<a href=\""@ + link + "\" class=\"flex items-center gap-3 group\" aria-label=\""@ + label + " home\">"@ + image + "<span class=\"font-heading text-xl sm:text-2xl font-bold tracking-tight bg-gradient-to-r from-foreground to-foreground/80 bg-clip-text text-transparent group-hover:opacity-90 duration-300\">"@ + text + "</span></a>"@
}

fn logo_fmt_of(link: &str, label: &str, image: &str, text: &str) -> (r: String)
    ensures
        r@ == logo_fmt(link@, label@, image@, text@),
{
    let mut s = to_owned_string("<a href=\"");
    string_append(&mut s, link);
    string_append(&mut s, "\" class=\"flex items-center gap-3 group\" aria-label=\"");
    string_append(&mut s, label);
    string_append(&mut s, " home\">");
    string_append(&mut s, image);
    string_append(&mut s, "<span class=\"font-heading text-xl sm:text-2xl font-bold tracking-tight bg-gradient-to-r from-foreground to-foreground/80 bg-clip-text text-transparent group-hover:opacity-90 duration-300\">");
    string_append(&mut s, text);
    string_append(&mut s, "</span></a>");
    s
}

/// The `nav_link_fmt` layout.
pub open spec fn nav_link_fmt(path: Seq<char>, label: Seq<char>) -> Seq<char> {
    "<a href=\""@ + path + "\" class=\"text-sm font-medium text-muted-foreground hover:text-foreground transition-colors\">"@ + label + "</a>"@
}

fn nav_link_fmt_of(path: &str, label: &str) -> (r: String)
    ensures
        r@ == nav_link_fmt(path@, label@),
{
    let mut s = to_owned_string("<a href=\"");
    string_append(&mut s, path);
    string_append(&mut s, "\" class=\"text-sm font-medium text-muted-foreground hover:text-foreground transition-colors\">");
    string_append(&mut s, label);
    string_append(&mut s, "</a>");
    s
}

/// The `nav_fmt` layout.
pub open spec fn nav_fmt(inner: Seq<char>) -> Seq<char> {
    "<nav class=\"hidden md:flex items-center gap-6\">"@ + inner + "</nav>"@
}

fn nav_fmt_of(inner: &str) -> (r: String)
    ensures
        r@ == nav_fmt(inner@),
{
    let mut s = to_owned_string("<nav class=\"hidden md:flex items-center gap-6\">");
    string_append(&mut s, inner);
    string_append(&mut s, "</nav>");
    s
}

/// The `nav_items_fmt` layout.
pub open spec fn nav_items_fmt(items: Seq<char>) -> Seq<char> {
    "\n        "@ + items + "\n      "@
}

fn nav_items_fmt_of(items: &str) -> (r: String)
    ensures
        r@ == nav_items_fmt(items@),
{
    let mut s = to_owned_string("\n        ");
    string_append(&mut s, items);
    string_append(&mut s, "\n      ");
    s
}

/// The `actions_fmt` layout.
pub open spec fn actions_fmt(cta_link: Seq<char>, cta_text: Seq<char>, register_link: Seq<char>, register_text: Seq<char>) -> Seq<char> {
    "<a href=\""@ + cta_link + "\" class=\"hidden sm:inline-flex text-sm font-medium text-muted-foreground hover:text-foreground h-9 px-4 items-center justify-center rounded-lg transition-colors\">"@ + cta_text + "</a>\n        <a href=\""@ + register_link + "\" class=\"inline-flex h-9 items-center justify-center rounded-lg bg-primary px-4 text-sm font-medium text-primary-foreground shadow hover:bg-primary/95 transition-all duration-200 hover:scale-[1.02]\">"@ + register_text + "</a>"@
}

fn actions_fmt_of(cta_link: &str, cta_text: &str, register_link: &str, register_text: &str) -> (r: String)
    ensures
        r@ == actions_fmt(cta_link@, cta_text@, register_link@, register_text@),
{
    let mut s = to_owned_string("<a href=\"");
    string_append(&mut s, cta_link);
    string_append(&mut s, "\" class=\"hidden sm:inline-flex text-sm font-medium text-muted-foreground hover:text-foreground h-9 px-4 items-center justify-center rounded-lg transition-colors\">");
    string_append(&mut s, cta_text);
    string_append(&mut s, "</a>\n        <a href=\"");
    string_append(&mut s, register_link);
    string_append(&mut s, "\" class=\"inline-flex h-9 items-center justify-center rounded-lg bg-primary px-4 text-sm font-medium text-primary-foreground shadow hover:bg-primary/95 transition-all duration-200 hover:scale-[1.02]\">");
    string_append(&mut s, register_text);
    string_append(&mut s, "</a>");
    s
}

/// The `footer_link_fmt` layout.
pub open spec fn footer_link_fmt(path: Seq<char>, label: Seq<char>) -> Seq<char> {
    "<li><a href=\""@ + path + "\" class=\"text-muted-foreground hover:text-foreground transition-colors\">"@ + label + "</a></li>"@
}

fn footer_link_fmt_of(path: &str, label: &str) -> (r: String)
    ensures
        r@ == footer_link_fmt(path@, label@),
{
    let mut s = to_owned_string("<li><a href=\"");
    string_append(&mut s, path);
    string_append(&mut s, "\" class=\"text-muted-foreground hover:text-foreground transition-colors\">");
    string_append(&mut s, label);
    string_append(&mut s, "</a></li>");
    s
}

/// The `company_name_fmt` layout.
pub open spec fn company_name_fmt(name: Seq<char>) -> Seq<char> {
    "<p>Company Name: "@ + name + "</p>"@
}

fn company_name_fmt_of(name: &str) -> (r: String)
    ensures
        r@ == company_name_fmt(name@),
{
    let mut s = to_owned_string("<p>Company Name: ");
    string_append(&mut s, name);
    string_append(&mut s, "</p>");
    s
}

/// The `company_address_fmt` layout.
pub open spec fn company_address_fmt(address: Seq<char>) -> Seq<char> {
    "<p>Company Address: "@ + address + "</p>"@
}

fn company_address_fmt_of(address: &str) -> (r: String)
    ensures
        r@ == company_address_fmt(address@),
{
    let mut s = to_owned_string("<p>Company Address: ");
    string_append(&mut s, address);
    string_append(&mut s, "</p>");
    s
}

/// The `icp_fmt` layout.
pub open spec fn icp_fmt(icp: Seq<char>) -> Seq<char> {
    "<p>"@ + icp + "</p>"@
}

fn icp_fmt_of(icp: &str) -> (r: String)
    ensures
        r@ == icp_fmt(icp@),
{
    let mut s = to_owned_string("<p>");
    string_append(&mut s, icp);
    string_append(&mut s, "</p>");
    s
}

/// The `legal_link_fmt` layout.
pub open spec fn legal_link_fmt(link: Seq<char>, text: Seq<char>) -> Seq<char> {
    "<a href=\""@ + link + "\" class=\"hover:text-foreground transition-colors\">"@ + text + "</a>"@
}

fn legal_link_fmt_of(link: &str, text: &str) -> (r: String)
    ensures
        r@ == legal_link_fmt(link@, text@),
{
    let mut s = to_owned_string("<a href=\"");
    string_append(&mut s, link);
    string_append(&mut s, "\" class=\"hover:text-foreground transition-colors\">");
    string_append(&mut s, text);
    string_append(&mut s, "</a>");
    s
}

/// The `footer_fmt` layout.
pub open spec fn footer_fmt(brand: Seq<char>, description: Seq<char>, links_title: Seq<char>, links: Seq<char>, news_title: Seq<char>, news_description: Seq<char>, copyright: Seq<char>, company_rows: Seq<char>, terms_html: Seq<char>, privacy_html: Seq<char>) -> Seq<char> {
    "<footer class=\"mt-auto border-t border-border bg-muted/20 py-12 sm:py-16 transition-colors duration-300\">\n    <div class=\"container mx-auto max-w-[1400px] px-4 sm:px-6\">\n      <div class=\"grid grid-cols-1 md:grid-cols-12 gap-8 md:gap-12 pb-12 border-b border-border\">\n        <div class=\"md:col-span-5 flex flex-col space-y-4\">\n          <div class=\"flex items-center gap-2\"><span class=\"font-heading text-lg font-bold tracking-tight\">"@ + brand + "</span></div>\n          <p class=\"text-sm text-muted-foreground leading-relaxed max-w-[420px]\">"@ + description + "</p>\n        </div>\n        <div class=\"md:col-span-3 space-y-3.5\">\n          <h4 class=\"text-xs font-bold uppercase tracking-wider text-muted-foreground\">"@ + links_title + "</h4>\n          <ul class=\"space-y-2 text-sm\">"@ + links + "</ul>\n        </div>\n        <div class=\"md:col-span-4 space-y-4\">\n          <h4 class=\"text-xs font-bold uppercase tracking-wider text-muted-foreground\">"@ + news_title + "</h4>\n          <p class=\"text-xs text-muted-foreground\">"@ + news_description + "</p>\n        </div>\n      </div>\n      <div class=\"pt-8 flex flex-col sm:flex-row items-start justify-between text-xs text-muted-foreground gap-4\">\n        <div class=\"space-y-2 leading-relaxed text-left\">\n          <span class=\"block\">"@ + copyright + "</span>\n          <div>"@ + company_rows + "</div>\n        </div>\n        <div class=\"flex items-center gap-4 sm:justify-end\">\n          "@ + terms_html + "\n          "@ + privacy_html + "\n        </div>\n      </div>\n    </div>\n  </footer>"@
}

fn footer_fmt_of(brand: &str, description: &str, links_title: &str, links: &str, news_title: &str, news_description: &str, copyright: &str, company_rows: &str, terms_html: &str, privacy_html: &str) -> (r: String)
    ensures
        r@ == footer_fmt(brand@, description@, links_title@, links@, news_title@, news_description@, copyright@, company_rows@, terms_html@, privacy_html@),
{
    let mut s = to_owned_string("<footer class=\"mt-auto border-t border-border bg-muted/20 py-12 sm:py-16 transition-colors duration-300\">\n    <div class=\"container mx-auto max-w-[1400px] px-4 sm:px-6\">\n      <div class=\"grid grid-cols-1 md:grid-cols-12 gap-8 md:gap-12 pb-12 border-b border-border\">\n        <div class=\"md:col-span-5 flex flex-col space-y-4\">\n          <div class=\"flex items-center gap-2\"><span class=\"font-heading text-lg font-bold tracking-tight\">");
    string_append(&mut s, brand);
    string_append(&mut s, "</span></div>\n          <p class=\"text-sm text-muted-foreground leading-relaxed max-w-[420px]\">");
    string_append(&mut s, description);
    string_append(&mut s, "</p>\n        </div>\n        <div class=\"md:col-span-3 space-y-3.5\">\n          <h4 class=\"text-xs font-bold uppercase tracking-wider text-muted-foreground\">");
    string_append(&mut s, links_title);
    string_append(&mut s, "</h4>\n          <ul class=\"space-y-2 text-sm\">");
    string_append(&mut s, links);
    string_append(&mut s, "</ul>\n        </div>\n        <div class=\"md:col-span-4 space-y-4\">\n          <h4 class=\"text-xs font-bold uppercase tracking-wider text-muted-foreground\">");
    string_append(&mut s, news_title);
    string_append(&mut s, "</h4>\n          <p class=\"text-xs text-muted-foreground\">");
    string_append(&mut s, news_description);
    string_append(&mut s, "</p>\n        </div>\n      </div>\n      <div class=\"pt-8 flex flex-col sm:flex-row items-start justify-between text-xs text-muted-foreground gap-4\">\n        <div class=\"space-y-2 leading-relaxed text-left\">\n          <span class=\"block\">");
    string_append(&mut s, copyright);
    string_append(&mut s, "</span>\n          <div>");
    string_append(&mut s, company_rows);
    string_append(&mut s, "</div>\n        </div>\n        <div class=\"flex items-center gap-4 sm:justify-end\">\n          ");
    string_append(&mut s, terms_html);
    string_append(&mut s, "\n          ");
    string_append(&mut s, privacy_html);
    string_append(&mut s, "\n        </div>\n      </div>\n    </div>\n  </footer>");
    s
}

/// The `footer_links_fmt` layout.
pub open spec fn footer_links_fmt(links: Seq<char>) -> Seq<char> {
    "\n            "@ + links + "\n          "@
}

fn footer_links_fmt_of(links: &str) -> (r: String)
    ensures
        r@ == footer_links_fmt(links@),
{
    let mut s = to_owned_string("\n            ");
    string_append(&mut s, links);
    string_append(&mut s, "\n          ");
    s
}

/// The `head_fmt` layout.
pub open spec fn head_fmt(script: Seq<char>) -> Seq<char> {
    ""@ + script + "\n</head>"@
}

fn head_fmt_of(script: &str) -> (r: String)
    ensures
        r@ == head_fmt(script@),
{
    let mut s = to_owned_string("");
    string_append(&mut s, script);
    string_append(&mut s, "\n</head>");
    s
}

/// The `body_fmt` layout.
pub open spec fn body_fmt(script: Seq<char>) -> Seq<char> {
    ""@ + script + "\n</body>"@
}

fn body_fmt_of(script: &str) -> (r: String)
    ensures
        r@ == body_fmt(script@),
{
    let mut s = to_owned_string("");
    string_append(&mut s, script);
    string_append(&mut s, "\n</body>");
    s
}

// ───────────────────────── reading the settings ─────────────────────────

/// The string member `k` of `v`, else `d` (`v[k].as_str().unwrap_or(d)`).
pub open spec fn jfield(v: JsonView, k: Seq<char>, d: Seq<char>) -> Seq<char> {
    match jstr(jget(v, k)) {
        Some(s) => s,
        None => d,
    }
}

fn field_of<'a>(v: &'a JsonValue, k: &str, d: &'a str) -> (r: &'a str)
    ensures
        r@ == jfield(v@, k@, d@),
{
    match v.get(k) {
        Some(x) => match x.as_str() {
            Some(s) => s,
            None => d,
        },
        None => d,
    }
}

/// An entry is shown unless its `enabled` is `false`.
pub open spec fn enabled_entry(item: JsonView) -> bool {
    match jbool(jget(item, "enabled"@)) {
        Some(b) => b,
        None => true,
    }
}

fn enabled_of(item: &JsonValue) -> (r: bool)
    ensures
        r == enabled_entry(item@),
{
    match item.get("enabled") {
        Some(x) => match x.as_bool() {
            Some(b) => b,
            None => true,
        },
        None => true,
    }
}

/// `parts` joined with `sep` between them (`[..].join(sep)`).
pub open spec fn join(parts: Seq<Seq<char>>, sep: Seq<char>) -> Seq<char>
    decreases parts.len(),
{
    if parts.len() == 0 {
        Seq::empty()
    } else if parts.len() == 1 {
        parts[0]
    } else {
        join(parts.drop_last(), sep) + sep + parts.last()
    }
}

fn join_of(parts: &Vec<String>, sep: &str) -> (r: String)
    ensures
        r@ == join(parts.deep_view(), sep@),
{
    let ghost pv = parts.deep_view();
    if parts.len() == 0 {
        return String::new();
    }
    let mut s = to_owned_string(parts[0].as_str());
    assert(pv.take(1).drop_last().len() == 0);
    let mut i: usize = 1;
    while i < parts.len()
        invariant
            1 <= i <= parts@.len(),
            pv == parts.deep_view(),
            s@ == join(pv.take(i as int), sep@),
        decreases parts.len() - i,
    {
        proof {
            assert(pv.take(i + 1).drop_last() =~= pv.take(i as int));
            assert(pv.take(i + 1).last() == pv[i as int]);
        }
        string_append(&mut s, sep);
        string_append(&mut s, parts[i].as_str());
        i = i + 1;
    }
    assert(pv.take(parts.len() as int) =~= pv);
    s
}

/// The items of the array member `k` of `v` (none when it is no array).
pub open spec fn entries(v: JsonView, k: Seq<char>) -> Seq<JsonView> {
    match jarray(jget(v, k)) {
        Some(a) => a,
        None => Seq::empty(),
    }
}

/// A navigation link.
pub open spec fn nav_link(item: JsonView) -> Seq<char> {
    nav_link_fmt(html_escape_model(jfield(item, "path"@, "#"@)), bilingual_span_model(jfield(item, "label"@, ""@)))
}

/// A footer link.
pub open spec fn footer_link_line(item: JsonView) -> Seq<char> {
    footer_link_fmt(html_escape_model(jfield(item, "path"@, "#"@)), bilingual_span_model(jfield(item, "label"@, ""@)))
}

/// The links of the enabled entries of `items[i..]`, rendered by `footer`
/// (footer links) or else as navigation links.
pub open spec fn enabled_links(items: Seq<JsonView>, i: int, footer: bool) -> Seq<Seq<char>>
    decreases items.len() - i,
{
    if i < 0 || i >= items.len() {
        Seq::empty()
    } else {
        let rest = enabled_links(items, i + 1, footer);
        if enabled_entry(items[i]) {
            seq![
                if footer {
                    footer_link_line(items[i])
                } else {
                    nav_link(items[i])
                },
            ] + rest
        } else {
            rest
        }
    }
}

fn enabled_links_of(items: &Vec<JsonValue>, footer: bool) -> (r: Vec<String>)
    ensures
        r.deep_view() == enabled_links(item_views(items@), 0, footer),
{
    let ghost iv = item_views(items@);
    let mut out: Vec<String> = Vec::new();
    let mut i: usize = 0;
    while i < items.len()
        invariant
            i <= items@.len(),
            iv == item_views(items@),
            out.deep_view() + enabled_links(iv, i as int, footer) == enabled_links(iv, 0, footer),
        decreases items.len() - i,
    {
        let ghost before = out.deep_view();
        let item = &items[i];
        if enabled_of(item) {
            let path = html_escape(field_of(item, "path", "#"));
            let label = bilingual_span(field_of(item, "label", ""));
            let line = if footer {
                footer_link_fmt_of(path.as_str(), label.as_str())
            } else {
                nav_link_fmt_of(path.as_str(), label.as_str())
            };
            out.push(line);
            assert(out.deep_view() =~= before.push(line@));
            assert(before + enabled_links(iv, i as int, footer) =~= before.push(line@) + enabled_links(
                iv,
                i + 1,
                footer,
            ));
        }
        i = i + 1;
    }
    assert(out.deep_view() + enabled_links(iv, i as int, footer) =~= out.deep_view());
    out
}

fn links_of(v: &JsonValue, k: &str, footer: bool) -> (r: Vec<String>)
    ensures
        r.deep_view() == enabled_links(entries(v@, k@), 0, footer),
{
    match v.get(k) {
        Some(x) => match x.as_array() {
            Some(a) => enabled_links_of(a, footer),
            None => Vec::new(),
        },
        None => Vec::new(),
    }
}

// ───────────────────────── the blocks ─────────────────────────

/// The logo block: the logo image when a logo URL is set, and the logo
/// text, linking to the logo link.
pub open spec fn logo_block(nav: JsonView) -> Seq<char> {
    let text = jfield(nav, "logo_text"@, "TokensByte"@);
    let link = jfield(nav, "logo_link"@, "/home"@);
    let url = jfield(nav, "logo_url"@, ""@);
    let image = if url.len() == 0 {
        Seq::empty()
    } else {
        logo_image_fmt(html_escape_model(url), html_escape_model(text))
    };
    logo_fmt(html_escape_model(link), html_escape_model(text), image, html_escape_model(text))
}

/// The navigation block: the enabled entries' links, one per line.
pub open spec fn nav_block(nav: JsonView) -> Seq<char> {
    let links = join(enabled_links(entries(nav, "items"@), 0, false), "\n        "@);
    nav_fmt(
        if links.len() == 0 {
            Seq::empty()
        } else {
            nav_items_fmt(links)
        },
    )
}

/// The action block: login and registration links.
pub open spec fn actions_block(nav: JsonView) -> Seq<char> {
    actions_fmt(
        html_escape_model(jfield(nav, "cta_link"@, "/login"@)),
        bilingual_span_model(jfield(nav, "cta_text"@, "登录|Login"@)),
        html_escape_model(jfield(nav, "register_link"@, "/register"@)),
        bilingual_span_model(jfield(nav, "register_text"@, "立即注册|Get API Key"@)),
    )
}

/// The company lines of the footer: name, address and ICP number, each
/// when set.
pub open spec fn company_lines(footer: JsonView) -> Seq<Seq<char>> {
    let name = jfield(footer, "company_name"@, ""@);
    let address = jfield(footer, "company_address"@, ""@);
    let icp = jfield(footer, "icp_number"@, ""@);
    (if name.len() > 0 {
        seq![company_name_fmt(html_escape_model(name))]
    } else {
        Seq::empty()
    }) + (if address.len() > 0 {
        seq![company_address_fmt(html_escape_model(address))]
    } else {
        Seq::empty()
    }) + (if icp.len() > 0 {
        seq![icp_fmt(html_escape_model(icp))]
    } else {
        Seq::empty()
    })
}

/// A legal link of the footer, when switched on (`flag`, on by default).
pub open spec fn legal_link(footer: JsonView, flag: Seq<char>, link: Seq<char>, dlink: Seq<char>, text: Seq<char>, dtext: Seq<char>) -> Seq<char> {
    let on = match jbool(jget(footer, flag)) {
        Some(b) => b,
        None => true,
    };
    if on {
        legal_link_fmt(html_escape_model(jfield(footer, link, dlink)), bilingual_span_model(jfield(footer, text, dtext)))
    } else {
        Seq::empty()
    }
}

/// The footer block.
pub open spec fn footer_block(footer: JsonView) -> Seq<char> {
    let links = join(enabled_links(entries(footer, "links"@), 0, true), "\n            "@);
    footer_fmt(
        bilingual_span_model(jfield(footer, "brand_name"@, "TokensByte"@)),
        bilingual_span_model(jfield(footer, "description"@, ""@)),
        bilingual_span_model(jfield(footer, "links_title"@, ""@)),
        if links.len() == 0 {
            Seq::empty()
        } else {
            footer_links_fmt(links)
        },
        bilingual_span_model(jfield(footer, "news_title"@, ""@)),
        bilingual_span_model(jfield(footer, "news_description"@, ""@)),
        html_escape_model(jfield(footer, "copyright"@, ""@)),
        join(company_lines(footer), "\n              "@),
        legal_link(footer, "terms_enabled"@, "terms_link"@, "/legal/terms"@, "terms_text"@, "服务条款|Terms of Service"@),
        legal_link(footer, "privacy_enabled"@, "privacy_link"@, "/legal/privacy"@, "privacy_text"@, "隐私政策|Privacy Policy"@),
    )
}

fn logo_block_of(nav: &JsonValue) -> (r: String)
    ensures
        r@ == logo_block(nav@),
{
    let text = field_of(nav, "logo_text", "TokensByte");
    let link = field_of(nav, "logo_link", "/home");
    let url = field_of(nav, "logo_url", "");
    let et = html_escape(text);
    let image = if url.is_empty() {
        String::new()
    } else {
        let eu = html_escape(url);
        logo_image_fmt_of(eu.as_str(), et.as_str())
    };
    let el = html_escape(link);
    logo_fmt_of(el.as_str(), et.as_str(), image.as_str(), et.as_str())
}

fn nav_block_of(nav: &JsonValue) -> (r: String)
    ensures
        r@ == nav_block(nav@),
{
    let links = join_of(&links_of(nav, "items", false), "\n        ");
    let inner = if links.as_str().is_empty() {
        String::new()
    } else {
        nav_items_fmt_of(links.as_str())
    };
    nav_fmt_of(inner.as_str())
}

fn actions_block_of(nav: &JsonValue) -> (r: String)
    ensures
        r@ == actions_block(nav@),
{
    let cta_link = html_escape(field_of(nav, "cta_link", "/login"));
    let cta_text = bilingual_span(field_of(nav, "cta_text", "登录|Login"));
    let reg_link = html_escape(field_of(nav, "register_link", "/register"));
    let reg_text = bilingual_span(field_of(nav, "register_text", "立即注册|Get API Key"));
    actions_fmt_of(cta_link.as_str(), cta_text.as_str(), reg_link.as_str(), reg_text.as_str())
}

fn company_lines_of(footer: &JsonValue) -> (r: Vec<String>)
    ensures
        r.deep_view() == company_lines(footer@),
{
    let name = field_of(footer, "company_name", "");
    let address = field_of(footer, "company_address", "");
    let icp = field_of(footer, "icp_number", "");
    let mut out: Vec<String> = Vec::new();
    let ghost e = Seq::<Seq<char>>::empty();
    if !name.is_empty() {
        out.push(company_name_fmt_of(html_escape(name).as_str()));
    }
    let ghost a = out.deep_view();
    if !address.is_empty() {
        out.push(company_address_fmt_of(html_escape(address).as_str()));
    }
    let ghost b = out.deep_view();
    if !icp.is_empty() {
        out.push(icp_fmt_of(html_escape(icp).as_str()));
    }
    proof {
        let n = jfield(footer@, "company_name"@, ""@);
        let ad = jfield(footer@, "company_address"@, ""@);
        let ic = jfield(footer@, "icp_number"@, ""@);
        let p1 = if n.len() > 0 {
            seq![company_name_fmt(html_escape_model(n))]
        } else {
            Seq::<Seq<char>>::empty()
        };
        let p2 = if ad.len() > 0 {
            seq![company_address_fmt(html_escape_model(ad))]
        } else {
            Seq::<Seq<char>>::empty()
        };
        let p3 = if ic.len() > 0 {
            seq![icp_fmt(html_escape_model(ic))]
        } else {
            Seq::<Seq<char>>::empty()
        };
        assert(a =~= p1);
        assert(b =~= p1 + p2);
        assert(out.deep_view() =~= p1 + p2 + p3);
    }
    out
}

fn legal_link_of(
    footer: &JsonValue,
    flag: &str,
    link: &str,
    dlink: &str,
    text: &str,
    dtext: &str,
) -> (r: String)
    ensures
        r@ == legal_link(footer@, flag@, link@, dlink@, text@, dtext@),
{
    let on = match footer.get(flag) {
        Some(x) => match x.as_bool() {
            Some(b) => b,
            None => true,
        },
        None => true,
    };
    if on {
        let l = html_escape(field_of(footer, link, dlink));
        let t = bilingual_span(field_of(footer, text, dtext));
        legal_link_fmt_of(l.as_str(), t.as_str())
    } else {
        String::new()
    }
}

fn footer_block_of(footer: &JsonValue) -> (r: String)
    ensures
        r@ == footer_block(footer@),
{
    let links = join_of(&links_of(footer, "links", true), "\n            ");
    let links_html = if links.as_str().is_empty() {
        String::new()
    } else {
        footer_links_fmt_of(links.as_str())
    };
    let brand = bilingual_span(field_of(footer, "brand_name", "TokensByte"));
    let description = bilingual_span(field_of(footer, "description", ""));
    let links_title = bilingual_span(field_of(footer, "links_title", ""));
    let news_title = bilingual_span(field_of(footer, "news_title", ""));
    let news_description = bilingual_span(field_of(footer, "news_description", ""));
    let copyright = html_escape(field_of(footer, "copyright", ""));
    let rows = join_of(&company_lines_of(footer), "\n              ");
    let terms = legal_link_of(footer, "terms_enabled", "terms_link", "/legal/terms", "terms_text", "服务条款|Terms of Service");
    let privacy = legal_link_of(
        footer,
        "privacy_enabled",
        "privacy_link",
        "/legal/privacy",
        "privacy_text",
        "隐私政策|Privacy Policy",
    );
    footer_fmt_of(
        brand.as_str(),
        description.as_str(),
        links_title.as_str(),
        links_html.as_str(),
        news_title.as_str(),
        news_description.as_str(),
        copyright.as_str(),
        rows.as_str(),
        terms.as_str(),
        privacy.as_str(),
    )
}

// ───────────────────────── the page ─────────────────────────

/// A managed block of `html` replaced by `content` (see
/// [`replace_managed_block`]).
pub open spec fn with_block(html: Seq<char>, name: Seq<char>, content: Seq<char>) -> Seq<char> {
    replace_between(html, block_start(name), block_end(name), "\n"@ + content + "\n  "@)
}

/// The homepage template with its four managed blocks filled from the
/// navigation and footer settings in effect (see [`nav_model`] and
/// [`footer_model`]), the `<html>` tag marked as managed.
pub open spec fn blocks_model(template: Seq<char>, nav: JsonView, footer: JsonView) -> Seq<char> {
    let h0 = replace_first(template, "<html lang=\"en\">"@, "<html lang=\"en\" data-managed-seo=\"true\">"@);
    let h1 = with_block(h0, "LOGO"@, logo_block(nav));
    let h2 = with_block(h1, "NAV"@, nav_block(nav));
    let h3 = with_block(h2, "ACTIONS"@, actions_block(nav));
    with_block(h3, "FOOTER"@, footer_block(footer))
}

/// The non-empty string member `k` of an optional settings value.
pub open spec fn setting_text(o: Option<JsonView>, k: Seq<char>) -> Option<Seq<char>> {
    match o {
        Some(v) => match jstr(jget(v, k)) {
            Some(s) => if s.len() > 0 {
                Some(s)
            } else {
                None
            },
            None => None,
        },
        None => None,
    }
}

/// The page's title and closing title tags appear in order, so that the
/// text between them can be replaced.
pub open spec fn title_in_order(h: Seq<char>) -> bool {
    contains(h, "<title>"@) && contains(h, "</title>"@) ==> first_index(h, "<title>"@) + 7 <= first_index(
        h,
        "</title>"@,
    )
}

/// `h` with the text of its title replaced by the escaped `title`.
pub open spec fn titled(h: Seq<char>, title: Seq<char>) -> Seq<char> {
    if contains(h, "<title>"@) && contains(h, "</title>"@) {
        h.subrange(0, first_index(h, "<title>"@) + 7) + html_escape_model(title) + h.subrange(
            first_index(h, "</title>"@),
            h.len() as int,
        )
    } else {
        h
    }
}

/// The SEO title and meta tags and the site's scripts applied to the
/// page: each only when set and not empty; the analytics script goes
/// before `</head>`, the customer-service script before `</body>`.
pub open spec fn seo_model(h: Seq<char>, seo: Option<JsonView>, scripts: Option<JsonView>) -> Seq<char> {
    let h5 = match setting_text(seo, "meta_title"@) {
        Some(t) => titled(h, t),
        None => h,
    };
    let h6 = match setting_text(seo, "meta_description"@) {
        Some(d) => replace_between(h5, meta_prefix("description"@), "\""@, html_escape_model(d)),
        None => h5,
    };
    let h7 = match setting_text(seo, "meta_keywords"@) {
        Some(k) => replace_between(h6, meta_prefix("keywords"@), "\""@, html_escape_model(k)),
        None => h6,
    };
    let h8 = match setting_text(scripts, "analytics"@) {
        Some(a) => replace_first(h7, "</head>"@, head_fmt(a)),
        None => h7,
    };
    match setting_text(scripts, "customer_service"@) {
        Some(c) => replace_first(h8, "</body>"@, body_fmt(c)),
        None => h8,
    }
}

/// The homepage built from `template` and the portal settings.
pub open spec fn homepage_model(
    template: Seq<char>,
    nav_saved: Option<JsonView>,
    footer_saved: Option<JsonView>,
    scripts: Option<JsonView>,
    seo: Option<JsonView>,
) -> Seq<char> {
    seo_model(blocks_model(template, nav_model(nav_saved), footer_model(footer_saved)), seo, scripts)
}

/// The view of an optional settings value.
pub open spec fn opt_view(o: Option<JsonValue>) -> Option<JsonView> {
    match o {
        Some(v) => Some(v@),
        None => None,
    }
}

/// The homepage template with its managed blocks filled (see
/// [`blocks_model`]).
pub fn managed_homepage_blocks(template: &str, nav: &JsonValue, footer: &JsonValue) -> (r: String)
    ensures
        r@ == blocks_model(template@, nav@, footer@),
{
    let mut html = replacen_once(template, "<html lang=\"en\">", "<html lang=\"en\" data-managed-seo=\"true\">");
    let logo = logo_block_of(nav);
    replace_managed_block(&mut html, "LOGO", logo.as_str());
    let nav_html = nav_block_of(nav);
    replace_managed_block(&mut html, "NAV", nav_html.as_str());
    let actions = actions_block_of(nav);
    replace_managed_block(&mut html, "ACTIONS", actions.as_str());
    let footer_html = footer_block_of(footer);
    replace_managed_block(&mut html, "FOOTER", footer_html.as_str());
    html
}

/// Whether the page's title tags appear in order (see
/// [`title_in_order`]).
pub fn title_tags_in_order(html: &str) -> (r: bool)
    ensures
        r == title_in_order(html@),
{
    let v = chars_of(html);
    let open = chars_of("<title>");
    let close = chars_of("</title>");
    proof {
        reveal_strlit("<title>");
    }
    match (chars_find(v.as_slice(), open.as_slice()), chars_find(v.as_slice(), close.as_slice())) {
        (Some(s), Some(e)) => {
            assert(contains(v@, open@) && contains(v@, close@));
            s as u128 + 7 <= e as u128
        },
        _ => true,
    }
}

fn setting_text_of<'a>(o: &'a Option<JsonValue>, k: &str) -> (r: Option<&'a str>)
    ensures
        match r {
            Some(s) => setting_text(opt_view(*o), k@) == Some(s@),
            None => setting_text(opt_view(*o), k@) is None,
        },
{
    match o {
        Some(v) => match v.get(k) {
            Some(x) => match x.as_str() {
                Some(s) => if s.is_empty() {
                    None
                } else {
                    Some(s)
                },
                None => None,
            },
            None => None,
        },
        None => None,
    }
}

fn retitle(html: &str, title: &str) -> (r: String)
    requires
        title_in_order(html@),
    ensures
        r@ == titled(html@, title@),
{
    let v = chars_of(html);
    let open = chars_of("<title>");
    let close = chars_of("</title>");
    proof {
        reveal_strlit("<title>");
    }
    match (chars_find(v.as_slice(), open.as_slice()), chars_find(v.as_slice(), close.as_slice())) {
        (Some(s), Some(e)) => {
            assert(contains(v@, open@) && contains(v@, close@));
            assert(occurs_at(v@, close@, e as int));
            let head = slice_range(v.as_slice(), 0, s + 7);
            let tail = slice_range(v.as_slice(), e, v.len());
            let mut out = string_from_chars(head.as_slice());
            string_append(&mut out, html_escape(title).as_str());
            string_append(&mut out, string_from_chars(tail.as_slice()).as_str());
            out
        },
        _ => to_owned_string(html),
    }
}

/// The SEO settings and scripts applied to a page (see [`seo_model`]).  A
/// set title needs the title tags in order.
pub fn apply_seo_and_scripts(html: String, seo: &Option<JsonValue>, scripts: &Option<JsonValue>) -> (r: String)
    requires
        setting_text(opt_view(*seo), "meta_title"@) is Some ==> title_in_order(html@),
    ensures
        r@ == seo_model(html@, opt_view(*seo), opt_view(*scripts)),
{
    let mut html = html;
    if let Some(t) = setting_text_of(seo, "meta_title") {
        html = retitle(html.as_str(), t);
    }
    if let Some(d) = setting_text_of(seo, "meta_description") {
        replace_meta_content(&mut html, "description", d);
    }
    if let Some(k) = setting_text_of(seo, "meta_keywords") {
        replace_meta_content(&mut html, "keywords", k);
    }
    if let Some(a) = setting_text_of(scripts, "analytics") {
        let with_head = head_fmt_of(a);
        html = replacen_once(html.as_str(), "</head>", with_head.as_str());
    }
    if let Some(c) = setting_text_of(scripts, "customer_service") {
        let with_body = body_fmt_of(c);
        html = replacen_once(html.as_str(), "</body>", with_body.as_str());
    }
    html
}

/// The managed homepage (see [`homepage_model`]): `template` is the
/// homepage HTML, `nav_saved`, `footer_saved`, `scripts` and `seo` the
/// stored `nav_config`, `footer_config`, `custom_scripts` and `seo_config`
/// when present and parsed.  A set SEO title needs the title tags of the
/// filled page in order (see [`title_tags_in_order`]).
pub fn managed_homepage_html(
    template: &str,
    nav_saved: Option<JsonValue>,
    footer_saved: Option<JsonValue>,
    scripts: Option<JsonValue>,
    seo: Option<JsonValue>,
) -> (r: String)
    requires
        setting_text(opt_view(seo), "meta_title"@) is Some ==> title_in_order(
            blocks_model(template@, nav_model(opt_view(nav_saved)), footer_model(opt_view(footer_saved))),
        ),
    ensures
        r@ == homepage_model(template@, opt_view(nav_saved), opt_view(footer_saved), opt_view(scripts), opt_view(seo)),
{
    let ghost nv = opt_view(nav_saved);
    let ghost fv = opt_view(footer_saved);
    let nav = portal_nav_config(nav_saved);
    let footer = portal_footer_config(footer_saved);
    let html = managed_homepage_blocks(template, &nav, &footer);
    apply_seo_and_scripts(html, &seo, &scripts)
}

} // verus!
