//! Site portal page assembly: HTML escaping, bilingual labels, managed
//! blocks and meta tags in homepage HTML, and the portal settings read from
//! the stored configuration (key → JSON text).
use vstd::prelude::*;
use crate::json::{json_pointer_bool, json_pointer_boolean, json_pointer_str, json_pointer_text};
use crate::text::{
    chars_find, chars_of, contains, first_index, occurs_at, split_once_model, str_map_get,
    str_pairs_find, string_append, string_from_chars, string_push, to_owned_string, trim, trim_str,
};

verus! {

/// The HTML escape of one character.
pub open spec fn esc(c: char) -> Seq<char> {
    if c == '&' {
        "&amp;"@
    } else if c == '<' {
        "&lt;"@
    } else if c == '>' {
        "&gt;"@
    } else if c == '"' {
        "&quot;"@
    } else if c == '\'' {
        "&#39;"@
    } else {
        seq![c]
    }
}

/// `s` with `& < > " '` escaped for HTML text and attributes.
pub open spec fn html_escape_model(s: Seq<char>) -> Seq<char>
    decreases s.len(),
{
    if s.len() == 0 {
        Seq::empty()
    } else {
        html_escape_model(s.drop_last()) + esc(s.last())
    }
}

/// Escapes `& < > " '` for HTML.
pub fn html_escape(value: &str) -> (r: String)
    ensures
        r@ == html_escape_model(value@),
{
    let v = chars_of(value);
    let mut out = String::new();
    let mut i: usize = 0;
    while i < v.len()
        invariant
            i <= v@.len(),
            out@ == html_escape_model(v@.subrange(0, i as int)),
        decreases v.len() - i,
    {
        let c = v[i];
        assert(v@.subrange(0, i + 1).drop_last() =~= v@.subrange(0, i as int));
        assert(v@.subrange(0, i + 1).last() == c);
        if c == '&' {
            string_append(&mut out, "&amp;");
        } else if c == '<' {
            string_append(&mut out, "&lt;");
        } else if c == '>' {
            string_append(&mut out, "&gt;");
        } else if c == '"' {
            string_append(&mut out, "&quot;");
        } else if c == '\'' {
            string_append(&mut out, "&#39;");
        } else {
            string_push(&mut out, c);
            assert(seq![c] =~= Seq::<char>::empty().push(c));
        }
        i = i + 1;
    }
    assert(v@.subrange(0, v@.len() as int) =~= v@);
    out
}

/// The (Chinese, English) halves of a `zh|en` label, each trimmed; a label
/// without `|` serves both languages.
pub open spec fn bilingual_model(value: Seq<char>) -> (Seq<char>, Seq<char>) {
    match split_once_model(value, '|') {
        Some((zh, en)) => (trim(zh), trim(en)),
        None => (trim(value), trim(value)),
    }
}

/// Splits a `zh|en` label into its trimmed halves.
pub fn bilingual_text(value: &str) -> (r: (&str, &str))
    ensures
        (r.0@, r.1@) == bilingual_model(value@),
{
    let v = chars_of(value);
    let bar: Vec<char> = vec!['|'];
    assert(bar@ =~= seq!['|']);
    match chars_find(v.as_slice(), bar.as_slice()) {
        Some(i) => {
            let n = v.len();
            assert(occurs_at(v@, bar@, i as int));
            assert(i + 1 <= n);
            proof {
                assert(contains(value@, seq!['|']));
            }
            let zh = value.substring_char(0, i);
            let en = value.substring_char(i + 1, n);
            (trim_str(zh), trim_str(en))
        },
        None => {
            let t = trim_str(value);
            (t, t)
        },
    }
}

/// A label as a span carrying both languages and showing the English one.
pub open spec fn bilingual_span_model(value: Seq<char>) -> Seq<char> {
    let (zh, en) = bilingual_model(value);
    "<span data-portal-zh=\""@ + html_escape_model(zh) + "\" data-portal-en=\""@
        + html_escape_model(en) + "\">"@ + html_escape_model(en) + "</span>"@
}

/// Renders a `zh|en` label as a bilingual span.
pub fn bilingual_span(value: &str) -> (r: String)
    ensures
        r@ == bilingual_span_model(value@),
{
    let (zh, en) = bilingual_text(value);
    let mut s = to_owned_string("<span data-portal-zh=\"");
    let z = html_escape(zh);
    string_append(&mut s, z.as_str());
    string_append(&mut s, "\" data-portal-en=\"");
    let e = html_escape(en);
    string_append(&mut s, e.as_str());
    string_append(&mut s, "\">");
    string_append(&mut s, e.as_str());
    string_append(&mut s, "</span>");
    s
}

/// `html` with the text between the first `start` marker and the first
/// `end` marker after it replaced by `rep`; unchanged when either marker is
/// missing.
pub open spec fn replace_between(html: Seq<char>, start: Seq<char>, end: Seq<char>, rep: Seq<char>) -> Seq<char> {
    if !contains(html, start) {
        html
    } else {
        let cs = first_index(html, start) + start.len();
        let rest = html.subrange(cs, html.len() as int);
        if !contains(rest, end) {
            html
        } else {
            html.subrange(0, cs) + rep + html.subrange(cs + first_index(rest, end), html.len() as int)
        }
    }
}

/// Replaces the part of `html` strictly between the two markers.
fn replace_between_exec(html: &mut String, start: &str, end: &str, rep: &str)
    ensures
        final(html)@ == replace_between(old(html)@, start@, end@, rep@),
{
    let v = chars_of(html.as_str());
    let sm = chars_of(start);
    let em = chars_of(end);
    let i = match chars_find(v.as_slice(), sm.as_slice()) {
        Some(i) => i,
        None => return,
    };
    assert(occurs_at(v@, sm@, i as int));
    let n = v.len();
    assert(i + sm@.len() <= n);
    let cs = i + sm.len();
    let rest = crate::text::slice_range(v.as_slice(), cs, v.len());
    let j = match chars_find(rest.as_slice(), em.as_slice()) {
        Some(j) => j,
        None => return,
    };
    proof {
        assert(contains(v@, sm@));
        assert(contains(rest@, em@));
    }
    let head = crate::text::slice_range(v.as_slice(), 0, cs);
    let tail = crate::text::slice_range(v.as_slice(), cs + j, v.len());
    let mut out = string_from_chars(head.as_slice());
    string_append(&mut out, rep);
    let t = string_from_chars(tail.as_slice());
    string_append(&mut out, t.as_str());
    *html = out;
}

/// The marker that opens a managed block.
pub open spec fn block_start(name: Seq<char>) -> Seq<char> {
    "<!-- PORTAL_"@ + name + "_START -->"@
}

/// The marker that closes a managed block.
pub open spec fn block_end(name: Seq<char>) -> Seq<char> {
    "<!-- PORTAL_"@ + name + "_END -->"@
}

/// Replaces the content of the managed block `name` in `html` by
/// `replacement` on a line of its own.
pub fn replace_managed_block(html: &mut String, name: &str, replacement: &str)
    ensures
        final(html)@ == replace_between(
            old(html)@,
            block_start(name@),
            block_end(name@),
            "\n"@ + replacement@ + "\n  "@,
        ),
{
    let mut sm = to_owned_string("<!-- PORTAL_");
    string_append(&mut sm, name);
    string_append(&mut sm, "_START -->");
    let mut em = to_owned_string("<!-- PORTAL_");
    string_append(&mut em, name);
    string_append(&mut em, "_END -->");
    let mut rep = to_owned_string("\n");
    string_append(&mut rep, replacement);
    string_append(&mut rep, "\n  ");
    replace_between_exec(html, sm.as_str(), em.as_str(), rep.as_str());
}

/// The text that precedes a meta tag's content.
pub open spec fn meta_prefix(name: Seq<char>) -> Seq<char> {
    "<meta name=\""@ + name + "\" content="@
}

/// Puts the escaped `value` into the meta tag `name`: the text from the end
/// of `<meta name="NAME" content=` up to the next `"` is replaced.
pub fn replace_meta_content(html: &mut String, name: &str, value: &str)
    ensures
        final(html)@ == replace_between(old(html)@, meta_prefix(name@), "\""@, html_escape_model(value@)),
{
    let mut prefix = to_owned_string("<meta name=\"");
    string_append(&mut prefix, name);
    string_append(&mut prefix, "\" content=");
    let escaped = html_escape(value);
    replace_between_exec(html, prefix.as_str(), "\"", escaped.as_str());
}

/// The stored custom homepage when it is switched on and its HTML is not
/// blank.
pub open spec fn custom_homepage_model(configs: Seq<(Seq<char>, Seq<char>)>) -> Option<Seq<char>> {
    match str_map_get(configs, "custom_homepage"@) {
        Some(cfg) => {
            let enabled = match json_pointer_boolean(cfg, "/enabled"@) {
                Some(b) => b,
                None => false,
            };
            let html = match json_pointer_text(cfg, "/html"@) {
                Some(h) => trim(h),
                None => Seq::empty(),
            };
            if enabled && html.len() > 0 {
                Some(html)
            } else {
                None
            }
        },
        None => None,
    }
}

/// The custom homepage HTML, when enabled and not blank.
pub fn active_custom_homepage(configs: &[(String, String)]) -> (r: Option<String>)
    ensures
        r.deep_view() == custom_homepage_model(configs.deep_view()),
{
    let key = chars_of("custom_homepage");
    let i = match str_pairs_find(configs, key.as_slice()) {
        Some(i) => i,
        None => return None,
    };
    let cfg = configs[i].1.as_str();
    let enabled = match json_pointer_bool(cfg, "/enabled") {
        Some(b) => b,
        None => false,
    };
    let html = match json_pointer_str(cfg, "/html") {
        Some(h) => crate::text::trim_string(h.as_str()),
        None => String::new(),
    };
    if enabled && !html.as_str().is_empty() {
        Some(html)
    } else {
        None
    }
}

/// Whether the chosen style takes over the homepage: `apply_to_homepage` of
/// the style configuration, `true` when unset.
pub open spec fn style_applies_model(configs: Seq<(Seq<char>, Seq<char>)>) -> bool {
    match str_map_get(configs, "style_config"@) {
        Some(cfg) => match json_pointer_boolean(cfg, "/apply_to_homepage"@) {
            Some(b) => b,
            None => true,
        },
        None => true,
    }
}

/// Whether the portal style applies to the homepage.
pub fn style_applies_to_homepage(configs: &[(String, String)]) -> (r: bool)
    ensures
        r == style_applies_model(configs.deep_view()),
{
    let key = chars_of("style_config");
    match str_pairs_find(configs, key.as_slice()) {
        Some(i) => match json_pointer_bool(configs[i].1.as_str(), "/apply_to_homepage") {
            Some(b) => b,
            None => true,
        },
        None => true,
    }
}

/// The string at `pointer` of the column configuration, or `default`.
pub open spec fn column_path_model(
    configs: Seq<(Seq<char>, Seq<char>)>,
    pointer: Seq<char>,
    default: Seq<char>,
) -> Seq<char> {
    match str_map_get(configs, "columns_config"@) {
        Some(cfg) => match json_pointer_text(cfg, pointer) {
            Some(p) => p,
            None => default,
        },
        None => default,
    }
}

fn column_path(configs: &[(String, String)], pointer: &str, default: &str) -> (r: String)
    ensures
        r@ == column_path_model(configs.deep_view(), pointer@, default@),
{
    let key = chars_of("columns_config");
    match str_pairs_find(configs, key.as_slice()) {
        Some(i) => match json_pointer_str(configs[i].1.as_str(), pointer) {
            Some(p) => p,
            None => to_owned_string(default),
        },
        None => to_owned_string(default),
    }
}

/// The URL paths of the models, contact and about columns.
pub fn column_paths(configs: &[(String, String)]) -> (r: (String, String, String))
    ensures
        r.0@ == column_path_model(configs.deep_view(), "/models/path"@, "models"@),
        r.1@ == column_path_model(configs.deep_view(), "/contact/path"@, "contact"@),
        r.2@ == column_path_model(configs.deep_view(), "/about/path"@, "about"@),
{
    (
        column_path(configs, "/models/path", "models"),
        column_path(configs, "/contact/path", "contact"),
        column_path(configs, "/about/path", "about"),
    )
}

/// A child template from its first `{% extends` on (a leading comment is
/// dropped); the whole text when it has none.
pub fn tera_child_source(raw: &'static str) -> (r: &'static str)
    ensures
        r@ == (if contains(raw@, "{% extends"@) {
            raw@.subrange(first_index(raw@, "{% extends"@), raw@.len() as int)
        } else {
            raw@
        }),
{
    let v = chars_of(raw);
    let p = chars_of("{% extends");
    match chars_find(v.as_slice(), p.as_slice()) {
        Some(i) => {
            assert(occurs_at(v@, p@, i as int));
            proof {
                assert(contains(raw@, "{% extends"@));
            }
            raw.substring_char(i, v.len())
        },
        None => raw,
    }
}

} // verus!
