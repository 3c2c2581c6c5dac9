//! The portal's navigation and footer settings: their defaults, the saved
//! settings completed from them, and old saved layouts and brand names
//! brought up to date.
use vstd::prelude::*;
use crate::errors::AppError;
use crate::json_tree::{
    jarray, jbool, jget, jobject, jlist, jstr, jstring, lemma_object_view, member_views, item_views,
    merge_defaults, replace_in_strings, replaced_strings, with_defaults, with_member, JsonValue, JsonView,
};
use crate::text::{str_eq, string_append, to_owned_string};

verus! {

/// A string member.
pub open spec fn text_member(k: Seq<char>, s: Seq<char>) -> (Seq<char>, JsonView) {
    (k, JsonView::Str(s))
}

fn text_m(k: &str, s: &str) -> (r: (String, JsonValue))
    ensures
        r.0@ == k@,
        r.1@ == JsonView::Str(s@),
{
    (to_owned_string(k), jstring(s))
}

fn bool_m(k: &str, b: bool) -> (r: (String, JsonValue))
    ensures
        r.0@ == k@,
        r.1@ == JsonView::Bool(b),
{
    (to_owned_string(k), JsonValue::Bool(b))
}

// ───────────────────────── navigation ─────────────────────────

/// One default navigation entry.
pub open spec fn nav_item(label: Seq<char>, path: Seq<char>, key: Seq<char>) -> JsonView {
    JsonView::Object(
        seq![
            text_member("label"@, label),
            text_member("path"@, path),
            ("enabled"@, JsonView::Bool(true)),
            text_member("key"@, key),
        ],
    )
}

/// The default navigation entries: the homepage sections and the model
/// marketplace.
pub open spec fn nav_default_items() -> JsonView {
    JsonView::Array(
        seq![
            nav_item("平台优势|Platform Advantages"@, "#features"@, "features"@),
            nav_item("核心功能|Core Features"@, "#carousel"@, "carousel"@),
            nav_item("模型矩阵|Model Matrix"@, "#models"@, "models"@),
            nav_item("接入指南|Integration Guide"@, "#integration"@, "integration"@),
            nav_item("模型广场|Model Marketplace"@, "/home/models"@, "marketplace"@),
        ],
    )
}

/// The default navigation settings.
pub open spec fn nav_defaults() -> JsonView {
    JsonView::Object(
        seq![
            text_member("logo_url"@, ""@),
            text_member("logo_text"@, "TokensByte"@),
            text_member("logo_link"@, "/home"@),
            ("items"@, nav_default_items()),
            text_member("cta_text"@, "登录|Login"@),
            text_member("cta_link"@, "/login"@),
            text_member("register_text"@, "立即注册|Get API Key"@),
            text_member("register_link"@, "/register"@),
        ],
    )
}

fn nav_item_of(label: &str, path: &str, key: &str) -> (r: JsonValue)
    ensures
        r@ == nav_item(label@, path@, key@),
{
    let mut m: Vec<(String, JsonValue)> = Vec::new();
    m.push(text_m("label", label));
    m.push(text_m("path", path));
    m.push(bool_m("enabled", true));
    m.push(text_m("key", key));
    let r = jobject(m);
    assert(member_views(m@) =~= seq![
        text_member("label"@, label@),
        text_member("path"@, path@),
        ("enabled"@, JsonView::Bool(true)),
        text_member("key"@, key@),
    ]);
    r
}

fn default_nav_items() -> (r: JsonValue)
    ensures
        r@ == nav_default_items(),
{
    let mut items: Vec<JsonValue> = Vec::new();
    items.push(nav_item_of("平台优势|Platform Advantages", "#features", "features"));
    items.push(nav_item_of("核心功能|Core Features", "#carousel", "carousel"));
    items.push(nav_item_of("模型矩阵|Model Matrix", "#models", "models"));
    items.push(nav_item_of("接入指南|Integration Guide", "#integration", "integration"));
    items.push(nav_item_of("模型广场|Model Marketplace", "/home/models", "marketplace"));
    let r = jlist(items);
    assert(item_views(items@) =~= nav_default_items()->Array_0);
    r
}

/// The default navigation settings (see [`nav_defaults`]).
pub fn default_portal_nav_config() -> (r: JsonValue)
    ensures
        r@ == nav_defaults(),
{
    let mut m: Vec<(String, JsonValue)> = Vec::new();
    m.push(text_m("logo_url", ""));
    m.push(text_m("logo_text", "TokensByte"));
    m.push(text_m("logo_link", "/home"));
    m.push((to_owned_string("items"), default_nav_items()));
    m.push(text_m("cta_text", "登录|Login"));
    m.push(text_m("cta_link", "/login"));
    m.push(text_m("register_text", "立即注册|Get API Key"));
    m.push(text_m("register_link", "/register"));
    let r = jobject(m);
    assert(member_views(m@) =~= nav_defaults()->Object_0);
    r
}

/// A key of the navigation layout used before the homepage sections.
pub open spec fn legacy_key(k: Seq<char>) -> bool {
    k == "home"@ || k == "models"@ || k == "contact"@ || k == "about"@
}

/// A navigation entry keyed with one of the old page keys.
pub open spec fn legacy_entry(item: JsonView) -> bool {
    match jstr(jget(item, "key"@)) {
        Some(k) => legacy_key(k),
        None => false,
    }
}

/// Navigation entries of the old layout: at least one, each keyed with
/// one of the old page keys.
pub open spec fn legacy_nav_items(items: Seq<JsonView>) -> bool {
    items.len() > 0 && forall|i: int| 0 <= i < items.len() ==> #[trigger] legacy_entry(items[i])
}

/// The navigation settings in effect: the saved ones (else the defaults);
/// an old layout gets the default entries and, with them, the brand name in
/// place of the old one; missing settings come from the defaults; the old
/// brand name is replaced throughout.
pub open spec fn nav_model(saved: Option<JsonView>) -> JsonView {
    let nav0 = match saved {
        Some(v) => v,
        None => nav_defaults(),
    };
    let legacy = match jarray(jget(nav0, "items"@)) {
        Some(items) => legacy_nav_items(items),
        None => false,
    };
    let nav1 = if legacy && nav0 is Object {
        let n = with_member(nav0, "items"@, nav_default_items());
        if jstr(jget(n, "logo_text"@)) == Some("WhatsToken AI"@) {
            with_member(n, "logo_text"@, JsonView::Str("TokensByte"@))
        } else {
            n
        }
    } else {
        nav0
    };
    replaced_strings(with_defaults(nav1, nav_defaults()), "WhatsToken AI"@, "TokensByte"@)
}

fn legacy_nav(nav: &JsonValue) -> (r: bool)
    ensures
        r == (match jarray(jget(nav@, "items"@)) {
            Some(items) => legacy_nav_items(items),
            None => false,
        }),
{
    let items_v = match nav.get("items") {
        Some(v) => v,
        None => return false,
    };
    let items = match items_v.as_array() {
        Some(a) => a,
        None => return false,
    };
    let ghost iv = item_views(items@);
    if items.len() == 0 {
        return false;
    }
    let mut i: usize = 0;
    while i < items.len()
        invariant
            i <= items@.len(),
            iv == item_views(items@),
            jarray(jget(nav@, "items"@)) == Some(iv),
            forall|k: int| 0 <= k < i ==> #[trigger] legacy_entry(iv[k]),
        decreases items.len() - i,
    {
        let ok = match items[i].get("key") {
            Some(kv) => match kv.as_str() {
                Some(t) => str_eq(t, "home") || str_eq(t, "models") || str_eq(t, "contact") || str_eq(t, "about"),
                None => false,
            },
            None => false,
        };
        if !ok {
            assert(!legacy_entry(iv[i as int]));
            return false;
        }
        i = i + 1;
    }
    true
}

/// Replaces the old brand name throughout a settings value.
pub fn rewrite_whatstoken_brand(value: &mut JsonValue)
    ensures
        final(value)@ == replaced_strings(old(value)@, "WhatsToken AI"@, "TokensByte"@),
{
    proof {
        reveal_strlit("WhatsToken AI");
    }
    let out = replace_in_strings(value, "WhatsToken AI", "TokensByte");
    *value = out;
}

/// Adds to a settings object the members of `defaults` it lacks.
pub fn merge_portal_defaults(value: &mut JsonValue, defaults: &JsonValue)
    ensures
        final(value)@ == with_defaults(old(value)@, defaults@),
{
    merge_defaults(value, defaults);
}

/// The navigation settings in effect (see [`nav_model`]); `saved` is the
/// stored `nav_config` when it is present and parses.
pub fn portal_nav_config(saved: Option<JsonValue>) -> (r: JsonValue)
    ensures
        r@ == nav_model(match saved {
            Some(v) => Some(v@),
            None => None,
        }),
{
    let defaults = default_portal_nav_config();
    let mut nav = match saved {
        Some(v) => v,
        None => defaults.duplicate(),
    };
    if legacy_nav(&nav) && nav.is_object() {
        nav.insert_member("items", default_nav_items());
        let old_brand = match nav.get("logo_text") {
            Some(t) => match t.as_str() {
                Some(s) => str_eq(s, "WhatsToken AI"),
                None => false,
            },
            None => false,
        };
        if old_brand {
            nav.insert_member("logo_text", jstring("TokensByte"));
        }
    }
    merge_portal_defaults(&mut nav, &defaults);
    rewrite_whatstoken_brand(&mut nav);
    nav
}

// ───────────────────────── footer ─────────────────────────

/// One default footer link.
pub open spec fn footer_link(label: Seq<char>, path: Seq<char>) -> JsonView {
    JsonView::Object(seq![text_member("label"@, label), text_member("path"@, path), ("enabled"@, JsonView::Bool(true))])
}

/// The default footer links: the homepage sections.
pub open spec fn footer_default_links() -> JsonView {
    JsonView::Array(
        seq![
            footer_link("技术优势|Technical Advantages"@, "#features"@),
            footer_link("支持模型|Supported Models"@, "#models"@),
            footer_link("核心功能|Core Features"@, "#carousel"@),
            footer_link("开发者指南|Developer Guide"@, "#integration"@),
        ],
    )
}

/// The default footer description.
pub open spec fn footer_description() -> Seq<char> {
    "TokensByte 是一个开源的 AI 大模型 API 中转平台系统，通过一个统一端点聚合全球前沿大模型通道，提供极速路由、高可用容灾与极低成本的模型中转与分发能力。|TokensByte is an open-source AI model API relay platform system. It aggregates global frontier LLMs through one unified endpoint, providing high-availability routing and low-cost model distribution."@
}

/// The default newsletter text.
pub open spec fn footer_news_description() -> Seq<char> {
    "订阅每周通讯，获取最新全球 AI 模型折扣、高可用路由升级和开发洞察。|Subscribe to our weekly newsletter for the latest global AI model discounts, high-availability route upgrades, and development insights."@
}

/// The default footer settings.
pub open spec fn footer_defaults() -> JsonView {
    JsonView::Object(
        seq![
            text_member("brand_name"@, "TokensByte"@),
            text_member("description"@, footer_description()),
            text_member("links_title"@, "产品与服务|Products & Services"@),
            ("links"@, footer_default_links()),
            text_member("news_title"@, "开发者资讯|Developer News"@),
            text_member("news_description"@, footer_news_description()),
            text_member("copyright"@, "© 2026 TokensByte. All rights reserved."@),
            text_member("company_name"@, "Sexy Velora LLC"@),
            text_member("company_address"@, "30 N Gould St Ste R, Sheridan, WY 82801"@),
            text_member("icp_number"@, ""@),
            ("terms_enabled"@, JsonView::Bool(true)),
            text_member("terms_text"@, "服务条款|Terms of Service"@),
            text_member("terms_link"@, "/legal/terms"@),
            ("privacy_enabled"@, JsonView::Bool(true)),
            text_member("privacy_text"@, "隐私政策|Privacy Policy"@),
            text_member("privacy_link"@, "/legal/privacy"@),
        ],
    )
}

fn footer_link_of(label: &str, path: &str) -> (r: JsonValue)
    ensures
        r@ == footer_link(label@, path@),
{
    let mut m: Vec<(String, JsonValue)> = Vec::new();
    m.push(text_m("label", label));
    m.push(text_m("path", path));
    m.push(bool_m("enabled", true));
    let r = jobject(m);
    assert(member_views(m@) =~= footer_link(label@, path@)->Object_0);
    r
}

/// The default footer settings (see [`footer_defaults`]).
pub fn default_portal_footer_config() -> (r: JsonValue)
    ensures
        r@ == footer_defaults(),
{
    let mut links: Vec<JsonValue> = Vec::new();
    links.push(footer_link_of("技术优势|Technical Advantages", "#features"));
    links.push(footer_link_of("支持模型|Supported Models", "#models"));
    links.push(footer_link_of("核心功能|Core Features", "#carousel"));
    links.push(footer_link_of("开发者指南|Developer Guide", "#integration"));
    let lv = jlist(links);
    assert(item_views(links@) =~= footer_default_links()->Array_0);
    let mut m: Vec<(String, JsonValue)> = Vec::new();
    m.push(text_m("brand_name", "TokensByte"));
    m.push(
        text_m(
            "description",
            "TokensByte 是一个开源的 AI 大模型 API 中转平台系统，通过一个统一端点聚合全球前沿大模型通道，提供极速路由、高可用容灾与极低成本的模型中转与分发能力。|TokensByte is an open-source AI model API relay platform system. It aggregates global frontier LLMs through one unified endpoint, providing high-availability routing and low-cost model distribution.",
        ),
    );
    m.push(text_m("links_title", "产品与服务|Products & Services"));
    m.push((to_owned_string("links"), lv));
    m.push(text_m("news_title", "开发者资讯|Developer News"));
    m.push(
        text_m(
            "news_description",
            "订阅每周通讯，获取最新全球 AI 模型折扣、高可用路由升级和开发洞察。|Subscribe to our weekly newsletter for the latest global AI model discounts, high-availability route upgrades, and development insights.",
        ),
    );
    m.push(text_m("copyright", "© 2026 TokensByte. All rights reserved."));
    m.push(text_m("company_name", "Sexy Velora LLC"));
    m.push(text_m("company_address", "30 N Gould St Ste R, Sheridan, WY 82801"));
    m.push(text_m("icp_number", ""));
    m.push(bool_m("terms_enabled", true));
    m.push(text_m("terms_text", "服务条款|Terms of Service"));
    m.push(text_m("terms_link", "/legal/terms"));
    m.push(bool_m("privacy_enabled", true));
    m.push(text_m("privacy_text", "隐私政策|Privacy Policy"));
    m.push(text_m("privacy_link", "/legal/privacy"));
    let r = jobject(m);
    assert(member_views(m@) =~= footer_defaults()->Object_0);
    r
}

/// A saved footer value carried over from an old layout: any value but an
/// empty string.
pub open spec fn carried(o: Option<JsonView>) -> bool {
    match o {
        Some(JsonView::Str(t)) => t.len() > 0,
        Some(_) => true,
        None => false,
    }
}

/// `f` with member `key` taken from `legacy` when it is carried over.
pub open spec fn carry(f: JsonView, legacy: JsonView, key: Seq<char>) -> JsonView {
    if carried(jget(legacy, key)) {
        with_member(f, key, jget(legacy, key)->0)
    } else {
        f
    }
}

/// The footer settings in effect: the saved ones (else the defaults); a
/// footer of the old layout (no `brand_name`) becomes the defaults with its
/// copyright, description and ICP number kept; missing settings come from
/// the defaults; the old brand name is replaced throughout.
pub open spec fn footer_model(saved: Option<JsonView>) -> JsonView {
    let f0 = match saved {
        Some(v) => v,
        None => footer_defaults(),
    };
    let f1 = if jget(f0, "brand_name"@) is None {
        carry(carry(carry(footer_defaults(), f0, "copyright"@), f0, "description"@), f0, "icp_number"@)
    } else {
        f0
    };
    replaced_strings(with_defaults(f1, footer_defaults()), "WhatsToken AI"@, "TokensByte"@)
}

fn carry_member(footer: &mut JsonValue, legacy: &JsonValue, key: &str)
    ensures
        final(footer)@ == carry(old(footer)@, legacy@, key@),
{
    match legacy.get(key) {
        Some(v) => {
            let keep = match v.as_str() {
                Some(t) => !t.is_empty(),
                None => true,
            };
            if keep {
                footer.insert_member(key, v.duplicate());
            }
        },
        None => {},
    }
}

/// The footer settings in effect (see [`footer_model`]); `saved` is the
/// stored `footer_config` when it is present and parses.
pub fn portal_footer_config(saved: Option<JsonValue>) -> (r: JsonValue)
    ensures
        r@ == footer_model(match saved {
            Some(v) => Some(v@),
            None => None,
        }),
{
    let defaults = default_portal_footer_config();
    let mut footer = match saved {
        Some(v) => v,
        None => defaults.duplicate(),
    };
    if footer.get("brand_name").is_none() {
        let legacy = footer;
        footer = defaults.duplicate();
        carry_member(&mut footer, &legacy, "copyright");
        carry_member(&mut footer, &legacy, "description");
        carry_member(&mut footer, &legacy, "icp_number");
    }
    merge_portal_defaults(&mut footer, &defaults);
    rewrite_whatstoken_brand(&mut footer);
    footer
}


// ───────────────────────── saving a section ─────────────────────────

/// The setting a portal section is saved under; `None` for an unknown
/// section.
pub open spec fn section_key(section: Seq<char>) -> Option<Seq<char>> {
    if section == "nav"@ {
        Some("nav_config"@)
    } else if section == "footer"@ {
        Some("footer_config"@)
    } else if section == "scripts"@ {
        Some("custom_scripts"@)
    } else if section == "seo"@ {
        Some("seo_config"@)
    } else if section == "style"@ {
        Some("style_config"@)
    } else if section == "static_gen"@ {
        Some("static_gen_config"@)
    } else if section == "custom_homepage"@ {
        Some("custom_homepage"@)
    } else if section == "columns"@ || section == "about"@ || section == "contact"@ {
        Some("columns_config"@)
    } else {
        None
    }
}

/// The style settings before any were saved.
pub open spec fn style_defaults() -> JsonView {
    JsonView::Object(seq![text_member("current_style"@, "classic"@), ("apply_to_homepage"@, JsonView::Bool(true))])
}

/// A default column.
pub open spec fn column_entry(title: Seq<char>, path: Seq<char>) -> JsonView {
    JsonView::Object(seq![text_member("title"@, title), text_member("path"@, path), ("enabled"@, JsonView::Bool(true))])
}

/// The column settings before any were saved.
pub open spec fn columns_defaults() -> JsonView {
    JsonView::Object(
        seq![
            ("models"@, column_entry("模型数据"@, "models"@)),
            ("contact"@, column_entry("联系我们"@, "contact"@)),
            ("about"@, column_entry("关于我们"@, "about"@)),
        ],
    )
}

/// `base` with the members `patch[..n]` set in turn.
pub open spec fn members_set(base: JsonView, patch: Seq<(Seq<char>, JsonView)>, n: int) -> JsonView
    decreases n,
{
    if n <= 0 {
        base
    } else {
        with_member(members_set(base, patch, n - 1), patch[n - 1].0, patch[n - 1].1)
    }
}

/// `base` with the members of `patch` set, when both are objects; `base`
/// otherwise.
pub open spec fn shallow_merged(base: JsonView, patch: JsonView) -> JsonView {
    match patch {
        JsonView::Object(p) => if base is Object {
            members_set(base, p, p.len() as int)
        } else {
            base
        },
        _ => base,
    }
}

/// `v[key] = x` on an object, or on null (which becomes an object).
pub open spec fn index_set(v: JsonView, key: Seq<char>, x: JsonView) -> JsonView {
    match v {
        JsonView::Null => JsonView::Object(seq![(key, x)]),
        _ => with_member(v, key, x),
    }
}

/// The value a section is saved as: the style merged into the saved style
/// settings (or their defaults); the about and contact pages set into the
/// saved column settings (or their defaults); any other section as sent.
pub open spec fn section_value(
    section: Seq<char>,
    data: JsonView,
    style: Option<JsonView>,
    columns: Option<JsonView>,
) -> JsonView {
    if section == "style"@ {
        shallow_merged(
            match style {
                Some(s) => s,
                None => style_defaults(),
            },
            data,
        )
    } else if section == "about"@ || section == "contact"@ {
        index_set(
            match columns {
                Some(c) => c,
                None => columns_defaults(),
            },
            section,
            data,
        )
    } else {
        data
    }
}

/// The view of an optional saved value.
pub open spec fn saved_view(o: Option<JsonValue>) -> Option<JsonView> {
    match o {
        Some(v) => Some(v@),
        None => None,
    }
}

fn style_defaults_value() -> (r: JsonValue)
    ensures
        r@ == style_defaults(),
{
    let mut m: Vec<(String, JsonValue)> = Vec::new();
    let a = text_m("current_style", "classic");
    let b = bool_m("apply_to_homepage", true);
    let ghost (av, bv) = ((a.0@, a.1@), (b.0@, b.1@));
    m.push(a);
    m.push(b);
    let r = jobject(m);
    assert(member_views(m@) =~= seq![av, bv]);
    r
}

fn column_entry_value(title: &str, path: &str) -> (r: JsonValue)
    ensures
        r@ == column_entry(title@, path@),
{
    let mut m: Vec<(String, JsonValue)> = Vec::new();
    let a = text_m("title", title);
    let b = text_m("path", path);
    let c = bool_m("enabled", true);
    let ghost (av, bv, cv) = ((a.0@, a.1@), (b.0@, b.1@), (c.0@, c.1@));
    m.push(a);
    m.push(b);
    m.push(c);
    let r = jobject(m);
    assert(member_views(m@) =~= seq![av, bv, cv]);
    r
}

fn columns_defaults_value() -> (r: JsonValue)
    ensures
        r@ == columns_defaults(),
{
    let a = column_entry_value("模型数据", "models");
    let b = column_entry_value("联系我们", "contact");
    let c = column_entry_value("关于我们", "about");
    let ghost (av, bv, cv) = (a@, b@, c@);
    let mut m: Vec<(String, JsonValue)> = Vec::new();
    m.push((to_owned_string("models"), a));
    m.push((to_owned_string("contact"), b));
    m.push((to_owned_string("about"), c));
    let r = jobject(m);
    assert(member_views(m@) =~= seq![("models"@, av), ("contact"@, bv), ("about"@, cv)]);
    r
}

/// The setting key and value a saved portal section is stored as (see
/// [`section_key`], [`section_value`]); `saved_style` and `saved_columns`
/// are the stored style and column settings, parsed (`None` when missing or
/// unparsable).  An unknown section is refused.  Saving the about or contact
/// page asks that the stored column settings be an object or null.
pub fn portal_section_update(
    section: &str,
    data: JsonValue,
    saved_style: Option<JsonValue>,
    saved_columns: Option<JsonValue>,
) -> (r: Result<(String, JsonValue), AppError>)
    requires
        (section@ == "about"@ || section@ == "contact"@) ==> match saved_columns {
            Some(c) => c@ is Null || c@ is Object,
            None => true,
        },
    ensures
        match section_key(section@) {
            Some(k) => r matches Ok((key, v)) && key@ == k && v@ == section_value(
                section@,
                data@,
                saved_view(saved_style),
                saved_view(saved_columns),
            ),
            None => r matches Err(AppError::BadRequest(m)) && m@ == "未知配置区域: "@ + section@,
        },
{
    let key = if str_eq(section, "nav") {
        "nav_config"
    } else if str_eq(section, "footer") {
        "footer_config"
    } else if str_eq(section, "scripts") {
        "custom_scripts"
    } else if str_eq(section, "seo") {
        "seo_config"
    } else if str_eq(section, "style") {
        "style_config"
    } else if str_eq(section, "static_gen") {
        "static_gen_config"
    } else if str_eq(section, "custom_homepage") {
        "custom_homepage"
    } else if str_eq(section, "columns") || str_eq(section, "about") || str_eq(section, "contact") {
        "columns_config"
    } else {
        let mut m = to_owned_string("未知配置区域: ");
        string_append(&mut m, section);
        return Err(AppError::BadRequest(m));
    };
    if str_eq(section, "style") {
        let mut base = match saved_style {
            Some(s) => s,
            None => style_defaults_value(),
        };
        let ghost b0 = base@;
        if base.is_object() {
            if let JsonValue::Object(p) = &data {
                proof {
                    lemma_object_view(*p);
                }
                let ghost pv = member_views(p@);
                let mut i: usize = 0;
                while i < p.len()
                    invariant
                        i <= p@.len(),
                        pv == member_views(p@),
                        base@ == members_set(b0, pv, i as int),
                    decreases p.len() - i,
                {
                    base.insert_member(p[i].0.as_str(), p[i].1.duplicate());
                    i = i + 1;
                }
            }
        }
        return Ok((to_owned_string(key), base));
    }
    if str_eq(section, "about") || str_eq(section, "contact") {
        let cols = match saved_columns {
            Some(c) => c,
            None => columns_defaults_value(),
        };
        let ghost dv = data@;
        let out = match cols {
            JsonValue::Null => {
                let mut m: Vec<(String, JsonValue)> = Vec::new();
                m.push((to_owned_string(section), data));
                let r = jobject(m);
                assert(member_views(m@) =~= seq![(section@, dv)]);
                r
            },
            other => {
                let mut o = other;
                o.insert_member(section, data);
                o
            },
        };
        return Ok((to_owned_string(key), out));
    }
    Ok((to_owned_string(key), data))
}


/// The navigation settings shown: where no logo image is set (missing, not
/// text or empty), the site's logo when it has one.
pub open spec fn nav_with_logo_model(nav: JsonView, site_logo: Seq<char>) -> JsonView {
    let logo_empty = match jstr(jget(nav, "logo_url"@)) {
        Some(u) => u.len() == 0,
        None => true,
    };
    if nav is Object && logo_empty && site_logo.len() > 0 {
        with_member(nav, "logo_url"@, JsonView::Str(site_logo))
    } else {
        nav
    }
}

/// Fills in the site's logo where the navigation settings set none (see
/// [`nav_with_logo_model`]).
pub fn nav_with_site_logo(nav: JsonValue, site_logo: &str) -> (r: JsonValue)
    ensures
        r@ == nav_with_logo_model(nav@, site_logo@),
{
    let mut out = nav;
    if !out.is_object() {
        return out;
    }
    let logo_empty = match out.get("logo_url") {
        Some(v) => match v.as_str() {
            Some(u) => u.is_empty(),
            None => true,
        },
        None => true,
    };
    if logo_empty && !site_logo.is_empty() {
        out.insert_member("logo_url", jstring(site_logo));
    }
    out
}

} // verus!
