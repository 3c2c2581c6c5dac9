//! Which forward rules depend on a site plugin, and when such a rule is
//! hidden.
use vstd::prelude::*;
use crate::json::{json_pointer_str, json_pointer_text};
use crate::errors::AppError;
use crate::text::{chars_eq, chars_of, digit_char, str_eq, string_push, to_owned_string, trim, trim_string};

verus! {

/// System rules gated by a plugin: `(rule name, plugin name)`.
pub open spec fn gated_rules() -> Seq<(Seq<char>, Seq<char>)> {
    seq![
        ("火山方舟 级联视频生成"@, "volcengine_enhance"@),
        ("火山方舟 视频素材转换"@, "asset_manager"@),
        ("火山方舟 视频素材转换(国际版)"@, "asset_manager_intl"@),
        ("火山方舟 视频素材免审核转换(国际版)"@, "asset_manager_intl"@),
    ]
}

/// The plugin gating the first listed rule named `name`, scanning from `k`.
pub open spec fn gated_from(name: Seq<char>, k: int) -> Option<Seq<char>>
    decreases 4 - k,
{
    if k >= 4 || k < 0 {
        None
    } else if gated_rules()[k].0 == name {
        Some(gated_rules()[k].1)
    } else {
        gated_from(name, k + 1)
    }
}

/// The plugin a rule depends on: its name in the gated list, else a rule
/// whose configuration sets `asset_convert_ns` to `asset_manager_intl`.
pub open spec fn required_plugin(name: Seq<char>, config_json: Seq<char>) -> Option<Seq<char>> {
    match gated_from(name, 0) {
        Some(p) => Some(p),
        None => if json_pointer_text(config_json, "/asset_convert_ns"@) == Some(
            "asset_manager_intl"@,
        ) {
            Some("asset_manager_intl"@)
        } else {
            None
        },
    }
}

/// The plugin a forward rule depends on; `None` when it depends on none.
pub fn required_plugin_for_forward_rule(name: &str, config_json: &str) -> (r: Option<&'static str>)
    ensures
        match r {
            Some(p) => required_plugin(name@, config_json@) == Some(p@),
            None => required_plugin(name@, config_json@) is None,
        },
{
    let mut rules: Vec<(&'static str, &'static str)> = Vec::new();
    rules.push(("火山方舟 级联视频生成", "volcengine_enhance"));
    rules.push(("火山方舟 视频素材转换", "asset_manager"));
    rules.push(("火山方舟 视频素材转换(国际版)", "asset_manager_intl"));
    rules.push(("火山方舟 视频素材免审核转换(国际版)", "asset_manager_intl"));
    let mut k: usize = 0;
    while k < rules.len()
        invariant
            rules@.len() == 4,
            forall|t: int| 0 <= t < 4 ==> (#[trigger] rules@[t]).0@ == gated_rules()[t].0 && rules@[t].1@ == gated_rules()[t].1,
            k <= 4,
            gated_from(name@, 0) == gated_from(name@, k as int),
        decreases 4 - k,
    {
        let (rule_name, plugin) = rules[k];
        if str_eq(name, rule_name) {
            return Some(plugin);
        }
        k = k + 1;
    }
    match json_pointer_str(config_json, "/asset_convert_ns") {
        Some(ns) => {
            if str_eq(ns.as_str(), "asset_manager_intl") {
                Some("asset_manager_intl")
            } else {
                None
            }
        },
        None => None,
    }
}

/// The availability recorded for `plugin`: the first entry with that name,
/// `false` when none.
pub open spec fn availability(avail: Seq<(Seq<char>, bool)>, plugin: Seq<char>) -> bool
    decreases avail.len(),
{
    if avail.len() == 0 {
        false
    } else if avail[0].0 == plugin {
        avail[0].1
    } else {
        availability(avail.drop_first(), plugin)
    }
}

/// The models of `(name, available)` pairs.
pub open spec fn avail_model(v: Seq<(&str, bool)>) -> Seq<(Seq<char>, bool)> {
    v.map_values(|e: (&str, bool)| (e.0@, e.1))
}

/// A gated rule is hidden unless its plugin is compiled in and enabled.
/// `plugin_available` lists `(plugin name, available)` pairs.
pub fn should_hide_plugin_gated_rule(
    name: &str,
    config_json: &str,
    plugin_available: &[(&str, bool)],
) -> (r: bool)
    ensures
        r == match required_plugin(name@, config_json@) {
            Some(p) => !availability(avail_model(plugin_available@), p),
            None => false,
        },
{
    match required_plugin_for_forward_rule(name, config_json) {
        Some(plugin) => {
            let ghost m = avail_model(plugin_available@);
            let pv = chars_of(plugin);
            let mut i: usize = 0;
            assert(m.subrange(0, m.len() as int) =~= m);
            while i < plugin_available.len()
                invariant
                    i <= plugin_available@.len(),
                    m == avail_model(plugin_available@),
                    pv@ == plugin@,
                    required_plugin(name@, config_json@) == Some(plugin@),
                    availability(m, plugin@) == availability(m.subrange(i as int, m.len() as int), plugin@),
                decreases plugin_available.len() - i,
            {
                let ghost rest = m.subrange(i as int, m.len() as int);
                assert(rest[0] == m[i as int]);
                assert(rest.drop_first() =~= m.subrange(i + 1, m.len() as int));
                let (n, ok) = plugin_available[i];
                assert(m[i as int] == (n@, ok));
                let nv = chars_of(n);
                if chars_eq(nv.as_slice(), pv.as_slice()) {
                    assert(rest.len() > 0);
                    assert(availability(rest, plugin@) == ok);
                    return !ok;
                }
                i = i + 1;
            }
            true
        },
        None => false,
    }
}


// ───────────────────────── creating and renaming rules ─────────────────────────

/// A new rule's fields as stored.
pub struct NewRule {
    pub name: String,
    pub rule_type: String,
    pub category: String,
    pub config_json: String,
    pub eid: String,
    pub sort_order: i32,
}

/// Four decimal digits of `n`, with leading zeros (`{:04}` for `n` below
/// 10000).
pub open spec fn pad4(n: nat) -> Seq<char> {
    seq![digit_char(n / 1000 % 10), digit_char(n / 100 % 10), digit_char(n / 10 % 10), digit_char(n % 10)]
}

/// The external id of a new rule: the given one unless it is missing or
/// empty, else `1` and four digits of the random draw.
pub open spec fn new_rule_eid(eid: Option<Seq<char>>, draw: nat) -> Seq<char> {
    match eid {
        Some(e) => if e.len() > 0 {
            e
        } else {
            "1"@ + pad4(draw)
        },
        None => "1"@ + pad4(draw),
    }
}

/// Appends one decimal digit.
fn push_digit(s: &mut String, d: u32)
    requires
        d < 10,
    ensures
        final(s)@ == old(s)@.push(digit_char(d as nat)),
{
    let b = d as u8;
    string_push(s, (b + 48) as char);
}

/// Validates and completes a rule to create: name and type are trimmed and
/// must not be empty; the category defaults to 聊天, the configuration to
/// `{}`, the sort order to 0 and the external id to [`new_rule_eid`] of
/// `eid_draw` (a random number below 10000).
pub fn prepare_new_rule(
    name: &str,
    rule_type: &str,
    category: Option<String>,
    config_json: Option<String>,
    eid: Option<String>,
    sort_order: Option<i32>,
    eid_draw: u32,
) -> (r: Result<NewRule, AppError>)
    requires
        eid_draw < 10000,
    ensures
        (trim(name@).len() == 0 || trim(rule_type@).len() == 0) ==> (r matches Err(AppError::BadRequest(m))
            && m@ == "规则名和类型不能为空"@),
        (trim(name@).len() > 0 && trim(rule_type@).len() > 0) ==> (r matches Ok(n) && n.name@ == trim(name@)
            && n.rule_type@ == trim(rule_type@) && n.category@ == (match category {
            Some(c) => c@,
            None => "聊天"@,
        }) && n.config_json@ == (match config_json {
            Some(c) => c@,
            None => "{}"@,
        }) && n.eid@ == new_rule_eid(
            match eid {
                Some(e) => Some(e@),
                None => None,
            },
            eid_draw as nat,
        ) && n.sort_order == (match sort_order {
            Some(o) => o,
            None => 0,
        })),
{
    let n = trim_string(name);
    let t = trim_string(rule_type);
    if n.as_str().is_empty() || t.as_str().is_empty() {
        return Err(AppError::BadRequest(to_owned_string("规则名和类型不能为空")));
    }
    let config = match config_json {
        Some(c) => c,
        None => to_owned_string("{}"),
    };
    let cat = match category {
        Some(c) => c,
        None => to_owned_string("聊天"),
    };
    let id = match eid {
        Some(e) if !e.as_str().is_empty() => e,
        _ => {
            let mut out = to_owned_string("1");
            push_digit(&mut out, eid_draw / 1000 % 10);
            push_digit(&mut out, eid_draw / 100 % 10);
            push_digit(&mut out, eid_draw / 10 % 10);
            push_digit(&mut out, eid_draw % 10);
            assert(out@ =~= "1"@ + pad4(eid_draw as nat));
            out
        },
    };
    let order = match sort_order {
        Some(o) => o,
        None => 0,
    };
    Ok(NewRule { name: n, rule_type: t, category: cat, config_json: config, eid: id, sort_order: order })
}

/// The new name of a rule being edited: trimmed, and not empty; `None`
/// when the name is not being changed.
pub fn rule_name_update(name: Option<&str>) -> (r: Result<Option<String>, AppError>)
    ensures
        match name {
            None => r matches Ok(None),
            Some(n) => if trim(n@).len() == 0 {
                r matches Err(AppError::BadRequest(m)) && m@ == "规则名称不能为空"@
            } else {
                r matches Ok(Some(t)) && t@ == trim(n@)
            },
        },
{
    match name {
        None => Ok(None),
        Some(n) => {
            let t = trim_string(n);
            if t.as_str().is_empty() {
                Err(AppError::BadRequest(to_owned_string("规则名称不能为空")))
            } else {
                Ok(Some(t))
            }
        },
    }
}

} // verus!
