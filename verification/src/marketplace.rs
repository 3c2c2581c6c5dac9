//! The model marketplace shown on the portal: which active models are
//! shown, in which order, and how the variants of one model are grouped.
use vstd::prelude::*;
use crate::json_tree::{item_views, jbool, jget, jstr, with_member, JsonValue, JsonView};
use crate::text::{
    chars_of, dec_string, int_string, parse_i64_chars, parse_signed, push_i64, push_u64, str_eq, to_owned_string,
};

verus! {

// ───────────────────────── which models are shown ─────────────────────────

/// A model's marketplace settings before any were saved.
pub open spec fn default_model_conf() -> JsonView {
    JsonView::Object(seq![("sort_order"@, JsonView::Number("0"@)), ("description"@, JsonView::Str(""@))])
}

/// A model's saved settings, or the defaults.
pub open spec fn conf_or_default(c: Option<JsonView>) -> JsonView {
    match c {
        Some(v) => v,
        None => default_model_conf(),
    }
}

/// An integer value (`Value::as_i64`): a number written as an integer that
/// fits `i64`.
pub open spec fn json_i64(v: Option<JsonView>) -> Option<i64> {
    match v {
        Some(JsonView::Number(t)) => match parse_signed(t, i64::MIN as int, i64::MAX as int) {
            Some(n) => Some(n as i64),
            None => None,
        },
        _ => None,
    }
}

/// Whether a model is shown: its `enabled` setting, else whether the
/// marketplace lists models by blacklist.
pub open spec fn model_shown(c: JsonView, blacklist: bool) -> bool {
    match jbool(jget(c, "enabled"@)) {
        Some(b) => b,
        None => blacklist,
    }
}

/// A model's sort order: its `sort_order` setting, else 0.
pub open spec fn model_order(c: JsonView) -> i64 {
    match json_i64(jget(c, "sort_order"@)) {
        Some(n) => n,
        None => 0,
    }
}

/// A model's own description setting, empty when there is none.
pub open spec fn model_note(c: JsonView) -> Seq<char> {
    match jstr(jget(c, "description"@)) {
        Some(d) => d,
        None => ""@,
    }
}

/// A model as listed: its sort order set, and its description replaced by
/// its own description setting when that is not empty.
pub open spec fn listed_model(m: JsonView, c: JsonView) -> JsonView {
    let m1 = with_member(m, "sort_order"@, JsonView::Number(int_string(model_order(c) as int)));
    if model_note(c).len() > 0 {
        with_member(m1, "description"@, JsonView::Str(model_note(c)))
    } else {
        m1
    }
}

/// The shown models among the first `n`, each with its sort order, in
/// their original order.
pub open spec fn shown_models(models: Seq<JsonView>, confs: Seq<Option<JsonView>>, blacklist: bool, n: int) -> Seq<
    (i64, JsonView),
>
    decreases n,
{
    if n <= 0 {
        Seq::empty()
    } else {
        let rest = shown_models(models, confs, blacklist, n - 1);
        let c = conf_or_default(confs[n - 1]);
        if model_shown(c, blacklist) {
            rest.push((model_order(c), listed_model(models[n - 1], c)))
        } else {
            rest
        }
    }
}

// ───────────────────────── ordering ─────────────────────────

/// Whether the sort orders of `s` never increase.
pub open spec fn sorted_desc(s: Seq<(i64, JsonView)>) -> bool {
    forall|i: int, j: int| 0 <= i < j < s.len() ==> s[i].0 >= s[j].0
}

/// The entries with sort order `k`.
pub open spec fn with_order(k: i64) -> spec_fn((i64, JsonView)) -> bool {
    |x: (i64, JsonView)| x.0 == k
}

/// Where an entry with sort order `k` goes in `s`: before the first entry
/// (from `i` on) with a lower order.
pub open spec fn insert_pos(s: Seq<(i64, JsonView)>, k: i64, i: int) -> int
    decreases s.len() - i,
{
    if i < 0 || i >= s.len() || s[i].0 < k {
        i
    } else {
        insert_pos(s, k, i + 1)
    }
}

/// `s` ordered by sort order, highest first, entries of equal order kept in
/// their original order (each entry placed after every earlier one whose
/// order is not lower).
pub open spec fn sort_desc(s: Seq<(i64, JsonView)>) -> Seq<(i64, JsonView)>
    decreases s.len(),
{
    if s.len() == 0 {
        s
    } else {
        let t = sort_desc(s.drop_last());
        t.insert(insert_pos(t, s.last().0, 0), s.last())
    }
}

proof fn lemma_insert_pos(s: Seq<(i64, JsonView)>, k: i64, i: int)
    requires
        0 <= i <= s.len(),
    ensures
        i <= insert_pos(s, k, i) <= s.len(),
        forall|j: int| i <= j < insert_pos(s, k, i) ==> s[j].0 >= k,
        insert_pos(s, k, i) < s.len() ==> s[insert_pos(s, k, i)].0 < k,
    decreases s.len() - i,
{
    if i < s.len() && s[i].0 >= k {
        lemma_insert_pos(s, k, i + 1);
    }
}

/// No entry of `s` has order `k`: none is kept.
proof fn lemma_filter_none(s: Seq<(i64, JsonView)>, k: i64)
    requires
        forall|i: int| 0 <= i < s.len() ==> s[i].0 != k,
    ensures
        s.filter(with_order(k)) =~= Seq::<(i64, JsonView)>::empty(),
    decreases s.len(),
{
    reveal(Seq::filter);
    if s.len() > 0 {
        lemma_filter_none(s.drop_last(), k);
    }
}

/// Inserting `x` at its place in a sorted sequence keeps it sorted, adds
/// `x` at the end of its order's entries and leaves the other orders'
/// entries alone.
proof fn lemma_insert_sorted(t: Seq<(i64, JsonView)>, x: (i64, JsonView), k: i64)
    requires
        sorted_desc(t),
    ensures
        sorted_desc(t.insert(insert_pos(t, x.0, 0), x)),
        t.insert(insert_pos(t, x.0, 0), x).filter(with_order(k)) == (if x.0 == k {
            t.filter(with_order(k)).push(x)
        } else {
            t.filter(with_order(k))
        }),
{
    lemma_insert_pos(t, x.0, 0);
    let p = insert_pos(t, x.0, 0);
    let u = t.insert(p, x);
    assert forall|i: int, j: int| 0 <= i < j < u.len() implies u[i].0 >= u[j].0 by {
        if j < p {
        } else if j == p {
        } else if i < p {
            assert(t[i].0 >= x.0);
            assert(t[p].0 < x.0);
            assert(t[p].0 >= t[j - 1].0);
        } else if i == p {
            assert(t[p].0 < x.0);
            if j - 1 > p {
                assert(t[p].0 >= t[j - 1].0);
            }
        } else {
            assert(t[i - 1].0 >= t[j - 1].0);
        }
    }
    let a = t.take(p);
    let b = t.skip(p);
    assert(u =~= a + seq![x] + b);
    assert(t =~= a + b);
    Seq::filter_distributes_over_add(a + seq![x], b, with_order(k));
    Seq::filter_distributes_over_add(a, seq![x], with_order(k));
    Seq::filter_distributes_over_add(a, b, with_order(k));
    reveal(Seq::filter);
    assert(seq![x].drop_last() =~= Seq::<(i64, JsonView)>::empty());
    if x.0 == k {
        assert forall|i: int| 0 <= i < b.len() implies b[i].0 != k by {
            assert(b[i] == t[p + i]);
            if p + i > p {
                assert(t[p].0 >= t[p + i].0);
            }
        }
        lemma_filter_none(b, k);
        assert(seq![x].filter(with_order(k)) =~= seq![x]);
        assert(a.filter(with_order(k)) + seq![x] =~= a.filter(with_order(k)).push(x));
    } else {
        let e = Seq::<(i64, JsonView)>::empty();
        assert(e.filter(with_order(k)) =~= e);
        assert(!(with_order(k))(x));
        assert(seq![x].last() == x);
        assert(seq![x].filter(with_order(k)) == seq![x].drop_last().filter(with_order(k)));
        assert(seq![x].filter(with_order(k)) =~= e);
    }
}

/// [`sort_desc`] orders by sort order, highest first, keeps every entry,
/// and keeps the entries of each order in their original order.
pub proof fn lemma_sort_desc(s: Seq<(i64, JsonView)>)
    ensures
        sorted_desc(sort_desc(s)),
        sort_desc(s).len() == s.len(),
        forall|k: i64| #[trigger] sort_desc(s).filter(with_order(k)) == s.filter(with_order(k)),
    decreases s.len(),
{
    if s.len() > 0 {
        let r = s.drop_last();
        let x = s.last();
        lemma_sort_desc(r);
        let t = sort_desc(r);
        lemma_insert_sorted(t, x, 0);
        lemma_insert_pos(t, x.0, 0);
        assert(s =~= r.push(x));
        assert forall|k: i64| #[trigger] sort_desc(s).filter(with_order(k)) == s.filter(with_order(k)) by {
            lemma_insert_sorted(t, x, k);
            r.lemma_filter_push(x, with_order(k));
        }
    }
}

/// The views of (order, model) entries.
pub open spec fn entries_view(v: Seq<(i64, JsonValue)>) -> Seq<(i64, JsonView)> {
    Seq::new(v.len(), |i: int| (v[i].0, v[i].1@))
}

/// Orders entries by [`sort_desc`].
fn sort_by_order_desc(items: &Vec<(i64, JsonValue)>) -> (out: Vec<(i64, JsonValue)>)
    ensures
        entries_view(out@) == sort_desc(entries_view(items@)),
{
    let ghost all = entries_view(items@);
    let mut out: Vec<(i64, JsonValue)> = Vec::new();
    let mut i: usize = 0;
    assert(all.take(0) =~= Seq::<(i64, JsonView)>::empty());
    assert(entries_view(out@) =~= Seq::<(i64, JsonView)>::empty());
    while i < items.len()
        invariant
            i <= items@.len(),
            all == entries_view(items@),
            entries_view(out@) == sort_desc(all.take(i as int)),
        decreases items.len() - i,
    {
        let k = items[i].0;
        let x = (k, items[i].1.duplicate());
        let ghost ov = entries_view(out@);
        let mut p: usize = 0;
        while p < out.len() && out[p].0 >= k
            invariant
                p <= out@.len(),
                ov == entries_view(out@),
                insert_pos(ov, k, 0) == insert_pos(ov, k, p as int),
            decreases out.len() - p,
        {
            p = p + 1;
        }
        let ghost xv = (k, x.1@);
        out.insert(p, x);
        proof {
            assert(all.take(i + 1).drop_last() =~= all.take(i as int));
            assert(all.take(i + 1).last() == xv);
            assert(entries_view(out@) =~= ov.insert(p as int, xv));
        }
        i = i + 1;
    }
    assert(all.take(items@.len() as int) =~= all);
    out
}


// ───────────────────────── variants of one model ─────────────────────────

/// A string member's text, empty when it is missing or not a string.
pub open spec fn text_or_empty(v: Option<JsonView>) -> Seq<char> {
    match jstr(v) {
        Some(t) => t,
        None => ""@,
    }
}

/// The id a model is shown under: its original id, else its model id.
pub open spec fn base_key(m: JsonView) -> Seq<char> {
    let o = text_or_empty(jget(m, "original_id"@));
    if o.len() > 0 {
        o
    } else {
        text_or_empty(jget(m, "model_id"@))
    }
}

/// Models with the same base id and type are variants of one entry.
pub open spec fn group_key(m: JsonView) -> Seq<char> {
    base_key(m) + "::"@ + text_or_empty(jget(m, "type_name"@))
}

/// The group keys of `s` in the order they first appear.
pub open spec fn first_keys(s: Seq<JsonView>) -> Seq<Seq<char>>
    decreases s.len(),
{
    if s.len() == 0 {
        Seq::empty()
    } else {
        let ks = first_keys(s.drop_last());
        let k = group_key(s.last());
        if ks.contains(k) {
            ks
        } else {
            ks.push(k)
        }
    }
}

/// The models whose group key is `k`.
pub open spec fn keyed(k: Seq<char>) -> spec_fn(JsonView) -> bool {
    |m: JsonView| group_key(m) == k
}

/// An entry as listed: its first variant, with the number of variants, the
/// variants themselves and the base id as `model_id`.
pub open spec fn group_view(vs: Seq<JsonView>) -> JsonView {
    let p = vs[0];
    with_member(
        with_member(
            with_member(p, "variant_count"@, JsonView::Number(dec_string(vs.len()))),
            "variants"@,
            JsonView::Array(vs),
        ),
        "model_id"@,
        JsonView::Str(base_key(p)),
    )
}

/// The entries of `s`: one per group key, in order of first appearance,
/// each holding the models of that key in their order.
pub open spec fn grouped_view(s: Seq<JsonView>) -> Seq<JsonView> {
    let ks = first_keys(s);
    Seq::new(ks.len(), |i: int| group_view(s.filter(keyed(ks[i]))))
}

/// The model of an (order, model) entry.
pub open spec fn entry_model() -> spec_fn((i64, JsonView)) -> JsonView {
    |e: (i64, JsonView)| e.1
}

/// The marketplace's entries: the shown models (see [`shown_models`]),
/// ordered by [`sort_desc`], grouped by [`grouped_view`].
pub open spec fn marketplace_view(models: Seq<JsonView>, confs: Seq<Option<JsonView>>, blacklist: bool) -> Seq<
    JsonView,
> {
    grouped_view(
        sort_desc(shown_models(models, confs, blacklist, models.len() as int)).map_values(entry_model()),
    )
}

/// [`text_or_empty`] of a member.
fn member_text(m: &JsonValue, key: &str) -> (r: String)
    ensures
        r@ == text_or_empty(jget(m@, key@)),
{
    match m.get(key) {
        Some(v) => match v.as_str() {
            Some(t) => to_owned_string(t),
            None => {
                proof {
                    reveal_strlit("");
                }
                to_owned_string("")
            },
        },
        None => {
            proof {
                reveal_strlit("");
            }
            to_owned_string("")
        },
    }
}

/// [`base_key`] of a model.
fn base_key_of(m: &JsonValue) -> (r: String)
    ensures
        r@ == base_key(m@),
{
    let o = member_text(m, "original_id");
    if !o.as_str().is_empty() {
        o
    } else {
        member_text(m, "model_id")
    }
}

/// [`group_key`] of a model.
fn group_key_of(m: &JsonValue) -> (r: String)
    ensures
        r@ == group_key(m@),
{
    let mut k = base_key_of(m);
    crate::text::string_append(&mut k, "::");
    let t = member_text(m, "type_name");
    crate::text::string_append(&mut k, t.as_str());
    k
}

/// Every model's key is among the first keys.
proof fn lemma_first_keys_cover(s: Seq<JsonView>, i: int)
    requires
        0 <= i < s.len(),
    ensures
        first_keys(s).contains(group_key(s[i])),
    decreases s.len(),
{
    let r = s.drop_last();
    if i < s.len() - 1 {
        lemma_first_keys_cover(r, i);
        assert(r[i] == s[i]);
        let ks = first_keys(r);
        let j = choose|j: int| 0 <= j < ks.len() && ks[j] == group_key(s[i]);
        if !ks.contains(group_key(s.last())) {
            assert(ks.push(group_key(s.last()))[j] == group_key(s[i]));
        }
    } else {
        let ks = first_keys(r);
        if !ks.contains(group_key(s.last())) {
            assert(ks.push(group_key(s.last()))[ks.len() as int] == group_key(s.last()));
        }
    }
}

/// The string views of keys.
pub open spec fn key_views(v: Seq<String>) -> Seq<Seq<char>> {
    Seq::new(v.len(), |i: int| v[i]@)
}

/// Groups models that are variants of one entry (see [`grouped_view`]).
fn group_variants(items: &Vec<JsonValue>) -> (r: Vec<JsonValue>)
    ensures
        item_views(r@) == grouped_view(item_views(items@)),
{
    let ghost all = item_views(items@);
    let n = items.len();
    let mut keys: Vec<String> = Vec::new();
    let mut group_of: Vec<usize> = Vec::new();
    let mut first_of: Vec<usize> = Vec::new();
    let mut i: usize = 0;
    assert(all.take(0) =~= Seq::<JsonView>::empty());
    assert(key_views(keys@) =~= Seq::<Seq<char>>::empty());
    while i < n
        invariant
            i <= n,
            n == items@.len(),
            all == item_views(items@),
            key_views(keys@) == first_keys(all.take(i as int)),
            forall|a: int, b: int| 0 <= a < b < keys@.len() ==> keys@[a]@ != keys@[b]@,
            group_of@.len() == i,
            forall|j: int| 0 <= j < i ==> #[trigger] group_of@[j] < keys@.len() && keys@[group_of@[j] as int]@
                == group_key(all[j]),
            first_of@.len() == keys@.len(),
            forall|g: int| 0 <= g < keys@.len() ==> #[trigger] first_of@[g] < i && group_of@[first_of@[g] as int] == g,
        decreases n - i,
    {
        let k = group_key_of(&items[i]);
        let ghost kv = k@;
        let ghost pre = all.take(i as int);
        let ghost kvs = key_views(keys@);
        let mut j: usize = 0;
        while j < keys.len() && !str_eq(keys[j].as_str(), k.as_str())
            invariant
                j <= keys@.len(),
                forall|a: int| 0 <= a < j ==> keys@[a]@ != kv,
                kv == k@,
            decreases keys.len() - j,
        {
            j = j + 1;
        }
        proof {
            assert(all.take(i + 1).drop_last() =~= pre);
            assert(all.take(i + 1).last() == all[i as int]);
        }
        if j < keys.len() {
            proof {
                assert(kvs[j as int] == kv);
                assert(kvs.contains(kv));
            }
            group_of.push(j);
        } else {
            proof {
                assert(!kvs.contains(kv));
            }
            let g = keys.len();
            keys.push(k);
            group_of.push(g);
            first_of.push(i);
            assert(key_views(keys@) =~= kvs.push(kv));
        }
        i = i + 1;
    }
    assert(all.take(n as int) =~= all);
    let ghost ks = key_views(keys@);
    let mut out: Vec<JsonValue> = Vec::new();
    let mut g: usize = 0;
    while g < keys.len()
        invariant
            g <= keys@.len(),
            n == items@.len(),
            all == item_views(items@),
            ks == key_views(keys@),
            ks == first_keys(all),
            group_of@.len() == n,
            forall|a: int, b: int| 0 <= a < b < keys@.len() ==> keys@[a]@ != keys@[b]@,
            forall|j: int| 0 <= j < n ==> #[trigger] group_of@[j] < keys@.len() && keys@[group_of@[j] as int]@
                == group_key(all[j]),
            first_of@.len() == keys@.len(),
            forall|h: int| 0 <= h < keys@.len() ==> #[trigger] first_of@[h] < n && group_of@[first_of@[h] as int] == h,
            item_views(out@) =~= Seq::new(g as nat, |h: int| group_view(all.filter(keyed(ks[h])))),
        decreases keys.len() - g,
    {
        let ghost kg = ks[g as int];
        let mut vs: Vec<JsonValue> = Vec::new();
        let mut j: usize = 0;
        assert(all.take(0).filter(keyed(kg)) =~= Seq::<JsonView>::empty()) by {
            reveal(Seq::filter);
        }
        assert(item_views(vs@) =~= Seq::<JsonView>::empty());
        while j < n
            invariant
                j <= n,
                n == items@.len(),
                g < keys@.len(),
                all == item_views(items@),
                ks == key_views(keys@),
                kg == ks[g as int],
                group_of@.len() == n,
                forall|a: int, b: int| 0 <= a < b < keys@.len() ==> keys@[a]@ != keys@[b]@,
                forall|q: int| 0 <= q < n ==> #[trigger] group_of@[q] < keys@.len() && keys@[group_of@[q] as int]@
                    == group_key(all[q]),
                item_views(vs@) == all.take(j as int).filter(keyed(kg)),
            decreases n - j,
        {
            let ghost before = item_views(vs@);
            proof {
                assert(all.take(j + 1) =~= all.take(j as int).push(all[j as int]));
                all.take(j as int).lemma_filter_push(all[j as int], keyed(kg));
                assert(keys@[group_of@[j as int] as int]@ == group_key(all[j as int]));
                if group_of@[j as int] != g {
                    let h = group_of@[j as int] as int;
                    if h < g {
                        assert(keys@[h]@ != keys@[g as int]@);
                    } else {
                        assert(keys@[g as int]@ != keys@[h]@);
                    }
                }
            }
            if group_of[j] == g {
                let x = items[j].duplicate();
                vs.push(x);
                assert(item_views(vs@) =~= before.push(all[j as int]));
            }
            j = j + 1;
        }
        assert(all.take(n as int) =~= all);
        proof {
            let f = first_of@[g as int] as int;
            assert(keyed(kg)(all[f]));
            all.lemma_filter_contains(keyed(kg), f);
        }
        let ghost vv = item_views(vs@);
        let mut entry = vs[0].duplicate();
        let mut count = String::new();
        push_u64(&mut count, vs.len() as u64);
        entry.insert_member("variant_count", JsonValue::Number(count));
        let bk = base_key_of(&vs[0]);
        proof {
            assert(vs@[0]@ == vv[0]);
        }
        entry.insert_member("variants", JsonValue::Array(vs));
        proof {
            crate::json_tree::lemma_array_view(vs);
        }
        entry.insert_member("model_id", JsonValue::Str(bk));
        let ghost ov = item_views(out@);
        out.push(entry);
        assert(item_views(out@) =~= ov.push(group_view(vv)));
        g = g + 1;
    }
    out
}

/// The portal's model marketplace (see [`marketplace_view`]): `models` are
/// the active models (objects, newest first), `confs` each model's saved
/// marketplace settings, parsed (`None` when there are none),
/// `is_blacklist` whether models are shown unless switched off.
pub fn marketplace_models(models: &Vec<JsonValue>, confs: &Vec<Option<JsonValue>>, is_blacklist: bool) -> (r: Vec<
    JsonValue,
>)
    requires
        models@.len() == confs@.len(),
    ensures
        item_views(r@) == marketplace_view(
            item_views(models@),
            Seq::new(confs@.len(), |i: int| crate::cascade_docs::parsed_view(confs@[i])),
            is_blacklist,
        ),
{
    let ghost mv = item_views(models@);
    let ghost cv = Seq::new(confs@.len(), |i: int| crate::cascade_docs::parsed_view(confs@[i]));
    let mut shown: Vec<(i64, JsonValue)> = Vec::new();
    let mut i: usize = 0;
    while i < models.len()
        invariant
            i <= models@.len(),
            models@.len() == confs@.len(),
            mv == item_views(models@),
            cv == Seq::new(confs@.len(), |i: int| crate::cascade_docs::parsed_view(confs@[i])),
            entries_view(shown@) == shown_models(mv, cv, is_blacklist, i as int),
        decreases models.len() - i,
    {
        let conf = match &confs[i] {
            Some(c) => c.duplicate(),
            None => default_conf_value(),
        };
        let ghost c = conf_or_default(cv[i as int]);
        assert(conf@ == c);
        let enabled = match conf.get("enabled") {
            Some(v) => match v.as_bool() {
                Some(b) => b,
                None => is_blacklist,
            },
            None => is_blacklist,
        };
        if enabled {
            let order: i64 = match conf.get("sort_order") {
                Some(JsonValue::Number(t)) => {
                    let digits = chars_of(t.as_str());
                    match parse_i64_chars(digits.as_slice()) {
                        Some(v) => v,
                        None => 0,
                    }
                },
                _ => 0,
            };
            assert(order == model_order(c));
            let mut m = models[i].duplicate();
            let mut text = String::new();
            push_i64(&mut text, order);
            m.insert_member("sort_order", JsonValue::Number(text));
            let note = member_text(&conf, "description");
            assert(note@ == model_note(c));
            if !note.as_str().is_empty() {
                m.insert_member("description", JsonValue::Str(note));
            }
            proof {
                let m1 = with_member(mv[i as int], "sort_order"@, JsonView::Number(int_string(order as int)));
                assert(models@[i as int]@ == mv[i as int]);
                if model_note(c).len() > 0 {
                    assert(m@ == with_member(m1, "description"@, JsonView::Str(model_note(c))));
                } else {
                    assert(m@ == m1);
                }
            }
            assert(m@ == listed_model(mv[i as int], c));
            let ghost before = entries_view(shown@);
            shown.push((order, m));
            assert(entries_view(shown@) =~= before.push((model_order(c), listed_model(mv[i as int], c))));
        }
        i = i + 1;
    }
    let sorted = sort_by_order_desc(&shown);
    let mut plain: Vec<JsonValue> = Vec::new();
    let mut j: usize = 0;
    let ghost sv = entries_view(sorted@);
    while j < sorted.len()
        invariant
            j <= sorted@.len(),
            sv == entries_view(sorted@),
            item_views(plain@) =~= sv.take(j as int).map_values(entry_model()),
        decreases sorted.len() - j,
    {
        let x = sorted[j].1.duplicate();
        let ghost before = item_views(plain@);
        plain.push(x);
        proof {
            assert(sv.take(j + 1) =~= sv.take(j as int).push(sv[j as int]));
            assert(sv.take(j + 1).map_values(entry_model()) =~= sv.take(j as int).map_values(entry_model()).push(
                sv[j as int].1,
            ));
            assert(item_views(plain@) =~= before.push(sv[j as int].1));
        }
        j = j + 1;
    }
    assert(sv.take(sorted@.len() as int) =~= sv);
    group_variants(&plain)
}

/// The default marketplace settings of a model.
fn default_conf_value() -> (r: JsonValue)
    ensures
        r@ == default_model_conf(),
{
    let mut m: Vec<(String, JsonValue)> = Vec::new();
    m.push((to_owned_string("sort_order"), JsonValue::Number(to_owned_string("0"))));
    m.push((to_owned_string("description"), JsonValue::Str(to_owned_string(""))));
    let r = crate::json_tree::jobject(m);
    assert(crate::json_tree::member_views(m@) =~= seq![
        ("sort_order"@, JsonView::Number("0"@)),
        ("description"@, JsonView::Str(""@)),
    ]);
    r
}

} // verus!
