//! JSON documents as the library edits them: a tree of values whose numbers
//! keep their JSON text.  Parsing text into a tree and printing a tree back
//! are done at the library's edge with `serde_json`; everything between is
//! verified here.
use vstd::prelude::*;
use crate::text::{
    chars_of, contains, int_string, push_i64, replace_all, replace_str, str_contains, str_eq, to_owned_string,
};

verus! {

/// A JSON value.  An object keeps its members in order, each name once.
#[derive(Debug, PartialEq, Eq)]
pub enum JsonValue {
    Null,
    Bool(bool),
    /// A number, as its JSON text.
    Number(String),
    Str(String),
    Array(Vec<JsonValue>),
    Object(Vec<(String, JsonValue)>),
}

/// The mathematical value of a JSON document.
pub enum JsonView {
    Null,
    Bool(bool),
    Number(Seq<char>),
    Str(Seq<char>),
    Array(Seq<JsonView>),
    Object(Seq<(Seq<char>, JsonView)>),
}

/// The value a [`JsonValue`] denotes.
pub open spec fn view_of(v: JsonValue) -> JsonView
    decreases v,
{
    match v {
        JsonValue::Null => JsonView::Null,
        JsonValue::Bool(b) => JsonView::Bool(b),
        JsonValue::Number(n) => JsonView::Number(n@),
        JsonValue::Str(s) => JsonView::Str(s@),
        JsonValue::Array(items) => JsonView::Array(
            Seq::new(
                items@.len(),
                |i: int|
                    if 0 <= i < items@.len() {
                        view_of(items@[i])
                    } else {
                        JsonView::Null
                    },
            ),
        ),
        JsonValue::Object(m) => JsonView::Object(
            Seq::new(
                m@.len(),
                |i: int|
                    if 0 <= i < m@.len() {
                        (m@[i].0@, view_of(m@[i].1))
                    } else {
                        (Seq::empty(), JsonView::Null)
                    },
            ),
        ),
    }
}

impl View for JsonValue {
    type V = JsonView;

    open spec fn view(&self) -> JsonView {
        view_of(*self)
    }
}

/// The views of `items`.
pub open spec fn item_views(items: Seq<JsonValue>) -> Seq<JsonView> {
    Seq::new(items.len(), |i: int| view_of(items[i]))
}

/// The views of the members `m`.
pub open spec fn member_views(m: Seq<(String, JsonValue)>) -> Seq<(Seq<char>, JsonView)> {
    Seq::new(m.len(), |i: int| (m[i].0@, view_of(m[i].1)))
}

/// The view of an array is the views of its items.
pub proof fn lemma_array_view(items: Vec<JsonValue>)
    ensures
        JsonValue::Array(items)@ == JsonView::Array(item_views(items@)),
{
    let v = view_of(JsonValue::Array(items));
    assert(v is Array);
    assert(v->Array_0 =~= item_views(items@));
}

/// The view of an object is the views of its members.
pub proof fn lemma_object_view(m: Vec<(String, JsonValue)>)
    ensures
        JsonValue::Object(m)@ == JsonView::Object(member_views(m@)),
{
    let v = view_of(JsonValue::Object(m));
    assert(v is Object);
    assert(v->Object_0 =~= member_views(m@));
}

// ───────────────────────── reading ─────────────────────────

/// The index of the first member of `m` named `key`, from `i` on.
pub open spec fn member_index_from(m: Seq<(Seq<char>, JsonView)>, key: Seq<char>, i: int) -> Option<int>
    decreases m.len() - i,
{
    if i < 0 || i >= m.len() {
        None
    } else if m[i].0 == key {
        Some(i)
    } else {
        member_index_from(m, key, i + 1)
    }
}

/// The member `key` of an object (`Value::get`); `None` for a missing
/// member or a value that is not an object.
pub open spec fn jget(v: JsonView, key: Seq<char>) -> Option<JsonView> {
    match v {
        JsonView::Object(m) => match member_index_from(m, key, 0) {
            Some(i) => Some(m[i].1),
            None => None,
        },
        _ => None,
    }
}

/// The text of a string value.
pub open spec fn jstr(o: Option<JsonView>) -> Option<Seq<char>> {
    match o {
        Some(JsonView::Str(s)) => Some(s),
        _ => None,
    }
}

/// The flag of a boolean value.
pub open spec fn jbool(o: Option<JsonView>) -> Option<bool> {
    match o {
        Some(JsonView::Bool(b)) => Some(b),
        _ => None,
    }
}

/// The items of an array value.
pub open spec fn jarray(o: Option<JsonView>) -> Option<Seq<JsonView>> {
    match o {
        Some(JsonView::Array(items)) => Some(items),
        _ => None,
    }
}

/// `member_index_from` finds the first match.
pub proof fn lemma_member_index(m: Seq<(Seq<char>, JsonView)>, key: Seq<char>, i: int)
    requires
        0 <= i <= m.len(),
    ensures
        match member_index_from(m, key, i) {
            Some(k) => i <= k < m.len() && m[k].0 == key && forall|j: int| i <= j < k ==> m[j].0 != key,
            None => forall|j: int| i <= j < m.len() ==> m[j].0 != key,
        },
    decreases m.len() - i,
{
    if i < m.len() && m[i].0 != key {
        lemma_member_index(m, key, i + 1);
    }
}

/// The position of the first member named `key`.
fn member_position(m: &Vec<(String, JsonValue)>, key: &str) -> (r: Option<usize>)
    ensures
        match r {
            Some(i) => member_index_from(member_views(m@), key@, 0) == Some(i as int) && i < m@.len()
                && m@[i as int].0@ == key@,
            None => member_index_from(member_views(m@), key@, 0) is None,
        },
{
    let ghost mv = member_views(m@);
    proof {
        lemma_member_index(mv, key@, 0);
    }
    let mut i: usize = 0;
    while i < m.len()
        invariant
            i <= m@.len(),
            mv == member_views(m@),
            member_index_from(mv, key@, 0) == member_index_from(mv, key@, i as int),
        decreases m.len() - i,
    {
        if str_eq(m[i].0.as_str(), key) {
            return Some(i);
        }
        i = i + 1;
    }
    None
}

impl JsonValue {
    /// The member `key` of an object (`Value::get`).
    pub fn get<'a>(&'a self, key: &str) -> (r: Option<&'a JsonValue>)
        ensures
            match r {
                Some(x) => jget(self@, key@) == Some(x@),
                None => jget(self@, key@) is None,
            },
    {
        match self {
            JsonValue::Object(m) => {
                proof {
                    lemma_object_view(*m);
                }
                let ghost mv = member_views(m@);
                assert(self@ == JsonView::Object(mv));
                match member_position(m, key) {
                    Some(i) => {
                        assert(member_index_from(mv, key@, 0) == Some(i as int));
                        assert(mv[i as int].1 == m@[i as int].1@);
                        assert(jget(self@, key@) == Some(mv[i as int].1));
                        Some(&m[i].1)
                    },
                    None => None,
                }
            },
            _ => None,
        }
    }

    /// The text of a string value (`Value::as_str`).
    pub fn as_str(&self) -> (r: Option<&str>)
        ensures
            match self@ {
                JsonView::Str(s) => r matches Some(t) && t@ == s,
                _ => r is None,
            },
    {
        match self {
            JsonValue::Str(s) => Some(s.as_str()),
            _ => None,
        }
    }

    /// The flag of a boolean value (`Value::as_bool`).
    pub fn as_bool(&self) -> (r: Option<bool>)
        ensures
            r == (match self@ {
                JsonView::Bool(b) => Some(b),
                _ => None::<bool>,
            }),
    {
        match self {
            JsonValue::Bool(b) => Some(*b),
            _ => None,
        }
    }

    /// The items of an array value (`Value::as_array`).
    pub fn as_array(&self) -> (r: Option<&Vec<JsonValue>>)
        ensures
            match self@ {
                JsonView::Array(items) => r matches Some(a) && item_views(a@) == items,
                _ => r is None,
            },
    {
        match self {
            JsonValue::Array(a) => {
                proof {
                    lemma_array_view(*a);
                }
                Some(a)
            },
            _ => None,
        }
    }

    /// Whether the value is an object (`Value::is_object`).
    pub fn is_object(&self) -> (r: bool)
        ensures
            r == (self@ is Object),
    {
        match self {
            JsonValue::Object(_) => true,
            _ => false,
        }
    }

    /// A copy of the value.
    pub fn duplicate(&self) -> (r: JsonValue)
        ensures
            r@ == self@,
        decreases self,
    {
        match self {
            JsonValue::Null => JsonValue::Null,
            JsonValue::Bool(b) => JsonValue::Bool(*b),
            JsonValue::Number(n) => JsonValue::Number(to_owned_string(n.as_str())),
            JsonValue::Str(s) => JsonValue::Str(to_owned_string(s.as_str())),
            JsonValue::Array(items) => {
                let mut out: Vec<JsonValue> = Vec::new();
                let mut i: usize = 0;
                while i < items.len()
                    invariant
                        i <= items@.len(),
                        *self == JsonValue::Array(*items),
                        out@.len() == i,
                        forall|k: int| 0 <= k < i ==> #[trigger] view_of(out@[k]) == view_of(items@[k]),
                    decreases items.len() - i,
                {
                    proof {
                        assert(decreases_to!(*self => (*self)->Array_0));
                        assert(decreases_to!((*self)->Array_0 => (*self)->Array_0@));
                        assert(decreases_to!((*self)->Array_0@ => (*self)->Array_0@[i as int]));
                    }
                    let x = items[i].duplicate();
                    out.push(x);
                    i = i + 1;
                }
                proof {
                    lemma_array_view(out);
                    lemma_array_view(*items);
                    assert(item_views(out@) =~= item_views(items@));
                }
                JsonValue::Array(out)
            },
            JsonValue::Object(m) => {
                let mut out: Vec<(String, JsonValue)> = Vec::new();
                let mut i: usize = 0;
                while i < m.len()
                    invariant
                        i <= m@.len(),
                        *self == JsonValue::Object(*m),
                        out@.len() == i,
                        forall|k: int|
                            0 <= k < i ==> #[trigger] out@[k].0@ == m@[k].0@ && view_of(out@[k].1) == view_of(
                                m@[k].1,
                            ),
                    decreases m.len() - i,
                {
                    proof {
                        assert(decreases_to!(*self => (*self)->Object_0));
                        assert(decreases_to!((*self)->Object_0 => (*self)->Object_0@));
                        assert(decreases_to!((*self)->Object_0@ => (*self)->Object_0@[i as int]));
                        assert(decreases_to!((*self)->Object_0@[i as int] => (*self)->Object_0@[i as int].1));
                    }
                    let x = m[i].1.duplicate();
                    out.push((to_owned_string(m[i].0.as_str()), x));
                    i = i + 1;
                }
                proof {
                    lemma_object_view(out);
                    lemma_object_view(*m);
                    assert(member_views(out@) =~= member_views(m@));
                }
                JsonValue::Object(out)
            },
        }
    }
}

// ───────────────────────── editing members ─────────────────────────

/// `m` with member `key` set to `v`: replaced where it is, else appended
/// (`Map::insert`).
pub open spec fn members_insert(m: Seq<(Seq<char>, JsonView)>, key: Seq<char>, v: JsonView) -> Seq<
    (Seq<char>, JsonView),
> {
    match member_index_from(m, key, 0) {
        Some(i) => m.update(i, (key, v)),
        None => m.push((key, v)),
    }
}

/// `m` without the members named `key` (`Map::remove`).
pub open spec fn members_remove(m: Seq<(Seq<char>, JsonView)>, key: Seq<char>) -> Seq<(Seq<char>, JsonView)> {
    m.filter(not_named(key))
}

/// A member not named `key`.
pub open spec fn not_named(key: Seq<char>) -> spec_fn((Seq<char>, JsonView)) -> bool {
    |e: (Seq<char>, JsonView)| e.0 != key
}

/// An object with member `key` set to `v`; any other value unchanged.
pub open spec fn with_member(o: JsonView, key: Seq<char>, v: JsonView) -> JsonView {
    match o {
        JsonView::Object(m) => JsonView::Object(members_insert(m, key, v)),
        _ => o,
    }
}

/// An object without member `key`; any other value unchanged.
pub open spec fn without_member(o: JsonView, key: Seq<char>) -> JsonView {
    match o {
        JsonView::Object(m) => JsonView::Object(members_remove(m, key)),
        _ => o,
    }
}

/// Whether an object has member `key`.
pub open spec fn has_member(o: JsonView, key: Seq<char>) -> bool {
    jget(o, key) is Some
}

/// The value of the first member of `m` named `key`.
pub open spec fn lookup(m: Seq<(Seq<char>, JsonView)>, key: Seq<char>) -> Option<JsonView> {
    match member_index_from(m, key, 0) {
        Some(i) => Some(m[i].1),
        None => None,
    }
}

/// Looking up in `s` with `x` appended: `s`'s member if it has one, else
/// `x` when named `key`.
pub proof fn lemma_lookup_push(s: Seq<(Seq<char>, JsonView)>, x: (Seq<char>, JsonView), key: Seq<char>)
    ensures
        lookup(s.push(x), key) == (if lookup(s, key) is Some {
            lookup(s, key)
        } else if x.0 == key {
            Some(x.1)
        } else {
            None
        }),
{
    let t = s.push(x);
    lemma_member_index(s, key, 0);
    lemma_member_index(t, key, 0);
    match member_index_from(s, key, 0) {
        Some(i) => {
            assert(t[i].0 == key);
            match member_index_from(t, key, 0) {
                Some(j) => {
                    if j < i {
                        assert(s[j].0 == t[j].0);
                    }
                    if j > i {
                        assert(t[i].0 != key);
                    }
                },
                None => {
                    assert(t[i].0 != key);
                },
            }
        },
        None => {
            match member_index_from(t, key, 0) {
                Some(j) => {
                    if j < s.len() {
                        assert(s[j].0 == t[j].0);
                    }
                },
                None => {
                    assert(t[s.len() as int] == x);
                },
            }
        },
    }
}

/// Removing the members named `k1` leaves the value of member `k2` as it
/// was.
pub proof fn lemma_lookup_remove(m: Seq<(Seq<char>, JsonView)>, k1: Seq<char>, k2: Seq<char>)
    requires
        k1 != k2,
    ensures
        lookup(members_remove(m, k1), k2) == lookup(m, k2),
    decreases m.len(),
{
    reveal(Seq::filter);
    if m.len() > 0 {
        let p = not_named(k1);
        lemma_lookup_remove(m.drop_last(), k1, k2);
        assert(m =~= m.drop_last().push(m.last()));
        lemma_lookup_push(m.drop_last(), m.last(), k2);
        lemma_lookup_push(m.drop_last().filter(p), m.last(), k2);
    }
}

/// Removing member `k1` of an object leaves member `k2` as it was.
pub proof fn lemma_get_without(c: JsonView, k1: Seq<char>, k2: Seq<char>)
    requires
        k1 != k2,
    ensures
        jget(without_member(c, k1), k2) == jget(c, k2),
{
    if let JsonView::Object(m) = c {
        lemma_lookup_remove(m, k1, k2);
    }
}

/// An object without member `key` has no such member.
pub proof fn lemma_get_removed(c: JsonView, key: Seq<char>)
    ensures
        jget(without_member(c, key), key) is None || !(c is Object),
{
    if let JsonView::Object(m) = c {
        let r = members_remove(m, key);
        lemma_member_index(r, key, 0);
        reveal(Seq::filter);
        m.filter_lemma(not_named(key));
    }
}

impl JsonValue {
    /// Sets member `key` of an object to `v` (`Map::insert`); other values
    /// are left alone.
    pub fn insert_member(&mut self, key: &str, v: JsonValue)
        ensures
            final(self)@ == with_member(old(self)@, key@, v@),
    {
        match self {
            JsonValue::Object(m) => {
                proof {
                    lemma_object_view(*m);
                }
                let ghost mv = member_views(m@);
                let ghost vv = v@;
                match member_position(m, key) {
                    Some(i) => {
                        m.set(i, (to_owned_string(key), v));
                        proof {
                            lemma_object_view(*m);
                            assert(member_views(m@) =~= mv.update(i as int, (key@, vv)));
                        }
                    },
                    None => {
                        m.push((to_owned_string(key), v));
                        proof {
                            lemma_object_view(*m);
                            assert(member_views(m@) =~= mv.push((key@, vv)));
                        }
                    },
                }
            },
            _ => {},
        }
    }

    /// Removes the members named `key` from an object; `true` when there was
    /// one.  Other values are left alone.
    pub fn remove_member(&mut self, key: &str) -> (r: bool)
        ensures
            final(self)@ == without_member(old(self)@, key@),
            r == (old(self)@ is Object && has_member(old(self)@, key@)),
    {
        match self {
            JsonValue::Object(m) => {
                proof {
                    lemma_object_view(*m);
                    lemma_member_index(member_views(m@), key@, 0);
                }
                let ghost mv = member_views(m@);
                let ghost keep = not_named(key@);
                let mut out: Vec<(String, JsonValue)> = Vec::new();
                let mut found = false;
                let mut rest: Vec<(String, JsonValue)> = Vec::new();
                std::mem::swap(&mut rest, m);
                proof {
                    reveal(Seq::filter);
                    assert(mv.take(0).filter(keep) =~= Seq::<(Seq<char>, JsonView)>::empty());
                }
                let n = rest.len();
                let mut i: usize = 0;
                while i < n
                    invariant
                        i <= n,
                        n == rest@.len(),
                        mv == member_views(rest@),
                        keep == not_named(key@),
                        member_views(out@) == mv.take(i as int).filter(keep),
                        found == exists|k: int| 0 <= k < i && mv[k].0 == key@,
                    decreases n - i,
                {
                    let ghost before = member_views(out@);
                    proof {
                        assert(mv.take(i + 1).drop_last() =~= mv.take(i as int));
                        assert(mv.take(i + 1).last() == mv[i as int]);
                        reveal(Seq::filter);
                    }
                    let same = str_eq(rest[i].0.as_str(), key);
                    if same {
                        found = true;
                    } else {
                        let e = (to_owned_string(rest[i].0.as_str()), rest[i].1.duplicate());
                        out.push(e);
                        assert(member_views(out@) =~= before.push(mv[i as int]));
                    }
                    i = i + 1;
                }
                assert(mv.take(n as int) =~= mv);
                *m = out;
                proof {
                    lemma_object_view(*m);
                }
                found
            },
            _ => false,
        }
    }
}


// ───────────────────────── building ─────────────────────────

/// A string value.
pub fn jstring(s: &str) -> (r: JsonValue)
    ensures
        r@ == JsonView::Str(s@),
{
    JsonValue::Str(to_owned_string(s))
}

/// An object with the given members, in order.
pub fn jobject(members: Vec<(String, JsonValue)>) -> (r: JsonValue)
    ensures
        r@ == JsonView::Object(member_views(members@)),
{
    proof {
        lemma_object_view(members);
    }
    JsonValue::Object(members)
}

/// An array with the given items, in order.
pub fn jlist(items: Vec<JsonValue>) -> (r: JsonValue)
    ensures
        r@ == JsonView::Array(item_views(items@)),
{
    proof {
        lemma_array_view(items);
    }
    JsonValue::Array(items)
}

// ───────────────────────── rewriting strings ─────────────────────────

/// Every string of `v` that contains `p` with each `p` replaced by `r`
/// (`str::replace`), at any depth.
pub open spec fn replaced_strings(v: JsonView, p: Seq<char>, r: Seq<char>) -> JsonView
    decreases v,
{
    match v {
        JsonView::Str(s) => if contains(s, p) {
            JsonView::Str(replace_all(s, p, r))
        } else {
            v
        },
        JsonView::Array(items) => JsonView::Array(
            Seq::new(
                items.len(),
                |i: int|
                    if 0 <= i < items.len() {
                        replaced_strings(items[i], p, r)
                    } else {
                        JsonView::Null
                    },
            ),
        ),
        JsonView::Object(m) => JsonView::Object(
            Seq::new(
                m.len(),
                |i: int|
                    if 0 <= i < m.len() {
                        (m[i].0, replaced_strings(m[i].1, p, r))
                    } else {
                        (Seq::empty(), JsonView::Null)
                    },
            ),
        ),
        _ => v,
    }
}

/// `v` with [`replaced_strings`] applied (`p` must not be empty).
pub fn replace_in_strings(v: &JsonValue, p: &str, r: &str) -> (out: JsonValue)
    requires
        p@.len() > 0,
    ensures
        out@ == replaced_strings(v@, p@, r@),
    decreases v,
{
    match v {
        JsonValue::Str(s) => {
            if str_contains(s.as_str(), p) {
                JsonValue::Str(replace_str(s.as_str(), p, r))
            } else {
                JsonValue::Str(to_owned_string(s.as_str()))
            }
        },
        JsonValue::Array(items) => {
            let mut out: Vec<JsonValue> = Vec::new();
            let mut i: usize = 0;
            while i < items.len()
                invariant
                    i <= items@.len(),
                    p@.len() > 0,
                    *v == JsonValue::Array(*items),
                    out@.len() == i,
                    forall|k: int|
                        0 <= k < i ==> #[trigger] view_of(out@[k]) == replaced_strings(view_of(items@[k]), p@, r@),
                decreases items.len() - i,
            {
                proof {
                    assert(decreases_to!(*v => (*v)->Array_0));
                    assert(decreases_to!((*v)->Array_0 => (*v)->Array_0@));
                    assert(decreases_to!((*v)->Array_0@ => (*v)->Array_0@[i as int]));
                }
                let x = replace_in_strings(&items[i], p, r);
                out.push(x);
                i = i + 1;
            }
            proof {
                lemma_array_view(out);
                lemma_array_view(*items);
                let rs = replaced_strings(v@, p@, r@);
                assert(rs is Array);
                assert(item_views(out@) =~= rs->Array_0);
            }
            JsonValue::Array(out)
        },
        JsonValue::Object(m) => {
            let mut out: Vec<(String, JsonValue)> = Vec::new();
            let mut i: usize = 0;
            while i < m.len()
                invariant
                    i <= m@.len(),
                    p@.len() > 0,
                    *v == JsonValue::Object(*m),
                    out@.len() == i,
                    forall|k: int|
                        0 <= k < i ==> #[trigger] out@[k].0@ == m@[k].0@ && view_of(out@[k].1) == replaced_strings(
                            view_of(m@[k].1),
                            p@,
                            r@,
                        ),
                decreases m.len() - i,
            {
                proof {
                    assert(decreases_to!(*v => (*v)->Object_0));
                    assert(decreases_to!((*v)->Object_0 => (*v)->Object_0@));
                    assert(decreases_to!((*v)->Object_0@ => (*v)->Object_0@[i as int]));
                    assert(decreases_to!((*v)->Object_0@[i as int] => (*v)->Object_0@[i as int].1));
                }
                let x = replace_in_strings(&m[i].1, p, r);
                out.push((to_owned_string(m[i].0.as_str()), x));
                i = i + 1;
            }
            proof {
                lemma_object_view(out);
                lemma_object_view(*m);
                let rs = replaced_strings(v@, p@, r@);
                assert(rs is Object);
                assert(member_views(out@) =~= rs->Object_0);
            }
            JsonValue::Object(out)
        },
        JsonValue::Null => JsonValue::Null,
        JsonValue::Bool(b) => JsonValue::Bool(*b),
        JsonValue::Number(n) => JsonValue::Number(to_owned_string(n.as_str())),
    }
}

// ───────────────────────── filling in defaults ─────────────────────────

/// The members `m` after each default `d[i..]` whose name `m` lacks is
/// appended (`entry(..).or_insert(..)`).
pub open spec fn merged_defaults(m: Seq<(Seq<char>, JsonView)>, d: Seq<(Seq<char>, JsonView)>, i: int) -> Seq<
    (Seq<char>, JsonView),
>
    decreases d.len() - i,
{
    if i < 0 || i >= d.len() {
        m
    } else {
        merged_defaults(
            if member_index_from(m, d[i].0, 0) is Some {
                m
            } else {
                m.push(d[i])
            },
            d,
            i + 1,
        )
    }
}

/// An object with the members of `defaults` it lacks added; anything else
/// (or defaults that are no object) left as it is.
pub open spec fn with_defaults(v: JsonView, defaults: JsonView) -> JsonView {
    match (v, defaults) {
        (JsonView::Object(m), JsonView::Object(d)) => JsonView::Object(merged_defaults(m, d, 0)),
        _ => v,
    }
}

/// Adds to an object the members of `defaults` it lacks.
pub fn merge_defaults(value: &mut JsonValue, defaults: &JsonValue)
    ensures
        final(value)@ == with_defaults(old(value)@, defaults@),
{
    let d = match defaults {
        JsonValue::Object(d) => d,
        _ => return,
    };
    if !value.is_object() {
        return;
    }
    proof {
        lemma_object_view(*d);
    }
    let ghost dv = member_views(d@);
    let ghost m0 = match old(value)@ {
        JsonView::Object(m) => m,
        _ => Seq::empty(),
    };
    let mut i: usize = 0;
    while i < d.len()
        invariant
            i <= d@.len(),
            dv == member_views(d@),
            value@ is Object,
            merged_defaults(m0, dv, 0) == merged_defaults(value@->Object_0, dv, i as int),
        decreases d.len() - i,
    {
        let present = value.get(d[i].0.as_str()).is_some();
        if !present {
            let x = d[i].1.duplicate();
            value.insert_member(d[i].0.as_str(), x);
        }
        i = i + 1;
    }
}


// ───────────────────────── patching fields ─────────────────────────

/// A string or number value: what a field patch may overwrite.
pub open spec fn is_leaf(v: JsonView) -> bool {
    v is Str || v is Number
}

/// The value of member `key` after the patches: each string patch for
/// `key` overwrites a string, then each number patch for `key` a number.
pub open spec fn leaf_patched(
    key: Seq<char>,
    v: JsonView,
    sp: Seq<(Seq<char>, Seq<char>)>,
    np: Seq<(Seq<char>, i64)>,
) -> JsonView {
    let after_str = str_patched(key, v, sp, 0);
    num_patched(key, after_str, np, 0)
}

/// `v` after the string patches `sp[i..]` for `key`.
pub open spec fn str_patched(key: Seq<char>, v: JsonView, sp: Seq<(Seq<char>, Seq<char>)>, i: int) -> JsonView
    decreases sp.len() - i,
{
    if i < 0 || i >= sp.len() {
        v
    } else {
        str_patched(
            key,
            if sp[i].0 == key && v is Str {
                JsonView::Str(sp[i].1)
            } else {
                v
            },
            sp,
            i + 1,
        )
    }
}

/// `v` after the number patches `np[i..]` for `key`.
pub open spec fn num_patched(key: Seq<char>, v: JsonView, np: Seq<(Seq<char>, i64)>, i: int) -> JsonView
    decreases np.len() - i,
{
    if i < 0 || i >= np.len() {
        v
    } else {
        num_patched(
            key,
            if np[i].0 == key && v is Number {
                JsonView::Number(int_string(np[i].1 as int))
            } else {
                v
            },
            np,
            i + 1,
        )
    }
}

/// `v` with the patches applied to the fields that exist, at any depth:
/// a string field named in `sp` and a number field named in `np` take the
/// patched value; nothing is added.
pub open spec fn patched(v: JsonView, sp: Seq<(Seq<char>, Seq<char>)>, np: Seq<(Seq<char>, i64)>) -> JsonView
    decreases v,
{
    match v {
        JsonView::Object(m) => JsonView::Object(
            Seq::new(
                m.len(),
                |i: int|
                    if 0 <= i < m.len() {
                        (
                            m[i].0,
                            if is_leaf(m[i].1) {
                                leaf_patched(m[i].0, m[i].1, sp, np)
                            } else {
                                patched(m[i].1, sp, np)
                            },
                        )
                    } else {
                        (Seq::empty(), JsonView::Null)
                    },
            ),
        ),
        JsonView::Array(items) => JsonView::Array(
            Seq::new(
                items.len(),
                |i: int|
                    if 0 <= i < items.len() {
                        patched(items[i], sp, np)
                    } else {
                        JsonView::Null
                    },
            ),
        ),
        _ => v,
    }
}

fn leaf_patch_of(key: &str, v: &JsonValue, sp: &[(&str, &str)], np: &[(&str, i64)]) -> (r: JsonValue)
    ensures
        r@ == leaf_patched(key@, v@, sp.deep_view(), np.deep_view()),
{
    let ghost spv = sp.deep_view();
    let ghost npv = np.deep_view();
    let mut cur = v.duplicate();
    let mut i: usize = 0;
    while i < sp.len()
        invariant
            i <= sp@.len(),
            spv == sp.deep_view(),
            str_patched(key@, v@, spv, 0) == str_patched(key@, cur@, spv, i as int),
        decreases sp.len() - i,
    {
        let is_str = match &cur {
            JsonValue::Str(_) => true,
            _ => false,
        };
        if str_eq(sp[i].0, key) && is_str {
            cur = JsonValue::Str(to_owned_string(sp[i].1));
        }
        i = i + 1;
    }
    let ghost mid = cur@;
    let mut j: usize = 0;
    while j < np.len()
        invariant
            j <= np@.len(),
            npv == np.deep_view(),
            num_patched(key@, mid, npv, 0) == num_patched(key@, cur@, npv, j as int),
        decreases np.len() - j,
    {
        let is_num = match &cur {
            JsonValue::Number(_) => true,
            _ => false,
        };
        if str_eq(np[j].0, key) && is_num {
            let mut t = String::new();
            push_i64(&mut t, np[j].1);
            cur = JsonValue::Number(t);
        }
        j = j + 1;
    }
    cur
}

/// `v` with the field patches applied (see [`patched`]).
pub fn patch_fields(v: &JsonValue, sp: &[(&str, &str)], np: &[(&str, i64)]) -> (r: JsonValue)
    ensures
        r@ == patched(v@, sp.deep_view(), np.deep_view()),
    decreases v,
{
    match v {
        JsonValue::Array(items) => {
            let mut out: Vec<JsonValue> = Vec::new();
            let mut i: usize = 0;
            while i < items.len()
                invariant
                    i <= items@.len(),
                    *v == JsonValue::Array(*items),
                    out@.len() == i,
                    forall|k: int|
                        0 <= k < i ==> #[trigger] view_of(out@[k]) == patched(
                            view_of(items@[k]),
                            sp.deep_view(),
                            np.deep_view(),
                        ),
                decreases items.len() - i,
            {
                proof {
                    assert(decreases_to!(*v => (*v)->Array_0));
                    assert(decreases_to!((*v)->Array_0 => (*v)->Array_0@));
                    assert(decreases_to!((*v)->Array_0@ => (*v)->Array_0@[i as int]));
                }
                let x = patch_fields(&items[i], sp, np);
                out.push(x);
                i = i + 1;
            }
            proof {
                lemma_array_view(out);
                lemma_array_view(*items);
                let pv = patched(v@, sp.deep_view(), np.deep_view());
                assert(pv is Array);
                assert(item_views(out@) =~= pv->Array_0);
            }
            JsonValue::Array(out)
        },
        JsonValue::Object(m) => {
            let mut out: Vec<(String, JsonValue)> = Vec::new();
            let mut i: usize = 0;
            while i < m.len()
                invariant
                    i <= m@.len(),
                    *v == JsonValue::Object(*m),
                    out@.len() == i,
                    forall|k: int|
                        0 <= k < i ==> #[trigger] out@[k].0@ == m@[k].0@ && view_of(out@[k].1) == (if is_leaf(
                            view_of(m@[k].1),
                        ) {
                            leaf_patched(m@[k].0@, view_of(m@[k].1), sp.deep_view(), np.deep_view())
                        } else {
                            patched(view_of(m@[k].1), sp.deep_view(), np.deep_view())
                        }),
                decreases m.len() - i,
            {
                proof {
                    assert(decreases_to!(*v => (*v)->Object_0));
                    assert(decreases_to!((*v)->Object_0 => (*v)->Object_0@));
                    assert(decreases_to!((*v)->Object_0@ => (*v)->Object_0@[i as int]));
                    assert(decreases_to!((*v)->Object_0@[i as int] => (*v)->Object_0@[i as int].1));
                }
                let child = &m[i].1;
                let leaf = match child {
                    JsonValue::Str(_) => true,
                    JsonValue::Number(_) => true,
                    _ => false,
                };
                let x = if leaf {
                    leaf_patch_of(m[i].0.as_str(), child, sp, np)
                } else {
                    patch_fields(child, sp, np)
                };
                out.push((to_owned_string(m[i].0.as_str()), x));
                i = i + 1;
            }
            proof {
                lemma_object_view(out);
                lemma_object_view(*m);
                let pv = patched(v@, sp.deep_view(), np.deep_view());
                assert(pv is Object);
                assert(member_views(out@) =~= pv->Object_0);
            }
            JsonValue::Object(out)
        },
        _ => v.duplicate(),
    }
}

// ───────────────────────── replacing one URL ─────────────────────────

/// `v` with every string equal to `old` replaced by `new`, at any depth.
pub open spec fn url_replaced(v: JsonView, old: Seq<char>, new: Seq<char>) -> JsonView
    decreases v,
{
    match v {
        JsonView::Str(s) => if s == old {
            JsonView::Str(new)
        } else {
            v
        },
        JsonView::Array(items) => JsonView::Array(
            Seq::new(
                items.len(),
                |i: int|
                    if 0 <= i < items.len() {
                        url_replaced(items[i], old, new)
                    } else {
                        JsonView::Null
                    },
            ),
        ),
        JsonView::Object(m) => JsonView::Object(
            Seq::new(
                m.len(),
                |i: int|
                    if 0 <= i < m.len() {
                        (m[i].0, url_replaced(m[i].1, old, new))
                    } else {
                        (Seq::empty(), JsonView::Null)
                    },
            ),
        ),
        _ => v,
    }
}

/// `v` with [`url_replaced`] applied.
pub fn replace_exact_string(v: &JsonValue, old: &str, new: &str) -> (r: JsonValue)
    ensures
        r@ == url_replaced(v@, old@, new@),
    decreases v,
{
    match v {
        JsonValue::Str(s) => {
            if str_eq(s.as_str(), old) {
                JsonValue::Str(to_owned_string(new))
            } else {
                JsonValue::Str(to_owned_string(s.as_str()))
            }
        },
        JsonValue::Array(items) => {
            let mut out: Vec<JsonValue> = Vec::new();
            let mut i: usize = 0;
            while i < items.len()
                invariant
                    i <= items@.len(),
                    *v == JsonValue::Array(*items),
                    out@.len() == i,
                    forall|k: int| 0 <= k < i ==> #[trigger] view_of(out@[k]) == url_replaced(view_of(items@[k]), old@, new@),
                decreases items.len() - i,
            {
                proof {
                    assert(decreases_to!(*v => (*v)->Array_0));
                    assert(decreases_to!((*v)->Array_0 => (*v)->Array_0@));
                    assert(decreases_to!((*v)->Array_0@ => (*v)->Array_0@[i as int]));
                }
                let x = replace_exact_string(&items[i], old, new);
                out.push(x);
                i = i + 1;
            }
            proof {
                lemma_array_view(out);
                lemma_array_view(*items);
                let rv = url_replaced(v@, old@, new@);
                assert(rv is Array);
                assert(item_views(out@) =~= rv->Array_0);
            }
            JsonValue::Array(out)
        },
        JsonValue::Object(m) => {
            let mut out: Vec<(String, JsonValue)> = Vec::new();
            let mut i: usize = 0;
            while i < m.len()
                invariant
                    i <= m@.len(),
                    *v == JsonValue::Object(*m),
                    out@.len() == i,
                    forall|k: int|
                        0 <= k < i ==> #[trigger] out@[k].0@ == m@[k].0@ && view_of(out@[k].1) == url_replaced(
                            view_of(m@[k].1),
                            old@,
                            new@,
                        ),
                decreases m.len() - i,
            {
                proof {
                    assert(decreases_to!(*v => (*v)->Object_0));
                    assert(decreases_to!((*v)->Object_0 => (*v)->Object_0@));
                    assert(decreases_to!((*v)->Object_0@ => (*v)->Object_0@[i as int]));
                    assert(decreases_to!((*v)->Object_0@[i as int] => (*v)->Object_0@[i as int].1));
                }
                let x = replace_exact_string(&m[i].1, old, new);
                out.push((to_owned_string(m[i].0.as_str()), x));
                i = i + 1;
            }
            proof {
                lemma_object_view(out);
                lemma_object_view(*m);
                let rv = url_replaced(v@, old@, new@);
                assert(rv is Object);
                assert(member_views(out@) =~= rv->Object_0);
            }
            JsonValue::Object(out)
        },
        _ => v.duplicate(),
    }
}

} // verus!
