//! A JSON value tree owned by the library, with lookups that mirror how the
//! agent reads the loosely-typed documents a language model produces.
use crate::text::str_eq;
use vstd::prelude::*;

verus! {

/// A JSON value. A number is an `Int` when it is an integer that fits in
/// `i64`; any other number is kept as the text of its numeral.
#[derive(Debug)]
pub enum Json {
    Null,
    Bool(bool),
    Int(i64),
    Number(String),
    Str(String),
    Array(Vec<Json>),
    Object(Vec<(String, Json)>),
}

/// The mathematical form of a JSON value.
pub ghost enum JsonView {
    Null,
    Bool(bool),
    Int(i64),
    Number(Seq<char>),
    Str(Seq<char>),
    Array(Seq<JsonView>),
    Object(Seq<(Seq<char>, JsonView)>),
}

/// The view of a JSON value, item by item.
pub open spec fn json_view(j: Json) -> JsonView
    decreases j,
{
    match j {
        Json::Null => JsonView::Null,
        Json::Bool(b) => JsonView::Bool(b),
        Json::Int(n) => JsonView::Int(n),
        Json::Number(t) => JsonView::Number(t@),
        Json::Str(s) => JsonView::Str(s@),
        Json::Array(items) => JsonView::Array(
            Seq::new(
                items@.len(),
                |i: int|
                    if 0 <= i < items@.len() {
                        proof {
                            vstd::std_specs::vec::axiom_vec_index_decreases(items, i);
                        }
                        json_view(items@[i])
                    } else {
                        JsonView::Null
                    },
            ),
        ),
        Json::Object(entries) => JsonView::Object(
            Seq::new(
                entries@.len(),
                |i: int|
                    if 0 <= i < entries@.len() {
                        proof {
                            vstd::std_specs::vec::axiom_vec_index_decreases(entries, i);
                        }
                        (entries@[i].0@, json_view(entries@[i].1))
                    } else {
                        (Seq::empty(), JsonView::Null)
                    },
            ),
        ),
    }
}

impl View for Json {
    type V = JsonView;

    open spec fn view(&self) -> JsonView {
        json_view(*self)
    }
}

#[verifier::external_type_specification]
#[verifier::external_body]
pub struct ExValue(serde_json::Value);

/// What `serde_json::from_str` yields for a text: `None` when the text is
/// not one JSON value.
pub uninterp spec fn parsed_json(text: Seq<char>) -> Option<JsonView>;

/// The view of an optional value.
pub open spec fn opt_view(o: Option<Json>) -> Option<JsonView> {
    match o {
        Some(j) => Some(j@),
        None => None,
    }
}

/// The views of a list of values.
pub open spec fn items_view(items: Seq<Json>) -> Seq<JsonView> {
    items.map_values(|j: Json| j@)
}

/// Relies on `serde_json::from_str::<serde_json::Value>`: the outcome depends
/// on the text alone.
#[verifier::external_body]
pub(crate) fn parse_json(text: &str) -> (r: Option<Json>)
    ensures
        opt_view(r) == parsed_json(text@),
{
    serde_json::from_str::<serde_json::Value>(text).ok().map(|v| json_from_value(&v))
}

/// Relies on the variants of `serde_json::Value`: each becomes the variant of
/// the same name, objects in map order; a number becomes an `Int` when
/// `Number::as_i64` gives its value, and otherwise keeps the text that
/// `Number`'s `Display` writes.
#[verifier::external_body]
fn json_from_value(v: &serde_json::Value) -> Json {
    match v {
        serde_json::Value::Null => Json::Null,
        serde_json::Value::Bool(b) => Json::Bool(*b),
        serde_json::Value::Number(n) => match n.as_i64() {
            Some(i) => Json::Int(i),
            None => Json::Number(n.to_string()),
        },
        serde_json::Value::String(s) => Json::Str(s.clone()),
        serde_json::Value::Array(a) => Json::Array(a.iter().map(json_from_value).collect()),
        serde_json::Value::Object(o) => Json::Object(
            o.iter().map(|(k, x)| (k.clone(), json_from_value(x))).collect(),
        ),
    }
}

/// The text that `serde_json::to_string_pretty` writes for a value.
pub uninterp spec fn printed_json(j: JsonView) -> Seq<char>;

/// Relies on `serde_json::to_string_pretty` of the `serde_json::Value` built
/// variant by variant: the text depends on the value alone. A value holds
/// only string keys, so writing it cannot fail.
#[verifier::external_body]
pub(crate) fn json_text(j: &Json) -> (r: String)
    ensures
        r@ == printed_json(j@),
{
    serde_json::to_string_pretty(&json_to_value(j)).unwrap_or_default()
}

/// Relies on the variants of `serde_json::Value`: each variant of the same
/// name, an `Int` through `Value::from`, a numeral through `Number`'s
/// `FromStr` (`null` if it does not read as a number).
#[verifier::external_body]
fn json_to_value(j: &Json) -> serde_json::Value {
    match j {
        Json::Null => serde_json::Value::Null,
        Json::Bool(b) => serde_json::Value::Bool(*b),
        Json::Int(n) => serde_json::Value::from(*n),
        Json::Number(t) => t.parse::<serde_json::Number>().map(serde_json::Value::Number).unwrap_or(
            serde_json::Value::Null,
        ),
        Json::Str(s) => serde_json::Value::String(s.clone()),
        Json::Array(a) => serde_json::Value::Array(a.iter().map(json_to_value).collect()),
        Json::Object(o) => serde_json::Value::Object(
            o.iter().map(|(k, x)| (k.clone(), json_to_value(x))).collect(),
        ),
    }
}

/// The value of the first entry whose key is `key`.
pub open spec fn entries_get(entries: Seq<(Seq<char>, JsonView)>, key: Seq<char>) -> Option<JsonView>
    decreases entries.len(),
{
    if entries.len() == 0 {
        None
    } else if entries[0].0 == key {
        Some(entries[0].1)
    } else {
        entries_get(entries.drop_first(), key)
    }
}

/// `j[key]` when `j` is an object holding `key`.
pub open spec fn json_get(j: JsonView, key: Seq<char>) -> Option<JsonView> {
    match j {
        JsonView::Object(entries) => entries_get(entries, key),
        _ => None,
    }
}

/// The characters of a string value.
pub open spec fn json_as_str(j: Option<JsonView>) -> Option<Seq<char>> {
    match j {
        Some(JsonView::Str(s)) => Some(s),
        _ => None,
    }
}

/// The value of an integer that fits in `i64`.
pub open spec fn json_as_int(j: Option<JsonView>) -> Option<i64> {
    match j {
        Some(JsonView::Int(n)) => Some(n),
        _ => None,
    }
}

/// The items of an array value.
pub open spec fn json_as_array(j: Option<JsonView>) -> Option<Seq<JsonView>> {
    match j {
        Some(JsonView::Array(items)) => Some(items),
        _ => None,
    }
}

/// Whether a value is an object.
pub open spec fn json_is_object(j: Option<JsonView>) -> bool {
    j matches Some(JsonView::Object(_))
}

/// The string under `key`.
pub open spec fn str_field(j: JsonView, key: Seq<char>) -> Option<Seq<char>> {
    json_as_str(json_get(j, key))
}

/// The `i64` under `key`.
pub open spec fn int_field(j: JsonView, key: Seq<char>) -> Option<i64> {
    json_as_int(json_get(j, key))
}

/// The items of the array under `key`.
pub open spec fn array_field(j: JsonView, key: Seq<char>) -> Option<Seq<JsonView>> {
    json_as_array(json_get(j, key))
}

proof fn lemma_entries_get_skip(entries: Seq<(Seq<char>, JsonView)>, i: int, key: Seq<char>)
    requires
        0 <= i < entries.len(),
        entries[i].0 != key,
    ensures
        entries_get(entries.subrange(i, entries.len() as int), key) == entries_get(
            entries.subrange(i + 1, entries.len() as int),
            key,
        ),
{
    assert(entries.subrange(i, entries.len() as int).drop_first() =~= entries.subrange(
        i + 1,
        entries.len() as int,
    ));
}

/// The value under a key is that of the first entry holding the key.
pub proof fn lemma_entries_get_at(entries: Seq<(Seq<char>, JsonView)>, i: int, key: Seq<char>)
    requires
        0 <= i < entries.len(),
        entries[i].0 == key,
        forall|k: int| 0 <= k < i ==> entries[k].0 != key,
    ensures
        entries_get(entries, key) == Some(entries[i].1),
    decreases i,
{
    if i > 0 {
        let rest = entries.drop_first();
        assert forall|k: int| 0 <= k < i - 1 implies rest[k].0 != key by {
            assert(rest[k] == entries[k + 1]);
        }
        lemma_entries_get_at(rest, i - 1, key);
    }
}

/// The view of an array is the list of its items' views.
pub proof fn lemma_array_view(items: Vec<Json>)
    ensures
        Json::Array(items)@ == JsonView::Array(items_view(items@)),
{
    assert(Json::Array(items)@->Array_0 =~= items_view(items@));
}

impl Json {
    /// The value that a JSON text holds, or `None` when it holds none.
    pub fn parse(text: &str) -> (r: Option<Json>)
        ensures
            opt_view(r) == parsed_json(text@),
    {
        parse_json(text)
    }

    /// This value written as indented JSON text.
    pub fn to_text(&self) -> (r: String)
        ensures
            r@ == printed_json(self@),
    {
        json_text(self)
    }

    /// `self[key]`: the value under `key` when `self` is an object holding it.
    pub fn get(&self, key: &str) -> (r: Option<&Json>)
        ensures
            match r {
                Some(v) => json_get(self@, key@) == Some(v@),
                None => json_get(self@, key@) is None,
            },
    {
        match self {
            Json::Object(entries) => {
                let ghost ev = self@->Object_0;
                assert(ev.len() == entries@.len());
                assert(ev.subrange(0, ev.len() as int) =~= ev);
                let mut i: usize = 0;
                while i < entries.len()
                    invariant
                        ev.len() == entries@.len(),
                        forall|k: int|
                            0 <= k < ev.len() ==> #[trigger] ev[k] == (
                                entries@[k].0@,
                                entries@[k].1@,
                            ),
                        i <= entries@.len(),
                        json_get(self@, key@) == entries_get(
                            ev.subrange(i as int, ev.len() as int),
                            key@,
                        ),
                    decreases entries.len() - i,
                {
                    assert(ev[i as int] == (entries@[i as int].0@, entries@[i as int].1@));
                    if str_eq(entries[i].0.as_str(), key) {
                        let ghost rest = ev.subrange(i as int, ev.len() as int);
                        assert(rest[0] == ev[i as int]);
                        assert(entries_get(rest, key@) == Some(rest[0].1));
                        return Some(&entries[i].1);
                    }
                    proof {
                        lemma_entries_get_skip(ev, i as int, key@);
                    }
                    i = i + 1;
                }
                None
            },
            _ => None,
        }
    }

    /// The string under `key`, if there is one.
    pub fn str_at(&self, key: &str) -> (r: Option<&str>)
        ensures
            match r {
                Some(s) => str_field(self@, key@) == Some(s@),
                None => str_field(self@, key@) is None,
            },
    {
        match self.get(key) {
            Some(Json::Str(s)) => Some(s.as_str()),
            _ => None,
        }
    }

    /// The `i64` under `key`, if there is one.
    pub fn int_at(&self, key: &str) -> (r: Option<i64>)
        ensures
            r == int_field(self@, key@),
    {
        match self.get(key) {
            Some(Json::Int(n)) => Some(*n),
            _ => None,
        }
    }

    /// The items of the array under `key`, if there is one.
    pub fn array_at(&self, key: &str) -> (r: Option<&Vec<Json>>)
        ensures
            match r {
                Some(v) => array_field(self@, key@) == Some(items_view(v@)),
                None => array_field(self@, key@) is None,
            },
    {
        match self.get(key) {
            Some(Json::Array(items)) => {
                proof {
                    lemma_array_view(*items);
                }
                Some(items)
            },
            _ => None,
        }
    }
}

/// A copy of a JSON value.
pub fn copy_json(j: &Json) -> (r: Json)
    ensures
        r@ == j@,
    decreases j,
{
    match j {
        Json::Null => Json::Null,
        Json::Bool(b) => Json::Bool(*b),
        Json::Int(n) => Json::Int(*n),
        Json::Number(t) => Json::Number(t.clone()),
        Json::Str(s) => Json::Str(s.clone()),
        Json::Array(items) => {
            let mut out: Vec<Json> = Vec::new();
            let mut i: usize = 0;
            while i < items.len()
                invariant
                    *j == Json::Array(*items),
                    i <= items@.len(),
                    out@.len() == i,
                    forall|k: int| 0 <= k < i ==> (#[trigger] out@[k])@ == items@[k]@,
                decreases items.len() - i,
            {
                proof {
                    vstd::std_specs::vec::axiom_vec_index_decreases(*items, i as int);
                    assert(decreases_to!(*j => (*j)->Array_0));
                    assert(decreases_to!(*items => items[i as int]));
                }
                out.push(copy_json(&items[i]));
                i = i + 1;
            }
            let r = Json::Array(out);
            proof {
                lemma_array_view(out);
                lemma_array_view(*items);
                assert(items_view(out@) =~= items_view(items@));
            }
            r
        },
        Json::Object(entries) => {
            let mut out: Vec<(String, Json)> = Vec::new();
            let mut i: usize = 0;
            while i < entries.len()
                invariant
                    *j == Json::Object(*entries),
                    i <= entries@.len(),
                    out@.len() == i,
                    forall|k: int|
                        0 <= k < i ==> (#[trigger] out@[k]).0@ == entries@[k].0@ && out@[k].1@
                            == entries@[k].1@,
                decreases entries.len() - i,
            {
                proof {
                    vstd::std_specs::vec::axiom_vec_index_decreases(*entries, i as int);
                    assert(decreases_to!(*j => (*j)->Object_0));
                    assert(decreases_to!(*entries => entries[i as int]));
                    assert(decreases_to!(entries[i as int] => entries[i as int].1));
                }
                let v = copy_json(&entries[i].1);
                out.push((entries[i].0.clone(), v));
                i = i + 1;
            }
            let r = Json::Object(out);
            assert(r@->Object_0 =~= j@->Object_0);
            r
        },
    }
}

} // verus!
