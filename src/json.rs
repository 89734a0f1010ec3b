//! Structured values as the protocol carries them, and the lookups that
//! replies and events need.
use vstd::prelude::*;

verus! {

/// A structured value in mathematical form.
pub enum Json {
    Null,
    Bool(bool),
    Int(int),
    Num(Seq<char>),
    Str(Seq<char>),
    Array(Seq<Json>),
    Object(Seq<(Seq<char>, Json)>),
}

/// A structured value (object, array, string, number, bool or null).
/// An object keeps its fields in order.
#[derive(Debug, PartialEq)]
pub enum JsonValue {
    Null,
    Bool(bool),
    Int(i64),
    /// A number that is not an `i64`, kept in its decimal text form.
    Num(String),
    Str(String),
    Array(Vec<JsonValue>),
    Object(Vec<(String, JsonValue)>),
}

impl View for JsonValue {
    type V = Json;

    open spec fn view(&self) -> Json {
        json_view(*self)
    }
}

/// The mathematical form of a value.
pub open spec fn json_view(v: JsonValue) -> Json
    decreases v,
{
    match v {
        JsonValue::Null => Json::Null,
        JsonValue::Bool(b) => Json::Bool(b),
        JsonValue::Int(n) => Json::Int(n as int),
        JsonValue::Num(s) => Json::Num(s@),
        JsonValue::Str(s) => Json::Str(s@),
        JsonValue::Array(a) => Json::Array(views_of(a@)),
        JsonValue::Object(f) => Json::Object(field_views_of(f@)),
    }
}

/// The mathematical form of each value of a sequence.
pub open spec fn views_of(s: Seq<JsonValue>) -> Seq<Json>
    decreases s,
{
    if s.len() == 0 {
        Seq::empty()
    } else {
        views_of(s.drop_last()).push(json_view(s.last()))
    }
}

/// The mathematical form of each field of a sequence.
pub open spec fn field_views_of(s: Seq<(String, JsonValue)>) -> Seq<(Seq<char>, Json)>
    decreases s,
{
    if s.len() == 0 {
        Seq::empty()
    } else {
        field_views_of(s.drop_last()).push((s.last().0@, json_view(s.last().1)))
    }
}

proof fn lemma_views_of(s: Seq<JsonValue>)
    ensures
        views_of(s).len() == s.len(),
        forall|i: int| 0 <= i < s.len() ==> #[trigger] views_of(s)[i] == json_view(s[i]),
    decreases s.len(),
{
    if s.len() > 0 {
        lemma_views_of(s.drop_last());
    }
}

proof fn lemma_field_views_of(s: Seq<(String, JsonValue)>)
    ensures
        field_views_of(s).len() == s.len(),
        forall|i: int|
            0 <= i < s.len() ==> #[trigger] field_views_of(s)[i] == (s[i].0@, json_view(s[i].1)),
    decreases s.len(),
{
    if s.len() > 0 {
        lemma_field_views_of(s.drop_last());
    }
}

/// The value of the first field named `key`, if any.
pub open spec fn field_of(fields: Seq<(Seq<char>, Json)>, key: Seq<char>) -> Option<Json>
    decreases fields.len(),
{
    if fields.len() == 0 {
        None
    } else if fields[0].0 == key {
        Some(fields[0].1)
    } else {
        field_of(fields.drop_first(), key)
    }
}

/// `v[key]`: the field named `key` of an object.
pub open spec fn json_get(v: Json, key: Seq<char>) -> Option<Json> {
    match v {
        Json::Object(f) => field_of(f, key),
        _ => None,
    }
}

/// `v[i]`: the element at `i` of an array.
pub open spec fn json_at(v: Json, i: int) -> Option<Json> {
    match v {
        Json::Array(a) => if 0 <= i < a.len() {
            Some(a[i])
        } else {
            None
        },
        _ => None,
    }
}

/// The integer a value holds, if it is one that fits in an `i64`.
pub open spec fn json_i64(v: Json) -> Option<i64> {
    match v {
        Json::Int(n) => if i64::MIN <= n <= i64::MAX {
            Some(n as i64)
        } else {
            None
        },
        _ => None,
    }
}

/// The integer at `v`, if `v` is present and holds one.
pub open spec fn opt_i64(v: Option<Json>) -> Option<i64> {
    match v {
        Some(j) => json_i64(j),
        None => None,
    }
}

/// The request envelope: `{"method": method, "params": params}`.
pub open spec fn request_spec(method: Seq<char>, params: Seq<(Seq<char>, Json)>) -> Json {
    Json::Object(seq![("method"@, Json::Str(method)), ("params"@, Json::Object(params))])
}

proof fn lemma_field_of_skip(fields: Seq<(Seq<char>, Json)>, key: Seq<char>, i: int)
    requires
        0 <= i <= fields.len(),
        forall|j: int| 0 <= j < i ==> fields[j].0 != key,
    ensures
        field_of(fields, key) == field_of(fields.subrange(i, fields.len() as int), key),
    decreases i,
{
    if i > 0 {
        lemma_field_of_skip(fields.drop_first(), key, i - 1);
        assert(fields.drop_first().subrange(i - 1, fields.drop_first().len() as int) =~= fields.subrange(
            i,
            fields.len() as int,
        ));
    } else {
        assert(fields.subrange(0, fields.len() as int) =~= fields);
    }
}

impl JsonValue {
    /// A string value.
    pub fn string(s: &str) -> (r: JsonValue)
        ensures
            r@ == Json::Str(s@),
    {
        JsonValue::Str(s.to_owned())
    }

    /// An array of strings.
    pub fn string_list(items: &[&str]) -> (r: JsonValue)
        ensures
            r@ == Json::Array(Seq::new(items@.len(), |i: int| Json::Str(items@[i]@))),
    {
        let mut a: Vec<JsonValue> = Vec::new();
        let mut i: usize = 0;
        while i < items.len()
            invariant
                i <= items@.len(),
                a@.len() == i,
                forall|j: int| 0 <= j < i ==> (#[trigger] a@[j])@ == Json::Str(items@[j]@),
            decreases items@.len() - i,
        {
            a.push(JsonValue::string(items[i]));
            i += 1;
        }
        let r = JsonValue::Array(a);
        proof {
            lemma_views_of(a@);
            assert(views_of(a@) =~= Seq::new(items@.len(), |i: int| Json::Str(items@[i]@)));
        }
        r
    }

    /// An object with the given fields, in order.
    pub fn object(fields: Vec<(String, JsonValue)>) -> (r: JsonValue)
        ensures
            r@ == Json::Object(field_views_of(fields@)),
    {
        JsonValue::Object(fields)
    }

    /// The integer this value holds, if it is an integer that fits in an `i64`.
    pub fn as_i64(&self) -> (r: Option<i64>)
        ensures
            r == json_i64(self@),
    {
        match self {
            JsonValue::Int(n) => Some(*n),
            _ => None,
        }
    }

    /// The boolean this value holds, if it is one.
    pub fn as_bool(&self) -> (r: Option<bool>)
        ensures
            r == (match self@ {
                Json::Bool(b) => Some(b),
                _ => None,
            }),
    {
        match self {
            JsonValue::Bool(b) => Some(*b),
            _ => None,
        }
    }

    /// The text this value holds, if it is a string.
    pub fn as_str(&self) -> (r: Option<&str>)
        ensures
            r is Some <==> self@ is Str,
            r is Some ==> self@ == Json::Str(r->Some_0@),
    {
        match self {
            JsonValue::Str(s) => Some(s.as_str()),
            _ => None,
        }
    }

    /// The element at `i`, if this value is an array with more than `i` elements.
    pub fn at(&self, i: usize) -> (r: Option<&JsonValue>)
        ensures
            r is Some <==> json_at(self@, i as int) is Some,
            r is Some ==> json_at(self@, i as int) == Some(r->Some_0@),
    {
        match self {
            JsonValue::Array(a) => {
                proof {
                    lemma_views_of(a@);
                }
                if i < a.len() {
                    Some(&a[i])
                } else {
                    None
                }
            },
            _ => None,
        }
    }

    /// The first field named `key`, if this value is an object that has one.
    pub fn get(&self, key: &str) -> (r: Option<&JsonValue>)
        ensures
            r is Some <==> json_get(self@, key@) is Some,
            r is Some ==> json_get(self@, key@) == Some(r->Some_0@),
    {
        match self {
            JsonValue::Object(f) => {
                let k = key.to_owned();
                let ghost fv = field_views_of(f@);
                proof {
                    lemma_field_views_of(f@);
                }
                assert(self@ == Json::Object(fv));
                let mut i: usize = 0;
                while i < f.len()
                    invariant
                        i <= f@.len(),
                        fv == field_views_of(f@),
                        self@ == Json::Object(fv),
                        fv.len() == f@.len(),
                        forall|j: int| 0 <= j < f@.len() ==> #[trigger] fv[j] == (f@[j].0@, json_view(f@[j].1)),
                        k@ == key@,
                        forall|j: int| 0 <= j < i ==> fv[j].0 != key@,
                    decreases f@.len() - i,
                {
                    if f[i].0 == k {
                        proof {
                            lemma_field_of_skip(fv, key@, i as int);
                            let rest = fv.subrange(i as int, fv.len() as int);
                            assert(rest.len() > 0);
                            assert(rest[0] == fv[i as int]);
                            assert(fv[i as int].0 == key@);
                            assert(field_of(rest, key@) == Some(fv[i as int].1));
                        }
                        return Some(&f[i].1);
                    }
                    i += 1;
                }
                proof {
                    lemma_field_of_skip(fv, key@, i as int);
                    assert(fv.subrange(i as int, fv.len() as int).len() == 0);
                }
                None
            },
            _ => None,
        }
    }
}

/// Builds a named field of an object.
pub fn field(key: &str, value: JsonValue) -> (r: (String, JsonValue))
    ensures
        r.0@ == key@,
        r.1 == value,
{
    (key.to_owned(), value)
}

/// Builds the request envelope `{"method": method, "params": params}`.
pub fn request(method: &str, params: Vec<(String, JsonValue)>) -> (r: JsonValue)
    ensures
        r@ == request_spec(method@, field_views_of(params@)),
{
    let p = JsonValue::object(params);
    let mut top: Vec<(String, JsonValue)> = Vec::new();
    top.push(field("method", JsonValue::string(method)));
    top.push(field("params", p));
    proof {
        lemma_field_views_of(top@);
        assert(field_views_of(top@) =~= seq![("method"@, Json::Str(method@)), ("params"@, p@)]);
    }
    JsonValue::object(top)
}

} // verus!
