//! Remote calls as values: what the facade asks the host, and how the
//! handles in the host's replies are read.
use vstd::prelude::*;
use crate::error::GuiError;
use crate::json::{
    field, field_views_of, json_at, json_get, json_i64, opt_i64, request, request_spec, Json,
    JsonValue,
};

verus! {

/// A request for the command stream, and whether the host answers it.
#[derive(Debug)]
pub struct Call {
    pub message: JsonValue,
    /// Whether one reply must be read right after the request.
    pub wait: bool,
}

/// `c` is the request `{"method": method, "params": params}`, awaiting a
/// reply exactly when `wait`.
pub open spec fn is_call(c: Call, method: Seq<char>, params: Seq<(Seq<char>, Json)>, wait: bool) -> bool {
    c.message@ == request_spec(method, params) && c.wait == wait
}

pub open spec fn int_field(key: Seq<char>, n: int) -> (Seq<char>, Json) {
    (key, Json::Int(n))
}

pub open spec fn bool_field(key: Seq<char>, b: bool) -> (Seq<char>, Json) {
    (key, Json::Bool(b))
}

pub open spec fn str_field(key: Seq<char>, s: Seq<char>) -> (Seq<char>, Json) {
    (key, Json::Str(s))
}

/// An array of strings.
pub open spec fn str_list(items: Seq<&str>) -> Json {
    Json::Array(Seq::new(items.len(), |i: int| Json::Str(items[i]@)))
}

/// The given parent, or the activity itself where none is given.
pub open spec fn parent_or(parent: Option<i64>, aid: i64) -> i64 {
    match parent {
        Some(p) => p,
        None => aid,
    }
}

/// The parameters that address view `id` of activity `aid`.
pub open spec fn target(aid: i64, id: i64) -> Seq<(Seq<char>, Json)> {
    seq![int_field("aid"@, aid as int), int_field("id"@, id as int)]
}

/// `params`, with a `parent` field where a parent is given.
pub open spec fn with_parent(params: Seq<(Seq<char>, Json)>, parent: Option<i64>) -> Seq<
    (Seq<char>, Json),
> {
    match parent {
        Some(p) => params.push(int_field("parent"@, p as int)),
        None => params,
    }
}

proof fn lemma_field_views_push(s: Seq<(String, JsonValue)>, x: (String, JsonValue))
    ensures
        field_views_of(s.push(x)) == field_views_of(s).push((x.0@, x.1@)),
{
    assert(s.push(x).drop_last() =~= s);
}

/// The parameters of a request, built field by field.
pub struct Params {
    fields: Vec<(String, JsonValue)>,
}

impl View for Params {
    type V = Seq<(Seq<char>, Json)>;

    closed spec fn view(&self) -> Seq<(Seq<char>, Json)> {
        field_views_of(self.fields@)
    }
}

impl Params {
    /// No parameters.
    pub fn new() -> (r: Params)
        ensures
            r@ == Seq::<(Seq<char>, Json)>::empty(),
    {
        Params { fields: Vec::new() }
    }

    /// The parameters that address view `id` of activity `aid`.
    pub fn target(aid: i64, id: i64) -> (r: Params)
        ensures
            r@ == target(aid, id),
    {
        let mut p = Params::new();
        p.add_int("aid", aid);
        p.add_int("id", id);
        assert(p@ =~= target(aid, id));
        p
    }

    /// Appends the field `key: value`.
    pub fn add(&mut self, key: &str, value: JsonValue)
        ensures
            final(self)@ == old(self)@.push((key@, value@)),
    {
        let f = field(key, value);
        proof {
            lemma_field_views_push(self.fields@, f);
        }
        self.fields.push(f);
    }

    pub fn add_int(&mut self, key: &str, n: i64)
        ensures
            final(self)@ == old(self)@.push(int_field(key@, n as int)),
    {
        self.add(key, JsonValue::Int(n));
    }

    pub fn add_bool(&mut self, key: &str, b: bool)
        ensures
            final(self)@ == old(self)@.push(bool_field(key@, b)),
    {
        self.add(key, JsonValue::Bool(b));
    }

    pub fn add_str(&mut self, key: &str, s: &str)
        ensures
            final(self)@ == old(self)@.push(str_field(key@, s@)),
    {
        self.add(key, JsonValue::string(s));
    }

    /// Appends a `parent` field where a parent is given.
    pub fn add_parent(&mut self, parent: Option<i64>)
        ensures
            final(self)@ == with_parent(old(self)@, parent),
    {
        if let Some(p) = parent {
            self.add_int("parent", p);
        }
    }

    /// The request of `method` with these parameters.
    pub fn into_call(self, method: &str, wait: bool) -> (r: Call)
        ensures
            is_call(r, method@, self@, wait),
    {
        Call { message: request(method, self.fields), wait }
    }
}

/// Where a creation reply carries the new handle. The host answers the
/// creation methods in different shapes, so each method names its own.
#[derive(Debug, Clone, Copy, PartialEq, Eq, Structural)]
pub enum HandleShape {
    /// The reply is the handle itself.
    Bare,
    /// The reply is an array whose first element is the handle.
    FirstElement,
    /// The reply is `{"result": {"id": handle}}`.
    ResultId,
}

/// The handle that a reply of shape `shape` carries, if it does.
pub open spec fn handle_of(shape: HandleShape, reply: Json) -> Option<i64> {
    match shape {
        HandleShape::Bare => json_i64(reply),
        HandleShape::FirstElement => opt_i64(json_at(reply, 0)),
        HandleShape::ResultId => match json_get(reply, "result"@) {
            Some(r) => opt_i64(json_get(r, "id"@)),
            None => None,
        },
    }
}

/// Reads the handle from a creation reply of shape `shape`; a reply without
/// one is an `InvalidResponse`.
pub fn decode_handle(shape: HandleShape, reply: &JsonValue) -> (r: Result<i64, GuiError>)
    ensures
        r is Ok <==> handle_of(shape, reply@) is Some,
        r is Ok ==> r->Ok_0 == handle_of(shape, reply@)->Some_0,
        r is Err ==> r->Err_0 is InvalidResponse,
{
    let found = match shape {
        HandleShape::Bare => reply.as_i64(),
        HandleShape::FirstElement => match reply.at(0) {
            Some(v) => v.as_i64(),
            None => None,
        },
        HandleShape::ResultId => match reply.get("result") {
            Some(res) => match res.get("id") {
                Some(v) => v.as_i64(),
                None => None,
            },
            None => None,
        },
    };
    match found {
        Some(id) => Ok(id),
        None => Err(GuiError::InvalidResponse("reply carries no handle".to_owned())),
    }
}

/// The integer at `i` of an array reply, or zero where there is none, cut
/// to 32 bits.
pub open spec fn int_or_zero_at(reply: Json, i: int) -> i32 {
    match opt_i64(json_at(reply, i)) {
        Some(n) => n as i32,
        None => 0,
    }
}

/// Reads a pair `[a, b]` of 32-bit integers from a reply; what is missing
/// reads as zero.
pub fn decode_pair(reply: &JsonValue) -> (r: (i32, i32))
    ensures
        r == (int_or_zero_at(reply@, 0), int_or_zero_at(reply@, 1)),
{
    let a = match reply.at(0) {
        Some(v) => match v.as_i64() {
            Some(n) => n as i32,
            None => 0,
        },
        None => 0,
    };
    let b = match reply.at(1) {
        Some(v) => match v.as_i64() {
            Some(n) => n as i32,
            None => 0,
        },
        None => 0,
    };
    (a, b)
}

} // verus!
