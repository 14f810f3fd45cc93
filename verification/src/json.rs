//! JSON values as the platform reads and writes them.
use vstd::prelude::*;

verus! {

/// A JSON number: a non-negative integer, a negative integer, or another
/// number kept as its decimal text.
#[derive(Debug)]
pub enum JsonNumber {
    PosInt(u64),
    NegInt(i64),
    Float(String),
}

/// The content of a JSON number.
pub enum NumberView {
    PosInt(u64),
    NegInt(i64),
    Float(Seq<char>),
}

/// The content of a number.
pub open spec fn number_view(n: JsonNumber) -> NumberView {
    match n {
        JsonNumber::PosInt(u) => NumberView::PosInt(u),
        JsonNumber::NegInt(i) => NumberView::NegInt(i),
        JsonNumber::Float(t) => NumberView::Float(t@),
    }
}

impl JsonNumber {
    /// A copy of this number.
    pub fn duplicate(&self) -> (r: JsonNumber)
        ensures
            number_view(r) == number_view(*self),
    {
        match self {
            JsonNumber::PosInt(u) => JsonNumber::PosInt(*u),
            JsonNumber::NegInt(i) => JsonNumber::NegInt(*i),
            JsonNumber::Float(t) => JsonNumber::Float(t.clone()),
        }
    }
}

/// A JSON value; the entries of an object keep their order.
#[derive(Debug)]
pub enum JsonValue {
    Null,
    Bool(bool),
    Number(JsonNumber),
    String(String),
    Array(Vec<JsonValue>),
    Object(Vec<(String, JsonValue)>),
}

/// The mathematical content of a JSON value.
pub enum JsonView {
    Null,
    Bool(bool),
    Number(NumberView),
    Str(Seq<char>),
    Array(Seq<JsonView>),
    Object(Seq<(Seq<char>, JsonView)>),
}

/// The content of a JSON value.
pub open spec fn json_view(v: JsonValue) -> JsonView
    decreases v,
{
    match v {
        JsonValue::Null => JsonView::Null,
        JsonValue::Bool(b) => JsonView::Bool(b),
        JsonValue::Number(n) => JsonView::Number(number_view(n)),
        JsonValue::String(s) => JsonView::Str(s@),
        JsonValue::Array(a) => JsonView::Array(array_view(a@)),
        JsonValue::Object(o) => JsonView::Object(entries_view(o@)),
    }
}

/// The contents of the items of an array.
pub open spec fn array_view(s: Seq<JsonValue>) -> Seq<JsonView>
    decreases s,
{
    if s.len() == 0 {
        Seq::empty()
    } else {
        array_view(s.drop_last()).push(json_view(s.last()))
    }
}

/// The entries of an object, with the content of each value, in order.
pub open spec fn entries_view(s: Seq<(String, JsonValue)>) -> Seq<(Seq<char>, JsonView)>
    decreases s,
{
    if s.len() == 0 {
        Seq::empty()
    } else {
        entries_view(s.drop_last()).push((s.last().0@, json_view(s.last().1)))
    }
}

/// The entries of an object map one for one to their contents.
pub proof fn lemma_entries_view(s: Seq<(String, JsonValue)>)
    ensures
        entries_view(s).len() == s.len(),
        forall|i: int| 0 <= i < s.len() ==> #[trigger] entries_view(s)[i] == (s[i].0@, json_view(s[i].1)),
    decreases s.len(),
{
    if s.len() > 0 {
        lemma_entries_view(s.drop_last());
        assert forall|i: int| 0 <= i < s.len() implies #[trigger] entries_view(s)[i] == (s[i].0@, json_view(s[i].1)) by {
            if i < s.len() - 1 {
                assert(s.drop_last()[i] == s[i]);
            }
        }
    }
}

} // verus!

verus! {

/// The value of the first entry named `key` of an object's entries.
pub open spec fn entries_get(entries: Seq<(Seq<char>, JsonView)>, key: Seq<char>) -> Option<JsonView>
    decreases entries.len(),
{
    if entries.len() == 0 {
        None
    } else if entries[0].0 == key {
        Some(entries[0].1)
    } else {
        entries_get(entries.drop_first(), key)
    }
}

/// `value[key]` as `Value::get` reads it: only an object has entries.
pub open spec fn view_get(v: JsonView, key: Seq<char>) -> Option<JsonView> {
    match v {
        JsonView::Object(entries) => entries_get(entries, key),
        _ => None,
    }
}

/// The text of a string value.
pub open spec fn view_as_str(v: JsonView) -> Option<Seq<char>> {
    match v {
        JsonView::Str(s) => Some(s),
        _ => None,
    }
}

/// A number that fits in a `u64`.
pub open spec fn view_as_u64(v: JsonView) -> Option<u64> {
    match v {
        JsonView::Number(NumberView::PosInt(n)) => Some(n),
        _ => None,
    }
}

/// A boolean.
pub open spec fn view_as_bool(v: JsonView) -> Option<bool> {
    match v {
        JsonView::Bool(b) => Some(b),
        _ => None,
    }
}

/// `v.and_then(f)` for the accessors above.
pub open spec fn get_then_str(v: Option<JsonView>) -> Option<Seq<char>> {
    match v {
        Some(x) => view_as_str(x),
        None => None,
    }
}

fn entries_find<'a>(o: &'a Vec<(String, JsonValue)>, key: &str) -> (r: Option<&'a JsonValue>)
    ensures
        match r {
            Some(x) => entries_get(entries_view(o@), key@) == Some(json_view(*x)),
            None => entries_get(entries_view(o@), key@) is None,
        },
{
    proof {
        lemma_entries_view(o@);
        assert(entries_view(o@).skip(0) =~= entries_view(o@));
    }
    let mut i: usize = 0;
    while i < o.len()
        invariant
            i <= o@.len(),
            entries_view(o@).len() == o@.len(),
            entries_get(entries_view(o@), key@) == entries_get(entries_view(o@).skip(i as int), key@),
        decreases o@.len() - i,
    {
        proof {
            lemma_entries_view(o@);
        }
        let ghost rest = entries_view(o@).skip(i as int);
        assert(rest[0] == (o@[i as int].0@, json_view(o@[i as int].1)));
        assert(rest.drop_first() =~= entries_view(o@).skip(i + 1));
        if o[i].0.as_str().eq(key) {
            return Some(&o[i].1);
        }
        i = i + 1;
    }
    None
}

/// The value of the first entry named `key`.
pub fn object_get<'a>(o: &'a Vec<(String, JsonValue)>, key: &str) -> (r: Option<&'a JsonValue>)
    ensures
        match r {
            Some(x) => entries_get(entries_view(o@), key@) == Some(json_view(*x)),
            None => entries_get(entries_view(o@), key@) is None,
        },
{
    entries_find(o, key)
}

impl JsonValue {
    /// `self[key]` when `self` is an object holding `key`.
    pub fn get(&self, key: &str) -> (r: Option<&JsonValue>)
        ensures
            match r {
                Some(x) => view_get(json_view(*self), key@) == Some(json_view(*x)),
                None => view_get(json_view(*self), key@) is None,
            },
    {
        match self {
            JsonValue::Object(o) => entries_find(o, key),
            _ => None,
        }
    }

    /// The text of a string value.
    pub fn as_str(&self) -> (r: Option<&String>)
        ensures
            match r {
                Some(s) => view_as_str(json_view(*self)) == Some(s@),
                None => view_as_str(json_view(*self)) is None,
            },
    {
        match self {
            JsonValue::String(s) => Some(s),
            _ => None,
        }
    }

    /// A number that fits in a `u64`.
    pub fn as_u64(&self) -> (r: Option<u64>)
        ensures
            r == view_as_u64(json_view(*self)),
    {
        match self {
            JsonValue::Number(JsonNumber::PosInt(n)) => Some(*n),
            JsonValue::Number(_) => None,
            _ => None,
        }
    }

    /// A boolean.
    pub fn as_bool(&self) -> (r: Option<bool>)
        ensures
            r == view_as_bool(json_view(*self)),
    {
        match self {
            JsonValue::Bool(b) => Some(*b),
            _ => None,
        }
    }

    /// The entries of an object.
    pub fn as_object(&self) -> (r: Option<&Vec<(String, JsonValue)>>)
        ensures
            match r {
                Some(o) => json_view(*self) == JsonView::Object(entries_view(o@)),
                None => !(json_view(*self) is Object),
            },
    {
        match self {
            JsonValue::Object(o) => Some(o),
            _ => None,
        }
    }
}

} // verus!

verus! {

/// The JSON value type of `serde_json`.
#[verifier::external_type_specification]
#[verifier::external_body]
pub struct ExSerdeJsonValue(serde_json::Value);

/// The JSON number type of `serde_json`.
#[verifier::external_type_specification]
#[verifier::external_body]
pub struct ExSerdeJsonNumber(serde_json::Number);

/// What `serde_json` parses from the text `text`, as content; `None` when the
/// text is not JSON.
pub uninterp spec fn json_parse(text: Seq<char>) -> Option<JsonView>;

/// The compact text that `serde_json` writes for a value of content `v`.
pub uninterp spec fn json_text(v: JsonView) -> Seq<char>;

/// Moves a `serde_json::Number` into the library's number: an integer that
/// fits in a `u64`, else one that fits in an `i64`, else the text of the
/// number. Nothing is stated of the result: the outside value is opaque.
#[verifier::external_body]
fn number_from_serde(n: &serde_json::Number) -> JsonNumber {
    match (n.as_u64(), n.as_i64()) {
        (Some(u), _) => JsonNumber::PosInt(u),
        (None, Some(i)) => JsonNumber::NegInt(i),
        (None, None) => JsonNumber::Float(n.to_string()),
    }
}

/// Moves a `serde_json::Value` into a `JsonValue`, variant by variant, keeping
/// the order of the object entries. Nothing is stated of the result: the
/// outside value is opaque.
#[verifier::external_body]
fn value_from_serde(v: serde_json::Value) -> JsonValue {
    match v {
        serde_json::Value::Null => JsonValue::Null,
        serde_json::Value::Bool(b) => JsonValue::Bool(b),
        serde_json::Value::Number(n) => JsonValue::Number(number_from_serde(&n)),
        serde_json::Value::String(s) => JsonValue::String(s),
        serde_json::Value::Array(a) => JsonValue::Array(a.into_iter().map(value_from_serde).collect()),
        serde_json::Value::Object(o) => JsonValue::Object(o.into_iter().map(|(k, x)| (k, value_from_serde(x))).collect()),
    }
}

} // verus!

verus! {

/// Moves a number into `serde_json`; a text that is not a number becomes
/// `null`. Nothing is stated of the result: the outside value is opaque.
#[verifier::external_body]
fn number_into_serde(n: &JsonNumber) -> serde_json::Value {
    match n {
        JsonNumber::PosInt(u) => serde_json::Value::Number(serde_json::Number::from(*u)),
        JsonNumber::NegInt(i) => serde_json::Value::Number(serde_json::Number::from(*i)),
        JsonNumber::Float(t) => t.parse::<serde_json::Number>().map(serde_json::Value::Number).unwrap_or(serde_json::Value::Null),
    }
}

/// Moves a `JsonValue` into `serde_json`, variant by variant. Nothing is
/// stated of the result: the outside value is opaque.
#[verifier::external_body]
fn value_into_serde(v: &JsonValue) -> serde_json::Value {
    match v {
        JsonValue::Null => serde_json::Value::Null,
        JsonValue::Bool(b) => serde_json::Value::Bool(*b),
        JsonValue::Number(n) => number_into_serde(n),
        JsonValue::String(s) => serde_json::Value::String(s.clone()),
        JsonValue::Array(a) => serde_json::Value::Array(a.iter().map(value_into_serde).collect()),
        JsonValue::Object(o) => serde_json::Value::Object(o.iter().map(|(k, x)| (k.clone(), value_into_serde(x))).collect()),
    }
}

/// `serde_json::from_str`: parses `text` into a JSON value. The value has the
/// content that `json_parse` names; on failure the error's message is
/// returned and nothing is stated of it.
#[verifier::external_body]
pub(crate) fn parse_json_text(text: &str) -> (r: Result<JsonValue, String>)
    ensures
        r is Ok <==> json_parse(text@) is Some,
        r matches Ok(v) ==> json_parse(text@) == Some(json_view(v)),
{
    match serde_json::from_str::<serde_json::Value>(text) {
        Ok(v) => Ok(value_from_serde(v)),
        Err(e) => Err(e.to_string()),
    }
}

/// `Value::to_string` of `serde_json`: the compact JSON text of `v`, as
/// `json_text` names it.
#[verifier::external_body]
pub(crate) fn json_to_text(v: &JsonValue) -> (r: String)
    ensures
        r@ == json_text(json_view(*v)),
{
    value_into_serde(v).to_string()
}

} // verus!

verus! {

/// What `serde_json` parses from the bytes `bytes`, as content; `None` when
/// the bytes are not JSON.
pub uninterp spec fn json_parse_bytes(bytes: Seq<u8>) -> Option<JsonView>;

/// `serde_json::from_slice`: parses the bytes `bytes` into a JSON value. The
/// value has the content that `json_parse_bytes` names; on failure the
/// error's message is returned and nothing is stated of it.
#[verifier::external_body]
pub(crate) fn parse_json_bytes(bytes: &[u8]) -> (r: Result<JsonValue, String>)
    ensures
        r is Ok <==> json_parse_bytes(bytes@) is Some,
        r matches Ok(v) ==> json_parse_bytes(bytes@) == Some(json_view(v)),
{
    match serde_json::from_slice::<serde_json::Value>(bytes) {
        Ok(v) => Ok(value_from_serde(v)),
        Err(e) => Err(e.to_string()),
    }
}

} // verus!
