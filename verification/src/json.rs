//! JSON values as the agent sees them, and the calls that read and print them.

use vstd::prelude::*;

verus! {

/// A JSON document. Numbers keep their decimal spelling; the members of an
/// object are listed in the order in which the document walks them.
#[derive(Debug, PartialEq)]
pub enum JsonValue {
    Null,
    Bool(bool),
    Number(String),
    String(String),
    Array(Vec<JsonValue>),
    Object(Vec<(String, JsonValue)>),
}

/// The mathematical reading of a `JsonValue`.
pub ghost enum JsonModel {
    Null,
    Bool(bool),
    Number(Seq<char>),
    String(Seq<char>),
    Array(Seq<JsonModel>),
    Object(Seq<JsonMember>),
}

/// One member of a JSON object.
pub ghost struct JsonMember {
    pub name: Seq<char>,
    pub value: JsonModel,
}

impl DeepView for JsonValue {
    type V = JsonModel;

    open spec fn deep_view(&self) -> JsonModel
        decreases self,
    {
        match self {
            JsonValue::Null => JsonModel::Null,
            JsonValue::Bool(b) => JsonModel::Bool(*b),
            JsonValue::Number(n) => JsonModel::Number(n@),
            JsonValue::String(s) => JsonModel::String(s@),
            JsonValue::Array(a) => JsonModel::Array(
                Seq::new(a@.len(), |i: int| if 0 <= i < a@.len() { a@[i].deep_view() } else { JsonModel::Null }),
            ),
            JsonValue::Object(m) => JsonModel::Object(
                Seq::new(
                    m@.len(),
                    |i: int|
                        if 0 <= i < m@.len() {
                            JsonMember { name: m@[i].0@, value: m@[i].1.deep_view() }
                        } else {
                            JsonMember { name: Seq::empty(), value: JsonModel::Null }
                        },
                ),
            ),
        }
    }
}

/// How the reading of a document follows its shape: the members of an
/// object and the items of an array are read one by one, in order.
pub proof fn lemma_json_view(v: JsonValue)
    ensures
        match v {
            JsonValue::Null => v.deep_view() == JsonModel::Null,
            JsonValue::Bool(b) => v.deep_view() == JsonModel::Bool(b),
            JsonValue::Number(n) => v.deep_view() == JsonModel::Number(n@),
            JsonValue::String(s) => v.deep_view() == JsonModel::String(s@),
            JsonValue::Array(a) => v.deep_view() is Array && v.deep_view()->Array_0.len()
                == a.len() && forall|j: int|
                0 <= j < a.len() ==> (#[trigger] v.deep_view()->Array_0[j]) == a@[j].deep_view(),
            JsonValue::Object(m) => v.deep_view() is Object && v.deep_view()->Object_0.len()
                == m.len() && forall|j: int|
                0 <= j < m.len() ==> (#[trigger] v.deep_view()->Object_0[j]) == (JsonMember {
                    name: m@[j].0@,
                    value: m@[j].1.deep_view(),
                }),
        },
{
}

impl Clone for JsonValue {
    fn clone(&self) -> (r: Self)
        ensures
            r.deep_view() == self.deep_view(),
    {
        self.duplicate()
    }
}

impl JsonValue {
    /// A copy of the document, member by member.
    pub fn duplicate(&self) -> (r: Self)
        ensures
            r.deep_view() == self.deep_view(),
        decreases self,
    {
        match self {
            JsonValue::Null => JsonValue::Null,
            JsonValue::Bool(b) => JsonValue::Bool(*b),
            JsonValue::Number(n) => JsonValue::Number(n.clone()),
            JsonValue::String(s) => JsonValue::String(s.clone()),
            JsonValue::Array(a) => {
                let mut out: Vec<JsonValue> = Vec::new();
                let mut i: usize = 0;
                while i < a.len()
                    invariant
                        decreases_to!(self => a),
                        i <= a.len(),
                        out.len() == i,
                        forall|j: int| 0 <= j < i ==> out@[j].deep_view() == a@[j].deep_view(),
                    decreases a.len() - i,
                {
                    assert(decreases_to!(a => a[i as int]));
                    let item = a[i].duplicate();
                    out.push(item);
                    i += 1;
                }
                let r = JsonValue::Array(out);
                assert(r.deep_view()->Array_0 =~= self.deep_view()->Array_0);
                r
            },
            JsonValue::Object(m) => {
                let mut out: Vec<(String, JsonValue)> = Vec::new();
                let mut i: usize = 0;
                while i < m.len()
                    invariant
                        decreases_to!(self => m),
                        i <= m.len(),
                        out.len() == i,
                        forall|j: int| 0 <= j < i ==> out@[j].0@ == m@[j].0@ && out@[j].1.deep_view() == m@[j].1.deep_view(),
                    decreases m.len() - i,
                {
                    assert(decreases_to!(m => m[i as int]));
                    let item = (m[i].0.clone(), m[i].1.duplicate());
                    out.push(item);
                    i += 1;
                }
                let r = JsonValue::Object(out);
                assert(r.deep_view()->Object_0 =~= self.deep_view()->Object_0);
                r
            },
        }
    }
}

/// What `serde_json::from_str` makes of a text: the document it holds, or
/// `None` where the text is not one JSON document.
pub uninterp spec fn json_parse(text: Seq<char>) -> Option<JsonModel>;

/// The compact rendering of a document by `serde_json`.
pub uninterp spec fn json_text(value: JsonModel) -> Seq<char>;

/// The indented rendering of a document by `serde_json`.
pub uninterp spec fn json_pretty_text(value: JsonModel) -> Seq<char>;

#[verifier::external_type_specification]
#[verifier::external_body]
pub struct ExSerdeValue(serde_json::Value);

/// Copies a `serde_json::Value` into a `JsonValue`, variant by variant.
#[verifier::external_body]
fn from_serde(v: &serde_json::Value) -> (r: JsonValue)
{
    match v {
        serde_json::Value::Null => JsonValue::Null,
        serde_json::Value::Bool(b) => JsonValue::Bool(*b),
        serde_json::Value::Number(n) => JsonValue::Number(n.to_string()),
        serde_json::Value::String(s) => JsonValue::String(s.clone()),
        serde_json::Value::Array(a) => JsonValue::Array(a.iter().map(from_serde).collect()),
        serde_json::Value::Object(m) => JsonValue::Object(
            m.iter().map(|(k, x)| (k.clone(), from_serde(x))).collect(),
        ),
    }
}

/// Copies a `JsonValue` into a `serde_json::Value`, variant by variant.
/// A number is read from its text by `serde_json::from_str`; a text that
/// is no JSON number has no counterpart and becomes `null`.
#[verifier::external_body]
fn to_serde(v: &JsonValue) -> (r: serde_json::Value)
{
    match v {
        JsonValue::Null => serde_json::Value::Null,
        JsonValue::Bool(b) => serde_json::Value::Bool(*b),
        JsonValue::Number(n) => serde_json::from_str::<serde_json::Number>(n)
            .map_or(serde_json::Value::Null, serde_json::Value::Number),
        JsonValue::String(s) => serde_json::Value::String(s.clone()),
        JsonValue::Array(a) => serde_json::Value::Array(a.iter().map(to_serde).collect()),
        JsonValue::Object(m) => serde_json::Value::Object(
            m.iter().map(|(k, x)| (k.clone(), to_serde(x))).collect(),
        ),
    }
}

/// `serde_json::from_str` on `text`, read as a `serde_json::Value`: the
/// document named by `json_parse`, `None` where `serde_json` reports an error.
#[verifier::external_body]
pub(crate) fn parse_json(text: &str) -> (r: Option<JsonValue>)
    ensures
        r.deep_view() == json_parse(text@),
{
    match serde_json::from_str::<serde_json::Value>(text) {
        Ok(v) => Some(from_serde(&v)),
        Err(_) => None,
    }
}

/// `serde_json::Value::to_string` on the document: its compact rendering,
/// named by `json_text`.
#[verifier::external_body]
pub(crate) fn json_to_string(value: &JsonValue) -> (r: String)
    ensures
        r@ == json_text(value.deep_view()),
{
    to_serde(value).to_string()
}

/// `serde_json::to_string_pretty` on the document: its indented rendering,
/// named by `json_pretty_text`. The call cannot fail on a `Value`.
#[verifier::external_body]
pub(crate) fn json_to_string_pretty(value: &JsonValue) -> (r: String)
    ensures
        r@ == json_pretty_text(value.deep_view()),
{
    serde_json::to_string_pretty(&to_serde(value)).unwrap_or_default()
}

impl JsonValue {
    /// `true` for `null`.
    pub fn is_null(&self) -> (r: bool)
        ensures
            r == (self.deep_view() is Null),
    {
        match self {
            JsonValue::Null => true,
            _ => false,
        }
    }

    /// The text of a JSON string, `None` for every other kind of value.
    pub fn as_str(&self) -> (r: Option<&String>)
        ensures
            match self.deep_view() {
                JsonModel::String(s) => r is Some && r->Some_0@ == s,
                _ => r is None,
            },
    {
        match self {
            JsonValue::String(s) => Some(s),
            _ => None,
        }
    }
}

} // verus!
