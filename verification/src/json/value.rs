//! JSON values as the message codec reads and writes them.

use vstd::prelude::*;

verus! {

/// Equality of two texts, as `==` on `&str` computes it: the same
/// characters in the same order.
pub assume_specification[ <str as PartialEq>::eq ](a: &str, b: &str) -> (r: bool)
    ensures
        r == (a@ == b@),
;

/// `clone` of a JSON number gives the same number.
pub assume_specification[ <serde_json::Number as Clone>::clone ](n: &serde_json::Number) -> (r:
    serde_json::Number)
    ensures
        r == *n,
;

/// A JSON number as `serde_json` holds it.
#[verifier::external_type_specification]
#[verifier::external_body]
pub struct ExNumber(serde_json::Number);

/// A JSON value as `serde_json` holds it.
#[verifier::external_type_specification]
#[verifier::external_body]
pub struct ExValue(serde_json::Value);

/// Why a text is not JSON or not YAML: what the parser said, and the line
/// and column at which it stopped (both `0` where it named no place).
#[derive(Debug, PartialEq, Eq)]
pub struct ParseFailure {
    /// What the parser said.
    pub message: String,
    /// The line at which the parser stopped, counted from `1`.
    pub line: usize,
    /// The column at which the parser stopped.
    pub column: usize,
}

/// A JSON value.
///
/// A number that is a non-negative integer below 2^64 is a `Uint`; every
/// other number is kept as `serde_json` holds it. An object is the list of
/// its fields; a value that was read from a text lists them in ascending
/// order of their names, each name once. Two objects are equal if they list
/// equal fields in the same order.
#[derive(Debug, PartialEq, Eq)]
pub enum Json {
    Null,
    Bool(bool),
    Uint(u64),
    Number(serde_json::Number),
    Str(String),
    Array(Vec<Json>),
    Object(Vec<(String, Json)>),
}

/// The mathematical value of a [`Json`].
pub ghost enum JsonView {
    Null,
    Bool(bool),
    Uint(u64),
    Number(serde_json::Number),
    Str(Seq<char>),
    Array(Seq<JsonView>),
    Object(Seq<(Seq<char>, JsonView)>),
}

/// The mathematical value of a JSON value.
pub open spec fn json_view(j: Json) -> JsonView
    decreases j,
{
    match j {
        Json::Null => JsonView::Null,
        Json::Bool(b) => JsonView::Bool(b),
        Json::Uint(n) => JsonView::Uint(n),
        Json::Number(n) => JsonView::Number(n),
        Json::Str(s) => JsonView::Str(s@),
        Json::Array(items) => JsonView::Array(
            Seq::new(
                items@.len(),
                |i: int|
                    if 0 <= i < items@.len() {
                        json_view(items@[i])
                    } else {
                        JsonView::Null
                    },
            ),
        ),
        Json::Object(fields) => JsonView::Object(
            Seq::new(
                fields@.len(),
                |i: int|
                    if 0 <= i < fields@.len() {
                        (fields@[i].0@, json_view(fields@[i].1))
                    } else {
                        (Seq::empty(), JsonView::Null)
                    },
            ),
        ),
    }
}

impl View for Json {
    type V = JsonView;

    open spec fn view(&self) -> JsonView {
        json_view(*self)
    }
}

/// The values of a sequence of JSON values, one by one.
pub open spec fn views(items: Seq<Json>) -> Seq<JsonView> {
    Seq::new(items.len(), |i: int| items[i]@)
}

/// The fields of a JSON object: each name's text with the field's value.
pub open spec fn field_views(fields: Seq<(String, Json)>) -> Seq<(Seq<char>, JsonView)> {
    Seq::new(fields.len(), |i: int| (fields[i].0@, fields[i].1@))
}

/// The value of an array is made of the values of its items, and the value of
/// an object of the values of its fields.
pub proof fn lemma_view_unfold(j: Json)
    ensures
        j matches Json::Array(items) ==> j@ == JsonView::Array(views(items@)),
        j matches Json::Object(fields) ==> j@ == JsonView::Object(field_views(fields@)),
{
    match j {
        Json::Array(items) => {
            assert(j@->Array_0 =~= views(items@));
        },
        Json::Object(fields) => {
            assert(j@->Object_0 =~= field_views(fields@));
        },
        _ => {},
    }
}

/// The value of the first field called `name` from position `from` on.
pub open spec fn lookup_from(fields: Seq<(Seq<char>, JsonView)>, name: Seq<char>, from: int) -> Option<
    JsonView,
>
    decreases fields.len() - from,
{
    if from < 0 || from >= fields.len() {
        None
    } else if fields[from].0 == name {
        Some(fields[from].1)
    } else {
        lookup_from(fields, name, from + 1)
    }
}

/// The value of the first field called `name`.
pub open spec fn lookup(fields: Seq<(Seq<char>, JsonView)>, name: Seq<char>) -> Option<JsonView> {
    lookup_from(fields, name, 0)
}

/// The value that `serde_json` reads out of a JSON text; `None` where it
/// rejects the text.
pub uninterp spec fn json_text_value(text: Seq<char>) -> Option<JsonView>;

/// The JSON text that `serde_json` writes for a value; `None` where it
/// refuses to write one.
pub uninterp spec fn json_value_text(value: JsonView) -> Option<Seq<char>>;

/// The value that `serde_yaml` reads out of a text that holds one YAML
/// document; `None` where it rejects the text.
pub uninterp spec fn yaml_text_value(text: Seq<char>) -> Option<JsonView>;

/// The YAML document that `serde_yaml` writes for a value; `None` where it
/// refuses to write one.
pub uninterp spec fn yaml_value_text(value: JsonView) -> Option<Seq<char>>;

/// Turns a `serde_json::Value` into a [`Json`], variant by variant; a number
/// for which `serde_json::Number::as_u64` has a value becomes `Json::Uint`.
/// The fields of an object come in the order in which `serde_json` walks its
/// map. Nothing is claimed of the result here: the functions that read a text
/// name it.
#[verifier::external_body]
fn from_serde(value: serde_json::Value) -> Json {
    match value {
        serde_json::Value::Null => Json::Null,
        serde_json::Value::Bool(b) => Json::Bool(b),
        serde_json::Value::Number(n) => match n.as_u64() {
            Some(u) => Json::Uint(u),
            None => Json::Number(n),
        },
        serde_json::Value::String(s) => Json::Str(s),
        serde_json::Value::Array(a) => Json::Array(a.into_iter().map(from_serde).collect()),
        serde_json::Value::Object(m) => Json::Object(
            m.into_iter().map(|(k, v)| (k, from_serde(v))).collect(),
        ),
    }
}

/// Turns a [`Json`] into a `serde_json::Value`, variant by variant. Of two
/// fields of one name in an object the later one stays, as
/// `serde_json::Map` has it. Nothing is claimed of the result here: the
/// functions that write a text name it.
#[verifier::external_body]
fn to_serde(value: &Json) -> serde_json::Value {
    match value {
        Json::Null => serde_json::Value::Null,
        Json::Bool(b) => serde_json::Value::Bool(*b),
        Json::Uint(u) => serde_json::Value::Number(serde_json::Number::from(*u)),
        Json::Number(n) => serde_json::Value::Number(n.clone()),
        Json::Str(s) => serde_json::Value::String(s.clone()),
        Json::Array(a) => serde_json::Value::Array(a.iter().map(to_serde).collect()),
        Json::Object(m) => serde_json::Value::Object(
            m.iter().map(|(k, v)| (k.clone(), to_serde(v))).collect(),
        ),
    }
}

/// Calls `serde_json::from_str` for a `serde_json::Value`. The contract names
/// the value that comes back and says that an error comes exactly where
/// there is none; of the error it claims nothing.
#[verifier::external_body]
fn read_json(text: &str) -> (r: Result<Json, ParseFailure>)
    ensures
        match r {
            Ok(j) => json_text_value(text@) == Some(j@),
            Err(_) => json_text_value(text@) is None,
        },
{
    match serde_json::from_str::<serde_json::Value>(text) {
        Ok(v) => Ok(from_serde(v)),
        Err(e) => Err(ParseFailure { message: e.to_string(), line: e.line(), column: e.column() }),
    }
}

/// Calls `serde_json::to_string` on the value as a `serde_json::Value`. The
/// contract names the text that comes back.
#[verifier::external_body]
fn write_json(value: &Json) -> (r: Result<String, ParseFailure>)
    ensures
        match r {
            Ok(s) => json_value_text(value@) == Some(s@),
            Err(_) => json_value_text(value@) is None,
        },
{
    match serde_json::to_string(&to_serde(value)) {
        Ok(s) => Ok(s),
        Err(e) => Err(ParseFailure { message: e.to_string(), line: e.line(), column: e.column() }),
    }
}

/// Calls `serde_yaml::from_str` for a `serde_json::Value`. The contract names
/// the value that comes back.
#[verifier::external_body]
fn read_yaml(text: &str) -> (r: Result<Json, ParseFailure>)
    ensures
        match r {
            Ok(j) => yaml_text_value(text@) == Some(j@),
            Err(_) => yaml_text_value(text@) is None,
        },
{
    match serde_yaml::from_str::<serde_json::Value>(text) {
        Ok(v) => Ok(from_serde(v)),
        Err(e) => Err(ParseFailure {
            message: e.to_string(),
            line: e.location().map_or(0, |l| l.line()),
            column: e.location().map_or(0, |l| l.column()),
        }),
    }
}

/// Calls `serde_yaml::to_string` on the value as a `serde_json::Value`. The
/// contract names the text that comes back.
#[verifier::external_body]
fn write_yaml(value: &Json) -> (r: Result<String, ParseFailure>)
    ensures
        match r {
            Ok(s) => yaml_value_text(value@) == Some(s@),
            Err(_) => yaml_value_text(value@) is None,
        },
{
    match serde_yaml::to_string(&to_serde(value)) {
        Ok(s) => Ok(s),
        Err(e) => Err(ParseFailure { message: e.to_string(), line: 0, column: 0 }),
    }
}

impl JsonView {
    /// The value of the field `name` of an object; `None` for a value that is
    /// no object or has no such field.
    pub open spec fn get(self, name: Seq<char>) -> Option<JsonView> {
        match self {
            JsonView::Object(fields) => lookup(fields, name),
            _ => None,
        }
    }
}

impl Json {
    /// Reads a JSON text.
    pub fn from_text(text: &str) -> (r: Result<Json, ParseFailure>)
        ensures
            match r {
                Ok(j) => json_text_value(text@) == Some(j@),
                Err(_) => json_text_value(text@) is None,
            },
    {
        read_json(text)
    }

    /// Writes the value as JSON text.
    pub fn to_text(&self) -> (r: Result<String, ParseFailure>)
        ensures
            match r {
                Ok(s) => json_value_text(self@) == Some(s@),
                Err(_) => json_value_text(self@) is None,
            },
    {
        write_json(self)
    }

    /// Reads a text that holds one YAML document.
    pub fn from_yaml(text: &str) -> (r: Result<Json, ParseFailure>)
        ensures
            match r {
                Ok(j) => yaml_text_value(text@) == Some(j@),
                Err(_) => yaml_text_value(text@) is None,
            },
    {
        read_yaml(text)
    }

    /// Writes the value as a YAML document.
    pub fn to_yaml(&self) -> (r: Result<String, ParseFailure>)
        ensures
            match r {
                Ok(s) => yaml_value_text(self@) == Some(s@),
                Err(_) => yaml_value_text(self@) is None,
            },
    {
        write_yaml(self)
    }

    /// The value of the field `name` of an object.
    pub fn get(&self, name: &str) -> (r: Option<&Json>)
        ensures
            match r {
                Some(v) => self@.get(name@) == Some(v@),
                None => self@.get(name@) is None,
            },
    {
        match self {
            Json::Object(fields) => {
                proof {
                    lemma_view_unfold(*self);
                }
                let mut i: usize = 0;
                while i < fields.len()
                    invariant
                        i <= fields.len(),
                        self@.get(name@) == lookup(field_views(fields@), name@),
                        lookup(field_views(fields@), name@) == lookup_from(
                            field_views(fields@),
                            name@,
                            i as int,
                        ),
                    decreases fields.len() - i,
                {
                    if fields[i].0.as_str().eq(name) {
                        return Some(&fields[i].1);
                    }
                    i += 1;
                }
                None
            },
            _ => None,
        }
    }

    /// A copy of the value.
    pub fn duplicate(&self) -> (r: Json)
        ensures
            r@ == self@,
        decreases self,
    {
        match self {
            Json::Null => Json::Null,
            Json::Bool(b) => Json::Bool(*b),
            Json::Uint(n) => Json::Uint(*n),
            Json::Number(n) => Json::Number(n.clone()),
            Json::Str(s) => Json::Str(s.clone()),
            Json::Array(items) => {
                let mut copy: Vec<Json> = Vec::new();
                let mut i: usize = 0;
                while i < items.len()
                    invariant
                        i <= items.len(),
                        copy.len() == i,
                        decreases_to!(self => *items),
                        forall|k: int| 0 <= k < i ==> (#[trigger] copy[k])@ == items[k]@,
                    decreases items.len() - i,
                {
                    proof {
                        vstd::std_specs::vec::axiom_vec_index_decreases(*items, i as int);
                    }
                    copy.push(items[i].duplicate());
                    i += 1;
                }
                let r = Json::Array(copy);
                proof {
                    lemma_view_unfold(r);
                    lemma_view_unfold(*self);
                    assert(views(copy@) =~= views(items@));
                }
                r
            },
            Json::Object(fields) => {
                let mut copy: Vec<(String, Json)> = Vec::new();
                let mut i: usize = 0;
                while i < fields.len()
                    invariant
                        i <= fields.len(),
                        copy.len() == i,
                        decreases_to!(self => *fields),
                        forall|k: int|
                            0 <= k < i ==> (#[trigger] copy[k]).0@ == fields[k].0@ && copy[k].1@
                                == fields[k].1@,
                    decreases fields.len() - i,
                {
                    proof {
                        vstd::std_specs::vec::axiom_vec_index_decreases(*fields, i as int);
                    }
                    copy.push((fields[i].0.clone(), fields[i].1.duplicate()));
                    i += 1;
                }
                let r = Json::Object(copy);
                proof {
                    lemma_view_unfold(r);
                    lemma_view_unfold(*self);
                    assert(field_views(copy@) =~= field_views(fields@));
                }
                r
            },
        }
    }
}

} // verus!
