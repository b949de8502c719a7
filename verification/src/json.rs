//! JSON documents: the value model, comment stripping, and parsing.

use vstd::prelude::*;

use crate::text;
use crate::text_map;

verus! {

/// A parsed JSON value. A number keeps what its readers tell apart: a non-negative integer, a
/// negative integer, or the text of any other number.
#[derive(Debug, PartialEq, Eq)]
pub enum Json {
    Null,
    Bool(bool),
    Unsigned(u64),
    Negative(i64),
    Float(String),
    Text(String),
    List(Vec<Json>),
    Object(Vec<(String, Json)>),
}

/// The model of a JSON value.
pub enum JsonView {
    Null,
    Bool(bool),
    Unsigned(u64),
    Negative(i64),
    Float(Seq<char>),
    Text(Seq<char>),
    List(Seq<JsonView>),
    Object(Seq<(Seq<char>, JsonView)>),
}

/// The model that a value stands for.
pub open spec fn json_view(value: Json) -> JsonView
    decreases value,
{
    match value {
        Json::Null => JsonView::Null,
        Json::Bool(b) => JsonView::Bool(b),
        Json::Unsigned(n) => JsonView::Unsigned(n),
        Json::Negative(n) => JsonView::Negative(n),
        Json::Float(t) => JsonView::Float(t@),
        Json::Text(t) => JsonView::Text(t@),
        Json::List(items) => JsonView::List(
            Seq::new(
                items@.len(),
                |i: int|
                    if 0 <= i < items@.len() {
                        json_view(items@[i])
                    } else {
                        JsonView::Null
                    },
            ),
        ),
        Json::Object(entries) => JsonView::Object(
            Seq::new(
                entries@.len(),
                |i: int|
                    if 0 <= i < entries@.len() {
                        (entries@[i].0@, json_view(entries@[i].1))
                    } else {
                        (Seq::empty(), JsonView::Null)
                    },
            ),
        ),
    }
}

impl DeepView for Json {
    type V = JsonView;

    open spec fn deep_view(&self) -> JsonView {
        json_view(*self)
    }
}

impl Json {
    /// A copy of the value.
    pub fn copy(&self) -> (out: Json)
        ensures
            out.deep_view() == self.deep_view(),
        decreases self,
    {
        match self {
            Json::Null => Json::Null,
            Json::Bool(b) => Json::Bool(*b),
            Json::Unsigned(n) => Json::Unsigned(*n),
            Json::Negative(n) => Json::Negative(*n),
            Json::Float(t) => Json::Float(t.clone()),
            Json::Text(t) => Json::Text(t.clone()),
            Json::List(items) => {
                let mut out: Vec<Json> = Vec::new();
                let mut i: usize = 0;
                while i < items.len()
                    invariant
                        i <= items.len(),
                        out@.len() == i,
                        *self == Json::List(*items),
                        forall|k: int|
                            0 <= k < i ==> json_view(#[trigger] out@[k]) == json_view(items@[k]),
                    decreases items.len() - i,
                {
                    assert(decreases_to!(*self => self->List_0@[i as int]));
                    out.push(items[i].copy());
                    i = i + 1;
                }
                let copied = Json::List(out);
                assert(json_view(copied)->List_0 =~= json_view(*self)->List_0);
                copied
            },
            Json::Object(entries) => {
                let mut out: Vec<(String, Json)> = Vec::new();
                let mut i: usize = 0;
                while i < entries.len()
                    invariant
                        i <= entries.len(),
                        out@.len() == i,
                        *self == Json::Object(*entries),
                        forall|k: int|
                            0 <= k < i ==> (#[trigger] out@[k]).0@ == entries@[k].0@ && json_view(
                                out@[k].1,
                            ) == json_view(entries@[k].1),
                    decreases entries.len() - i,
                {
                    assert(decreases_to!(*self => self->Object_0@[i as int].1));
                    out.push((entries[i].0.clone(), entries[i].1.copy()));
                    i = i + 1;
                }
                let copied = Json::Object(out);
                assert(json_view(copied)->Object_0 =~= json_view(*self)->Object_0);
                copied
            },
        }
    }
}

/// `serde_json::Value`, the tree that the parser builds.
#[verifier::external_type_specification]
#[verifier::external_body]
pub struct ExValue(serde_json::Value);

/// `serde_json::Error`, why a text is no JSON document.
#[verifier::external_type_specification]
#[verifier::external_body]
pub struct ExParseError(serde_json::Error);

/// The value of an object under a key; nothing has no value.
pub open spec fn object_value(document: JsonView, key: Seq<char>) -> Option<JsonView> {
    match document {
        JsonView::Object(entries) => text_map::map_get(entries, key),
        _ => None,
    }
}

/// The value of an object under a key.
pub fn object_get<'a>(document: &'a Json, key: &str) -> (out: Option<&'a Json>)
    ensures
        out.deep_view() == object_value(document.deep_view(), key@),
{
    match document {
        Json::Object(entries) => {
            let ghost model = document.deep_view()->Object_0;
            let mut i: usize = 0;
            assert(model.skip(0) =~= model);
            while i < entries.len()
                invariant
                    i <= entries.len(),
                    *document == Json::Object(*entries),
                    model == document.deep_view()->Object_0,
                    text_map::map_get(model, key@) == text_map::map_get(model.skip(i as int), key@),
                decreases entries.len() - i,
            {
                assert(model.skip(i as int)[0] == (
                    entries@[i as int].0@,
                    entries@[i as int].1.deep_view(),
                ));
                if text::same_text(entries[i].0.as_str(), key) {
                    return Some(&entries[i].1);
                }
                assert(model.skip(i as int).drop_first() =~= model.skip(i + 1));
                i = i + 1;
            }
            None
        },
        _ => None,
    }
}

/// What a `serde_json::Value` holds.
pub uninterp spec fn value_content(value: serde_json::Value) -> JsonView;

/// What `serde_json::from_str` makes of a text: the document's content, or `None` where the
/// text is no JSON document.
pub uninterp spec fn parsed_document(text: Seq<char>) -> Option<JsonView>;

/// The outermost layer of a `serde_json::Value`.
pub enum Layer {
    Null,
    Bool(bool),
    Number(Option<u64>, Option<i64>, String),
    Text(String),
    List(Vec<serde_json::Value>),
    Object(Vec<(String, serde_json::Value)>),
}

/// The content of a number that reads as `unsigned`, as `signed`, and is written `text`.
pub open spec fn number_content(
    unsigned: Option<u64>,
    signed: Option<i64>,
    text: Seq<char>,
) -> JsonView {
    match (unsigned, signed) {
        (Some(n), _) => JsonView::Unsigned(n),
        (None, Some(n)) => JsonView::Negative(n),
        (None, None) => JsonView::Float(text),
    }
}

pub open spec fn contents(values: Seq<serde_json::Value>) -> Seq<JsonView> {
    values.map_values(|v: serde_json::Value| value_content(v))
}

pub open spec fn entry_contents(entries: Seq<(String, serde_json::Value)>) -> Seq<
    (Seq<char>, JsonView),
> {
    entries.map_values(|e: (String, serde_json::Value)| (e.0@, value_content(e.1)))
}

/// `serde_json::from_str::<Value>`: a text gives the content that `parsed_document` names, and
/// an error exactly where it names none.
#[verifier::external_body]
fn from_str(text: &str) -> (out: Result<serde_json::Value, serde_json::Error>)
    ensures
        match out {
            Ok(value) => parsed_document(text@) == Some(value_content(value)),
            Err(_) => parsed_document(text@) is None,
        },
{
    serde_json::from_str::<serde_json::Value>(text)
}

/// The variants of `serde_json::Value` told apart: each layer holds what the variant holds,
/// list items and object entries in the order in which `serde_json` keeps them. A number is
/// read by `Number::as_u64`, by `Number::as_i64` and as its displayed text; the first is there
/// for every non-negative integer, the second for every other integer.
#[verifier::external_body]
fn open_value(value: serde_json::Value) -> (layer: Layer)
    ensures
        value_content(value) == (match layer {
            Layer::Null => JsonView::Null,
            Layer::Bool(b) => JsonView::Bool(b),
            Layer::Number(unsigned, signed, text) => number_content(unsigned, signed, text@),
            Layer::Text(text) => JsonView::Text(text@),
            Layer::List(items) => JsonView::List(contents(items@)),
            Layer::Object(entries) => JsonView::Object(entry_contents(entries@)),
        }),
{
    match value {
        serde_json::Value::Null => Layer::Null,
        serde_json::Value::Bool(b) => Layer::Bool(b),
        serde_json::Value::Number(n) => Layer::Number(n.as_u64(), n.as_i64(), n.to_string()),
        serde_json::Value::String(text) => Layer::Text(text),
        serde_json::Value::Array(items) => Layer::List(items),
        serde_json::Value::Object(map) => Layer::Object(map.into_iter().collect()),
    }
}

/// The library's form of a parsed tree.
pub fn into_json(value: serde_json::Value) -> (out: Json)
    ensures
        out.deep_view() == value_content(value),
    decreases value_content(value),
{
    let ghost content = value_content(value);
    match open_value(value) {
        Layer::Null => Json::Null,
        Layer::Bool(b) => Json::Bool(b),
        Layer::Number(unsigned, signed, text) => match (unsigned, signed) {
            (Some(n), _) => Json::Unsigned(n),
            (None, Some(n)) => Json::Negative(n),
            (None, None) => Json::Float(text),
        },
        Layer::Text(text) => Json::Text(text),
        Layer::List(items) => {
            let ghost all = items@;
            let mut out: Vec<Json> = Vec::new();
            for item in iter: items
                invariant
                    iter.seq() == all,
                    content == value_content(value),
                    content == JsonView::List(contents(all)),
                    out@.len() == iter.index(),
                    forall|k: int|
                        0 <= k < out@.len() ==> json_view(#[trigger] out@[k]) == value_content(
                            all[k],
                        ),
            {
                assert(content->List_0[iter.index() as int] == value_content(item));
                assert(decreases_to!(content => content->List_0[iter.index() as int]));
                out.push(into_json(item));
            }
            let done = Json::List(out);
            assert(json_view(done)->List_0 =~= content->List_0);
            done
        },
        Layer::Object(entries) => {
            let ghost all = entries@;
            let mut out: Vec<(String, Json)> = Vec::new();
            for entry in iter: entries
                invariant
                    iter.seq() == all,
                    content == value_content(value),
                    content == JsonView::Object(entry_contents(all)),
                    out@.len() == iter.index(),
                    forall|k: int|
                        0 <= k < out@.len() ==> (#[trigger] out@[k]).0@ == all[k].0@ && json_view(
                            out@[k].1,
                        ) == value_content(all[k].1),
            {
                assert(content->Object_0[iter.index() as int].1 == value_content(entry.1));
                assert(decreases_to!(content => content->Object_0[iter.index() as int].1));
                let (key, inner) = entry;
                out.push((key, into_json(inner)));
            }
            let done = Json::Object(out);
            assert(json_view(done)->Object_0 =~= content->Object_0);
            done
        },
    }
}

/// Parses a JSON document.
pub fn parse_document(text: &str) -> (out: Option<Json>)
    ensures
        match out {
            Some(value) => parsed_document(text@) == Some(value.deep_view()),
            None => parsed_document(text@) is None,
        },
{
    match from_str(text) {
        Ok(value) => Some(into_json(value)),
        Err(_) => None,
    }
}

} // verus!
