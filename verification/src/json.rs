//! JSON documents as plain values.
//!
//! Text is parsed by `serde_json`; everything the decoders read afterwards is
//! a [`Json`] tree owned by this crate.

use serde_json::Value;
use vstd::prelude::*;
use crate::text::str_eq;

verus! {

/// `serde_json::Value`, carried from the parser to the conversion and not
/// looked into.
#[verifier::external_type_specification]
#[verifier::external_body]
pub struct ExJsonValue(serde_json::Value);

/// `serde_json::Error`, carried to the caller and not looked into.
#[verifier::external_type_specification]
#[verifier::external_body]
pub struct ExJsonError(serde_json::Error);

/// A JSON number: an integer below zero, an integer from zero up, or any
/// other number, kept as the bit pattern of its double.
#[derive(Clone, Copy, Debug, PartialEq, Eq, Structural)]
pub enum JsonNumber {
    Negative(i64),
    Unsigned(u64),
    Float(u64),
}

/// The mathematical model of a JSON value.
pub enum JsonTree {
    Null,
    Bool(bool),
    Number(JsonNumber),
    Text(Seq<char>),
    Array(Seq<JsonTree>),
    Object(Seq<(Seq<char>, JsonTree)>),
}

/// A JSON value.
#[derive(Debug, PartialEq)]
pub enum Json {
    Null,
    Bool(bool),
    Number(JsonNumber),
    Text(String),
    Array(Vec<Json>),
    Object(Vec<(String, Json)>),
}

/// The value under the first entry of `fields` whose key is `key`.
pub open spec fn lookup(fields: Seq<(Seq<char>, JsonTree)>, key: Seq<char>) -> Option<JsonTree>
    decreases fields.len(),
{
    if fields.len() == 0 {
        None
    } else if fields[0].0 == key {
        Some(fields[0].1)
    } else {
        lookup(fields.drop_first(), key)
    }
}

impl JsonTree {
    /// An object without members.
    pub open spec fn empty_object() -> JsonTree {
        JsonTree::Object(Seq::empty())
    }

    /// This object with one more member at its end; anything that is not
    /// an object, unchanged.
    pub open spec fn with(self, key: Seq<char>, value: JsonTree) -> JsonTree {
        match self {
            JsonTree::Object(fields) => JsonTree::Object(fields.push((key, value))),
            other => other,
        }
    }

    /// This object with one more member at its end if there is a value for
    /// it.
    pub open spec fn with_optional(self, key: Seq<char>, value: Option<JsonTree>) -> JsonTree {
        match value {
            Some(v) => self.with(key, v),
            None => self,
        }
    }

    /// The member `key` of an object; `None` for a missing member and for
    /// anything that is not an object.
    pub open spec fn member(self, key: Seq<char>) -> Option<JsonTree> {
        match self {
            JsonTree::Object(fields) => lookup(fields, key),
            _ => None,
        }
    }
}

/// The model of one value.
pub open spec fn tree_of(j: Json) -> JsonTree
    decreases j,
{
    match j {
        Json::Null => JsonTree::Null,
        Json::Bool(b) => JsonTree::Bool(b),
        Json::Number(n) => JsonTree::Number(n),
        Json::Text(s) => JsonTree::Text(s@),
        Json::Array(items) => JsonTree::Array(trees_of(items@)),
        Json::Object(fields) => JsonTree::Object(members_of(fields@)),
    }
}

/// The models of the items of an array, in order.
pub open spec fn trees_of(items: Seq<Json>) -> Seq<JsonTree>
    decreases items,
{
    if items.len() == 0 {
        Seq::empty()
    } else {
        trees_of(items.drop_last()).push(tree_of(items.last()))
    }
}

/// The models of the members of an object, in order.
pub open spec fn members_of(fields: Seq<(String, Json)>) -> Seq<(Seq<char>, JsonTree)>
    decreases fields,
{
    if fields.len() == 0 {
        Seq::empty()
    } else {
        members_of(fields.drop_last()).push((fields.last().0@, tree_of(fields.last().1)))
    }
}

impl View for Json {
    type V = JsonTree;

    open spec fn view(&self) -> JsonTree {
        tree_of(*self)
    }
}

/// The model of an array has one item for each item of the array.
pub proof fn lemma_trees_of(items: Seq<Json>)
    ensures
        trees_of(items).len() == items.len(),
        forall|k: int| 0 <= k < items.len() ==> (#[trigger] trees_of(items)[k]) == items[k]@,
    decreases items.len(),
{
    if items.len() > 0 {
        lemma_trees_of(items.drop_last());
    }
}

/// The model of an object has one member for each member of the object.
pub proof fn lemma_members_of(fields: Seq<(String, Json)>)
    ensures
        members_of(fields).len() == fields.len(),
        forall|k: int|
            0 <= k < fields.len() ==> (#[trigger] members_of(fields)[k]) == (
                fields[k].0@,
                fields[k].1@,
            ),
    decreases fields.len(),
{
    if fields.len() > 0 {
        lemma_members_of(fields.drop_last());
    }
}

/// The model of an optional value.
pub open spec fn option_tree(value: Option<Json>) -> Option<JsonTree> {
    match value {
        Some(v) => Some(v@),
        None => None,
    }
}

/// One JSON string for each text.
pub open spec fn text_trees(items: Seq<&str>) -> Seq<JsonTree> {
    Seq::new(items.len(), |i: int| JsonTree::Text(items[i]@))
}

/// One JSON string for each text.
pub open spec fn string_trees(items: Seq<String>) -> Seq<JsonTree> {
    Seq::new(items.len(), |i: int| JsonTree::Text(items[i]@))
}

/// What `serde_json` reads from `bytes` as a JSON document, if they are one.
pub uninterp spec fn json_document(bytes: Seq<u8>) -> Option<JsonTree>;

/// The JSON value that a `serde_json::Value` holds.
pub uninterp spec fn value_tree(v: serde_json::Value) -> JsonTree;

/// `serde_json::from_slice` at the type `serde_json::Value`: succeeds exactly
/// on the byte strings that are a JSON document, and then holds that document.
#[verifier::external_body]
fn parse_value(bytes: &[u8]) -> (r: Result<serde_json::Value, serde_json::Error>)
    ensures
        r is Ok <==> json_document(bytes@) is Some,
        r is Ok ==> value_tree(r->Ok_0) == json_document(bytes@)->0,
{
    serde_json::from_slice::<Value>(bytes)
}

/// Moves a `serde_json::Value` into a [`Json`], variant by variant. Object
/// members come in the order in which `serde_json::Map` walks them.
#[verifier::external_body]
fn json_from_value(v: serde_json::Value) -> (j: Json)
    ensures
        j@ == value_tree(v),
{
    match v {
        Value::Null => Json::Null,
        Value::Bool(b) => Json::Bool(b),
        Value::Number(n) => Json::Number(
            match (n.as_u64(), n.as_i64()) {
                (Some(u), _) => JsonNumber::Unsigned(u),
                (_, Some(i)) => JsonNumber::Negative(i),
                _ => JsonNumber::Float(n.as_f64().unwrap_or_default().to_bits()),
            },
        ),
        Value::String(s) => Json::Text(s),
        Value::Array(a) => Json::Array(a.into_iter().map(json_from_value).collect()),
        Value::Object(o) => Json::Object(o.into_iter().map(|(k, v)| (k, json_from_value(v))).collect()),
    }
}

impl Clone for Json {
    fn clone(&self) -> (r: Json)
        ensures
            r@ == self@,
    {
        self.duplicate()
    }
}

impl Json {
    /// A copy of the whole tree.
    pub fn duplicate(&self) -> (r: Json)
        ensures
            r@ == self@,
        decreases self,
    {
        match self {
            Json::Null => Json::Null,
            Json::Bool(b) => Json::Bool(*b),
            Json::Number(n) => Json::Number(*n),
            Json::Text(s) => Json::Text(s.clone()),
            Json::Array(items) => {
                let mut copy: Vec<Json> = Vec::new();
                let mut i: usize = 0;
                while i < items.len()
                    invariant
                        *self == Json::Array(*items),
                        i <= items.len(),
                        copy.len() == i,
                        forall|k: int| 0 <= k < i ==> copy[k]@ == items[k]@,
                    decreases items.len() - i,
                {
                    proof {
                        assert(decreases_to!(*self => self->Array_0));
                        assert(decreases_to!(self->Array_0 => self->Array_0[i as int]));
                    }
                    copy.push(items[i].duplicate());
                    i += 1;
                }
                let r = Json::Array(copy);
                proof {
                    lemma_trees_of(copy@);
                    lemma_trees_of(items@);
                    assert(r@->Array_0 =~= self@->Array_0);
                }
                r
            },
            Json::Object(fields) => {
                let mut copy: Vec<(String, Json)> = Vec::new();
                let mut i: usize = 0;
                while i < fields.len()
                    invariant
                        *self == Json::Object(*fields),
                        i <= fields.len(),
                        copy.len() == i,
                        forall|k: int|
                            0 <= k < i ==> copy[k].0@ == fields[k].0@ && copy[k].1@ == fields[k].1@,
                    decreases fields.len() - i,
                {
                    proof {
                        assert(decreases_to!(*self => self->Object_0));
                        assert(decreases_to!(self->Object_0 => self->Object_0[i as int]));
                        assert(decreases_to!(self->Object_0[i as int] => self->Object_0[i as int].1));
                    }
                    copy.push((fields[i].0.clone(), fields[i].1.duplicate()));
                    i += 1;
                }
                let r = Json::Object(copy);
                proof {
                    lemma_members_of(copy@);
                    lemma_members_of(fields@);
                    assert(r@->Object_0 =~= self@->Object_0);
                }
                r
            },
        }
    }

    /// A JSON string.
    pub fn text(value: &str) -> (r: Json)
        ensures
            r@ == JsonTree::Text(value@),
    {
        Json::Text(value.to_owned())
    }

    /// An object without members.
    pub fn empty_object() -> (r: Json)
        ensures
            r@ == JsonTree::empty_object(),
    {
        let r = Json::Object(Vec::new());
        proof {
            assert(r@->Object_0 =~= Seq::empty());
        }
        r
    }

    /// This object with one more member at its end. Anything that is not an
    /// object is handed back as it is.
    pub fn with(self, key: &str, value: Json) -> (r: Json)
        ensures
            r@ == self@.with(key@, value@),
    {
        match self {
            Json::Object(mut fields) => {
                let ghost before = fields@;
                fields.push((key.to_owned(), value));
                proof {
                    assert(fields@.drop_last() =~= before);
                }
                Json::Object(fields)
            },
            other => other,
        }
    }

    /// This object with one more member at its end if there is a value for
    /// it, and unchanged if there is none.
    pub fn with_optional(self, key: &str, value: Option<Json>) -> (r: Json)
        ensures
            r@ == self@.with_optional(key@, option_tree(value)),
    {
        match value {
            Some(v) => self.with(key, v),
            None => self,
        }
    }

    /// An array of JSON strings.
    pub fn text_array(items: &[&str]) -> (r: Json)
        ensures
            r@ == JsonTree::Array(text_trees(items@)),
    {
        let mut out: Vec<Json> = Vec::new();
        let mut i: usize = 0;
        while i < items.len()
            invariant
                i <= items.len(),
                out@.len() == i,
                forall|k: int| 0 <= k < i ==> (#[trigger] out@[k])@ == JsonTree::Text(items@[k]@),
            decreases items.len() - i,
        {
            out.push(Json::text(items[i]));
            i += 1;
        }
        let r = Json::Array(out);
        proof {
            lemma_trees_of(out@);
            assert(r@->Array_0 =~= text_trees(items@));
        }
        r
    }

    /// An array of JSON strings.
    pub fn string_array(items: &Vec<String>) -> (r: Json)
        ensures
            r@ == JsonTree::Array(string_trees(items@)),
    {
        let mut out: Vec<Json> = Vec::new();
        let mut i: usize = 0;
        while i < items.len()
            invariant
                i <= items.len(),
                out@.len() == i,
                forall|k: int| 0 <= k < i ==> (#[trigger] out@[k])@ == JsonTree::Text(items@[k]@),
            decreases items.len() - i,
        {
            out.push(Json::text(items[i].as_str()));
            i += 1;
        }
        let r = Json::Array(out);
        proof {
            lemma_trees_of(out@);
            assert(r@->Array_0 =~= string_trees(items@));
        }
        r
    }

    /// Parses a JSON document.
    pub fn parse(bytes: &[u8]) -> (r: Result<Json, serde_json::Error>)
        ensures
            r is Ok <==> json_document(bytes@) is Some,
            r is Ok ==> r->Ok_0@ == json_document(bytes@)->0,
    {
        match parse_value(bytes) {
            Ok(v) => Ok(json_from_value(v)),
            Err(e) => Err(e),
        }
    }

    /// The member `key` of an object.
    pub fn get(&self, key: &str) -> (r: Option<&Json>)
        ensures
            r is Some <==> self@.member(key@) is Some,
            r is Some ==> r->0@ == self@.member(key@)->0,
    {
        match self {
            Json::Object(fields) => {
                let ghost all = self@->Object_0;
                proof {
                    lemma_members_of(fields@);
                    assert(all.skip(0) =~= all);
                }
                let mut i: usize = 0;
                while i < fields.len()
                    invariant
                        i <= fields.len(),
                        self@ == JsonTree::Object(all),
                        all.len() == fields.len(),
                        forall|k: int| 0 <= k < fields.len() ==> all[k] == (fields[k].0@, fields[k].1@),
                        lookup(all, key@) == lookup(all.skip(i as int), key@),
                    decreases fields.len() - i,
                {
                    let ghost rest = all.skip(i as int);
                    assert(rest[0] == all[i as int]);
                    assert(rest.drop_first() =~= all.skip(i + 1));
                    if str_eq(fields[i].0.as_str(), key) {
                        return Some(&fields[i].1);
                    }
                    i += 1;
                }
                None
            },
            _ => None,
        }
    }
}

} // verus!
