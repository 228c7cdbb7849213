use vstd::prelude::*;
use crate::text::str_eq;

verus! {

/// A JSON document as a tree of plain values. Numbers carry no payload:
/// nothing in this library reads them.
#[derive(Eq, PartialEq, Debug)]
pub enum JsonNode {
    Null,
    Bool(bool),
    Num,
    Str(String),
    Arr(Vec<JsonNode>),
    Obj(Vec<(String, JsonNode)>),
}

/// Mathematical image of a JSON tree.
pub enum Json {
    Null,
    Bool(bool),
    Num,
    Str(Seq<char>),
    Arr(Seq<Json>),
    Obj(Seq<(Seq<char>, Json)>),
}

pub open spec fn json_view(n: JsonNode) -> Json
    decreases n,
{
    match n {
        JsonNode::Null => Json::Null,
        JsonNode::Bool(b) => Json::Bool(b),
        JsonNode::Num => Json::Num,
        JsonNode::Str(s) => Json::Str(s@),
        JsonNode::Arr(v) => Json::Arr(nodes_view(v@)),
        JsonNode::Obj(v) => Json::Obj(pairs_view(v@)),
    }
}

/// The images of the elements of a sequence of nodes.
pub open spec fn nodes_view(v: Seq<JsonNode>) -> Seq<Json>
    decreases v,
{
    if v.len() == 0 {
        Seq::empty()
    } else {
        nodes_view(v.drop_last()).push(json_view(v.last()))
    }
}

/// The images of the entries of an object's key-value pairs.
pub open spec fn pairs_view(v: Seq<(String, JsonNode)>) -> Seq<(Seq<char>, Json)>
    decreases v,
{
    if v.len() == 0 {
        Seq::empty()
    } else {
        pairs_view(v.drop_last()).push((v.last().0@, json_view(v.last().1)))
    }
}

impl View for JsonNode {
    type V = Json;

    open spec fn view(&self) -> Json {
        json_view(*self)
    }
}

/// `nodes_view` maps the sequence pointwise.
pub proof fn lemma_nodes_view(v: Seq<JsonNode>)
    ensures
        nodes_view(v).len() == v.len(),
        forall|i: int| 0 <= i < v.len() ==> nodes_view(v)[i] == v[i]@,
    decreases v.len(),
{
    if v.len() > 0 {
        lemma_nodes_view(v.drop_last());
    }
}

/// `pairs_view` maps the sequence pointwise.
pub proof fn lemma_pairs_view(v: Seq<(String, JsonNode)>)
    ensures
        pairs_view(v).len() == v.len(),
        forall|i: int| 0 <= i < v.len() ==> pairs_view(v)[i] == (v[i].0@, v[i].1@),
    decreases v.len(),
{
    if v.len() > 0 {
        lemma_pairs_view(v.drop_last());
    }
}

/// The value under `key` in an object's entries: the first entry whose key
/// matches, if any.
pub open spec fn obj_lookup(entries: Seq<(Seq<char>, Json)>, key: Seq<char>) -> Option<Json>
    decreases entries.len(),
{
    if entries.len() == 0 {
        None
    } else if entries[0].0 == key {
        Some(entries[0].1)
    } else {
        obj_lookup(entries.drop_first(), key)
    }
}

/// The value under `key`, when `j` is an object that has one.
pub open spec fn spec_get(j: Json, key: Seq<char>) -> Option<Json> {
    match j {
        Json::Obj(entries) => obj_lookup(entries, key),
        _ => None,
    }
}

/// The text under `key`, when `j` is an object whose `key` field is a string.
pub open spec fn spec_get_str(j: Json, key: Seq<char>) -> Option<Seq<char>> {
    match spec_get(j, key) {
        Some(Json::Str(s)) => Some(s),
        _ => None,
    }
}

/// The boolean under `key`, when `j` is an object whose `key` field is one.
pub open spec fn spec_get_bool(j: Json, key: Seq<char>) -> Option<bool> {
    match spec_get(j, key) {
        Some(Json::Bool(b)) => Some(b),
        _ => None,
    }
}

proof fn lemma_obj_lookup_found(entries: Seq<(Seq<char>, Json)>, key: Seq<char>, i: int)
    requires
        0 <= i < entries.len(),
        entries[i].0 == key,
        forall|j: int| 0 <= j < i ==> entries[j].0 != key,
    ensures
        obj_lookup(entries, key) == Some(entries[i].1),
    decreases i,
{
    if i > 0 {
        lemma_obj_lookup_found(entries.drop_first(), key, i - 1);
        assert(entries.drop_first()[i - 1] == entries[i]);
    }
}

proof fn lemma_obj_lookup_none(entries: Seq<(Seq<char>, Json)>, key: Seq<char>)
    requires
        forall|j: int| 0 <= j < entries.len() ==> entries[j].0 != key,
    ensures
        obj_lookup(entries, key) is None,
    decreases entries.len(),
{
    if entries.len() > 0 {
        lemma_obj_lookup_none(entries.drop_first(), key);
    }
}

impl JsonNode {
    /// The held text, when this node is a string.
    pub fn get_str(&self) -> (r: Option<&String>)
        ensures
            match self@ {
                Json::Str(s) => r matches Some(x) && x@ == s,
                _ => r is None,
            },
    {
        match self {
            JsonNode::Str(s) => Some(s),
            _ => None,
        }
    }

    /// The held boolean, when this node is one.
    pub fn get_bool(&self) -> (r: Option<bool>)
        ensures
            match self@ {
                Json::Bool(b) => r == Some(b),
                _ => r is None,
            },
    {
        match self {
            JsonNode::Bool(b) => Some(*b),
            _ => None,
        }
    }

    /// The held elements, when this node is an array.
    pub fn get_arr(&self) -> (r: Option<&Vec<JsonNode>>)
        ensures
            match self@ {
                Json::Arr(a) => r matches Some(v) && a == nodes_view(v@),
                _ => r is None,
            },
    {
        match self {
            JsonNode::Arr(v) => Some(v),
            _ => None,
        }
    }

    /// The held entries, when this node is an object.
    pub fn get_obj(&self) -> (r: Option<&Vec<(String, JsonNode)>>)
        ensures
            match self@ {
                Json::Obj(e) => r matches Some(v) && e == pairs_view(v@),
                _ => r is None,
            },
    {
        match self {
            JsonNode::Obj(v) => Some(v),
            _ => None,
        }
    }

    /// The value under `key`, in the sense of `spec_get`: the first entry of
    /// an object whose key matches.
    pub fn lookup<'a>(&'a self, key: &str) -> (r: Option<&'a JsonNode>)
        ensures
            match r {
                Some(n) => spec_get(self@, key@) == Some(n@),
                None => spec_get(self@, key@) is None,
            },
    {
        match self {
            JsonNode::Obj(entries) => {
                let ghost e = pairs_view(entries@);
                proof {
                    lemma_pairs_view(entries@);
                }
                let mut i: usize = 0;
                while i < entries.len()
                    invariant
                        i <= entries.len(),
                        e == pairs_view(entries@),
                        self@ == Json::Obj(e),
                        forall|j: int| 0 <= j < i ==> e[j].0 != key@,
                    decreases entries.len() - i,
                {
                    let hit = str_eq(entries[i].0.as_str(), key);
                    proof {
                        lemma_pairs_view(entries@);
                    }
                    if hit {
                        proof {
                            lemma_obj_lookup_found(e, key@, i as int);
                        }
                        return Some(&entries[i].1);
                    }
                    i += 1;
                }
                proof {
                    lemma_obj_lookup_none(e, key@);
                }
                None
            },
            _ => None,
        }
    }
}

#[verifier::external_type_specification]
#[verifier::external_body]
pub struct ExJsonValue(serde_json::Value);

/// What parsing a byte sequence as JSON yields: `None` when the bytes are not
/// well-formed JSON, otherwise the parsed tree, with each object's entries in
/// the order serde_json's map iterates them. serde_json parses from the bytes
/// alone, so this is a function of them.
pub uninterp spec fn parsed_json(bytes: Seq<u8>) -> Option<Json>;

/// Relies on serde_json::Value: its six variants are rebuilt one arm each as
/// the library's own tree.
#[verifier::external_body]
fn node_from_value(v: &serde_json::Value) -> JsonNode {
    match v {
        serde_json::Value::Null => JsonNode::Null,
        serde_json::Value::Bool(b) => JsonNode::Bool(*b),
        serde_json::Value::Number(_) => JsonNode::Num,
        serde_json::Value::String(s) => JsonNode::Str(s.clone()),
        serde_json::Value::Array(a) => JsonNode::Arr(a.iter().map(node_from_value).collect()),
        serde_json::Value::Object(m) => JsonNode::Obj(
            m.iter().map(|(k, x)| (k.clone(), node_from_value(x))).collect(),
        ),
    }
}

/// Relies on serde_json::from_slice: it parses from the bytes alone, returns
/// Ok exactly when they are well-formed JSON, and its error's message
/// describes the syntax failure.
#[verifier::external_body]
pub(crate) fn parse_json_bytes(bytes: &[u8]) -> (r: Result<JsonNode, String>)
    ensures
        r matches Ok(n) ==> parsed_json(bytes@) == Some(n@),
        r is Err ==> parsed_json(bytes@) is None,
{
    match serde_json::from_slice::<serde_json::Value>(bytes) {
        Ok(v) => Ok(node_from_value(&v)),
        Err(e) => Err(e.to_string()),
    }
}

} // verus!
