//! JSON documents as trees.

use crate::string_map::position_of;
use crate::text::same_text;
use vstd::prelude::*;

verus! {

/// A number of a JSON document, as the two readings that the parser offers.
#[derive(Clone, Copy, Debug, PartialEq, Eq)]
pub struct JsonNumber {
    /// The number as an unsigned integer, where the document wrote one that
    /// fits 64 bits.
    pub unsigned: Option<u64>,
    /// The number as a double, by its bit pattern.
    pub real: Option<u64>,
}

/// A JSON value.
#[derive(Debug, PartialEq, Eq)]
pub enum Json {
    Null,
    Bool(bool),
    Number(JsonNumber),
    Text(String),
    Array(Vec<Json>),
    /// The members in document order. Where a key occurs twice, the later
    /// member counts.
    Object(Vec<(String, Json)>),
}

impl Json {
    /// The members of an object, each key by its characters; no members for
    /// any other value.
    pub open spec fn members(self) -> Seq<(Seq<char>, Json)> {
        match self {
            Json::Object(members) => Seq::new(
                members@.len(),
                |i: int| (members@[i].0@, members@[i].1),
            ),
            _ => Seq::empty(),
        }
    }

    /// The member of an object under `key`.
    pub open spec fn member(self, key: Seq<char>) -> Option<Json> {
        match position_of(self.members(), key) {
            Some(at) => Some(self.members()[at].1),
            None => None,
        }
    }

    /// Whether the value is an object.
    pub fn is_object(&self) -> (object: bool)
        ensures
            object == (*self is Object),
    {
        match self {
            Json::Object(_) => true,
            _ => false,
        }
    }

    /// The member of an object under `key`.
    pub fn get(&self, key: &str) -> (found: Option<&Json>)
        ensures
            match found {
                Some(value) => self.member(key@) == Some(*value),
                None => self.member(key@) is None,
            },
    {
        match self {
            Json::Object(members) => {
                let ghost all = self.members();
                let mut found: Option<&Json> = None;
                let mut i: usize = 0;
                while i < members.len()
                    invariant
                        i <= members.len(),
                        all.len() == members@.len(),
                        forall|k: int|
                            0 <= k < all.len() ==> all[k] == (members@[k].0@, members@[k].1),
                        match found {
                            Some(value) => {
                                &&& position_of(all.take(i as int), key@) is Some
                                &&& all[position_of(all.take(i as int), key@)->0].1 == *value
                            },
                            None => position_of(all.take(i as int), key@) is None,
                        },
                    decreases members.len() - i,
                {
                    assert(all.take(i + 1).drop_last() =~= all.take(i as int));
                    if same_text(members[i].0.as_str(), key) {
                        found = Some(&members[i].1);
                    }
                    i += 1;
                }
                assert(all.take(i as int) =~= all);
                found
            },
            _ => None,
        }
    }
}

/// `serde_json::Value`, which the verifier carries without looking inside.
#[verifier::external_type_specification]
#[verifier::external_body]
pub struct ExValue(serde_json::Value);

/// `serde_json::Error`, which the verifier carries without looking inside.
#[verifier::external_type_specification]
#[verifier::external_body]
pub struct ExError(serde_json::Error);

/// The value that `serde_json::from_slice` reads from `bytes` as a tree of
/// this library, or `None` where it reports an error.
pub uninterp spec fn json_document(bytes: Seq<u8>) -> Option<Json>;

/// What a `serde_json::Value` holds, as a tree of this library.
pub uninterp spec fn json_tree(value: serde_json::Value) -> Json;

/// `serde_json::from_slice`, asked for a `serde_json::Value`: the whole of
/// `bytes` read as one JSON document. The contract only names what comes
/// back: the document is what the value holds, and there is none where an
/// error comes back.
#[verifier::external_body]
fn read_document(bytes: &[u8]) -> (read: Result<serde_json::Value, serde_json::Error>)
    ensures
        json_document(bytes@) == match read {
            Ok(value) => Some(json_tree(value)),
            Err(_) => None,
        },
{
    serde_json::from_slice::<serde_json::Value>(bytes)
}

/// Moves a `serde_json::Value` into a tree of this library, variant by
/// variant. A number is taken by `Number::as_u64` and by the bits of
/// `Number::as_f64`; the members of an object come in the order in which
/// the map hands them out. The contract only names what comes back.
#[verifier::external_body]
fn tree_of(value: serde_json::Value) -> (tree: Json)
    ensures
        tree == json_tree(value),
{
    match value {
        serde_json::Value::Null => Json::Null,
        serde_json::Value::Bool(b) => Json::Bool(b),
        serde_json::Value::Number(n) => Json::Number(
            JsonNumber { unsigned: n.as_u64(), real: n.as_f64().map(|x| x.to_bits()) },
        ),
        serde_json::Value::String(s) => Json::Text(s),
        serde_json::Value::Array(items) => Json::Array(items.into_iter().map(tree_of).collect()),
        serde_json::Value::Object(members) => Json::Object(
            members.into_iter().map(|(k, v)| (k, tree_of(v))).collect(),
        ),
    }
}

/// Parses one JSON document: the whole of `bytes` has to be one value,
/// with nothing but whitespace around it.
pub fn parse(bytes: &[u8]) -> (document: Option<Json>)
    ensures
        document == json_document(bytes@),
{
    match read_document(bytes) {
        Ok(value) => Some(tree_of(value)),
        Err(_) => None,
    }
}

} // verus!
