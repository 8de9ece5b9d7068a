//! JSON documents as the feed handlers read them.
//!
//! The text is parsed by `serde_json`. What it parsed is copied, node for
//! node, into [`JsonNode`], which the handlers take apart themselves.

use vstd::prelude::*;
use crate::text::same_text;

verus! {

/// `serde_json::Value`, one node of a parsed document.
#[verifier::external_type_specification]
#[verifier::external_body]
pub struct ExJsonValue(serde_json::Value);

/// One node of a JSON document.
#[derive(Debug)]
pub enum JsonNode {
    Null,
    Bool(bool),
    /// A number that is an integer and fits 64 signed bits.
    Integer(i64),
    /// Any other number.
    OtherNumber,
    Text(String),
    List(Vec<JsonNode>),
    /// The members of an object, each key once.
    Object(Vec<(String, JsonNode)>),
}

/// The document that `serde_json` reads from `text`; `None` where it reads
/// none.
pub uninterp spec fn json_document(text: Seq<char>) -> Option<JsonNode>;

/// The node that stands for a value of `serde_json`: the same kind, the same
/// content, the members of an object in the order `serde_json` keeps them.
pub uninterp spec fn node_of(value: serde_json::Value) -> JsonNode;

/// `serde_json::from_str` for a `Value`: the document that `text` writes, or
/// the crate's error where it writes none.
#[verifier::external_body]
fn parse(text: &str) -> (r: Result<serde_json::Value, serde_json::Error>)
    ensures
        match r {
            Ok(value) => json_document(text@) == Some(node_of(value)),
            Err(_) => json_document(text@) is None,
        },
{
    serde_json::from_str::<serde_json::Value>(text)
}

/// The variants of `serde_json::Value` told apart and their content moved
/// into a [`JsonNode`]; a number is an integer where
/// `serde_json::Number::as_i64` gives one.
#[verifier::external_body]
fn copy_of(value: &serde_json::Value) -> (node: JsonNode)
    ensures
        node == node_of(*value),
{
    match value {
        serde_json::Value::Null => JsonNode::Null,
        serde_json::Value::Bool(flag) => JsonNode::Bool(*flag),
        serde_json::Value::Number(number) => match number.as_i64() {
            Some(integer) => JsonNode::Integer(integer),
            None => JsonNode::OtherNumber,
        },
        serde_json::Value::String(text) => JsonNode::Text(text.clone()),
        serde_json::Value::Array(items) => JsonNode::List(items.iter().map(copy_of).collect()),
        serde_json::Value::Object(members) => JsonNode::Object(
            members.iter().map(|(key, item)| (key.clone(), copy_of(item))).collect(),
        ),
    }
}

/// Reads the document that `text` writes.
pub fn read_json(text: &str) -> (r: Result<JsonNode, serde_json::Error>)
    ensures
        match r {
            Ok(document) => json_document(text@) == Some(document),
            Err(_) => json_document(text@) is None,
        },
{
    match parse(text) {
        Ok(value) => Ok(copy_of(&value)),
        Err(reason) => Err(reason),
    }
}

/// Index of the first member of `members` under `key`, or `members.len()`
/// where there is none.
pub open spec fn first_member(members: Seq<(String, JsonNode)>, key: Seq<char>) -> int
    decreases members.len(),
{
    if members.len() == 0 || members[0].0@ == key {
        0
    } else {
        1 + first_member(members.skip(1), key)
    }
}

/// Where no member before `i` is under `key`, and `i` is the end or holds
/// one, the first member under `key` is at `i`.
proof fn lemma_first_member_at(members: Seq<(String, JsonNode)>, key: Seq<char>, i: int)
    requires
        0 <= i <= members.len(),
        forall|j: int| 0 <= j < i ==> (#[trigger] members[j]).0@ != key,
        i < members.len() ==> members[i].0@ == key,
    ensures
        first_member(members, key) == i,
    decreases i,
{
    if i > 0 {
        let rest = members.skip(1);
        assert forall|j: int| 0 <= j < i - 1 implies (#[trigger] rest[j]).0@ != key by {
            assert(rest[j] == members[j + 1]);
        }
        assert(members[0].0@ != key);
        lemma_first_member_at(rest, key, i - 1);
    }
}

impl JsonNode {
    /// The members of an object; none for any other node.
    pub open spec fn members(self) -> Seq<(String, JsonNode)> {
        match self {
            JsonNode::Object(members) => members@,
            _ => Seq::empty(),
        }
    }

    /// The member under `key`, where the node is an object that has one.
    pub open spec fn spec_member(self, key: Seq<char>) -> Option<JsonNode> {
        let i = first_member(self.members(), key);
        if 0 <= i < self.members().len() {
            Some(self.members()[i].1)
        } else {
            None
        }
    }

    /// The text, where the node is one.
    pub open spec fn spec_text(self) -> Option<String> {
        match self {
            JsonNode::Text(text) => Some(text),
            _ => None,
        }
    }

    /// The integer, where the node is one.
    pub open spec fn spec_integer(self) -> Option<i64> {
        match self {
            JsonNode::Integer(integer) => Some(integer),
            _ => None,
        }
    }

    /// The member under `key`, where the node is an object that has one.
    pub fn member(&self, key: &str) -> (found: Option<&JsonNode>)
        ensures
            match found {
                Some(node) => self.spec_member(key@) == Some(*node),
                None => self.spec_member(key@) is None,
            },
    {
        match self {
            JsonNode::Object(members) => {
                let mut i: usize = 0;
                while i < members.len()
                    invariant
                        i <= members.len(),
                        self.members() == members@,
                        forall|j: int| 0 <= j < i ==> (#[trigger] members@[j]).0@ != key@,
                    decreases members.len() - i,
                {
                    if same_text(members[i].0.as_str(), key) {
                        proof {
                            lemma_first_member_at(members@, key@, i as int);
                        }
                        return Some(&members[i].1);
                    }
                    i = i + 1;
                }
                proof {
                    lemma_first_member_at(members@, key@, members.len() as int);
                }
                None
            },
            _ => None,
        }
    }

    /// The text, where the node is one.
    pub fn text(&self) -> (found: Option<&String>)
        ensures
            match found {
                Some(text) => self.spec_text() == Some(*text),
                None => self.spec_text() is None,
            },
    {
        match self {
            JsonNode::Text(text) => Some(text),
            _ => None,
        }
    }

    /// The integer, where the node is one.
    pub fn integer(&self) -> (found: Option<i64>)
        ensures
            found == self.spec_integer(),
    {
        match self {
            JsonNode::Integer(integer) => Some(*integer),
            _ => None,
        }
    }
}

/// The text under `key` in `node`: `None` where there is no such member or
/// it is no text.
pub open spec fn text_under(node: JsonNode, key: Seq<char>) -> Option<String> {
    match node.spec_member(key) {
        Some(member) => member.spec_text(),
        None => None,
    }
}

/// The integer under `key` in `node`: `None` where there is no such member
/// or it is no integer.
pub open spec fn integer_under(node: JsonNode, key: Seq<char>) -> Option<i64> {
    match node.spec_member(key) {
        Some(member) => member.spec_integer(),
        None => None,
    }
}

/// A copy of the text under `key` in `node`.
pub fn text_field(node: &JsonNode, key: &str) -> (found: Option<String>)
    ensures
        found == text_under(*node, key@),
{
    match node.member(key) {
        Some(member) => match member.text() {
            Some(text) => Some(text.clone()),
            None => None,
        },
        None => None,
    }
}

/// The integer under `key` in `node`.
pub fn integer_field(node: &JsonNode, key: &str) -> (found: Option<i64>)
    ensures
        found == integer_under(*node, key@),
{
    match node.member(key) {
        Some(member) => member.integer(),
        None => None,
    }
}

} // verus!
