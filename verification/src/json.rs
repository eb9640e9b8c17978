//! JSON documents as trees of plain values.

use vstd::prelude::*;

use crate::error::ParseError;
use crate::text::same_text;

verus! {

/// A JSON document.
#[derive(Debug, PartialEq, Eq)]
pub enum JsonValue {
    Null,
    Bool(bool),
    /// A number, held as it is written.
    Number(String),
    String(String),
    Array(Vec<JsonValue>),
    /// The members of an object, in the order in which the document's map
    /// hands them out.
    Object(Vec<(String, JsonValue)>),
}

/// The mathematical model of a [`JsonValue`].
pub enum JsonTree {
    Null,
    Bool(bool),
    Number(Seq<char>),
    String(Seq<char>),
    Array(Seq<JsonTree>),
    Object(Seq<(Seq<char>, JsonTree)>),
}

impl View for JsonValue {
    type V = JsonTree;

    open spec fn view(&self) -> JsonTree
        decreases self,
    {
        match self {
            JsonValue::Null => JsonTree::Null,
            JsonValue::Bool(b) => JsonTree::Bool(*b),
            JsonValue::Number(n) => JsonTree::Number(n@),
            JsonValue::String(s) => JsonTree::String(s@),
            JsonValue::Array(items) => JsonTree::Array(
                Seq::new(
                    items@.len(),
                    |i: int|
                        if 0 <= i < items@.len() {
                            items@[i].view()
                        } else {
                            JsonTree::Null
                        },
                ),
            ),
            JsonValue::Object(members) => JsonTree::Object(
                Seq::new(
                    members@.len(),
                    |i: int|
                        if 0 <= i < members@.len() {
                            (members@[i].0@, members@[i].1.view())
                        } else {
                            (Seq::empty(), JsonTree::Null)
                        },
                ),
            ),
        }
    }
}

/// The document that `serde_json::from_str` reads from a text, where it reads
/// one.
pub uninterp spec fn json_document(text: Seq<char>) -> Option<JsonTree>;

/// A document as `serde_json` holds it; the library only converts it.
#[verifier::external_type_specification]
#[verifier::external_body]
pub struct ExJsonValue(serde_json::Value);

/// What a `serde_json::Value` holds: its items and members in the order in
/// which it hands them out, and each number as it writes it.
pub uninterp spec fn json_tree(value: serde_json::Value) -> JsonTree;

/// Calls `serde_json::from_str` for a `serde_json::Value`. The contract claims
/// that the call succeeds exactly on the texts that have a document, and that
/// the value holds that document; on failure the parser's message is handed
/// back.
#[verifier::external_body]
fn json_from_text(text: &str) -> (res: Result<serde_json::Value, String>)
    ensures
        res is Ok <==> json_document(text@) is Some,
        res matches Ok(value) ==> Some(json_tree(value)) == json_document(text@),
{
    match serde_json::from_str::<serde_json::Value>(text) {
        Ok(value) => Ok(value),
        Err(error) => Err(error.to_string()),
    }
}

/// Moves a `serde_json::Value` into a [`JsonValue`], variant by variant and,
/// for what an array or an object holds, item by item. The contract claims
/// that the result holds what the value held.
#[verifier::external_body]
fn json_from_value(value: serde_json::Value) -> (res: JsonValue)
    ensures
        res@ == json_tree(value),
{
    match value {
        serde_json::Value::Null => JsonValue::Null,
        serde_json::Value::Bool(b) => JsonValue::Bool(b),
        serde_json::Value::Number(n) => JsonValue::Number(n.to_string()),
        serde_json::Value::String(s) => JsonValue::String(s),
        serde_json::Value::Array(items) => JsonValue::Array(
            items.into_iter().map(json_from_value).collect(),
        ),
        serde_json::Value::Object(members) => JsonValue::Object(
            members.into_iter().map(|(key, item)| (key, json_from_value(item))).collect(),
        ),
    }
}

/// Where the first member with this key stands among the members of an
/// object; the number of members where none has it.
pub open spec fn member_position(members: Seq<(Seq<char>, JsonTree)>, key: Seq<char>) -> int
    decreases members.len(),
{
    if members.len() == 0 {
        0
    } else if members[0].0 == key {
        0
    } else {
        1 + member_position(members.drop_first(), key)
    }
}

/// The text that a path of keys leads to.
///
/// The walk goes into the first item of an array, and into the member of an
/// object that the next key names, which uses that key up. It ends at any
/// other node, and finds something only where that node is a text.
pub open spec fn json_lookup(node: JsonTree, keys: Seq<Seq<char>>) -> Option<Seq<char>>
    decreases node,
{
    match node {
        JsonTree::Array(items) => if items.len() == 0 {
            None
        } else {
            json_lookup(items[0], keys)
        },
        JsonTree::Object(members) => {
            if keys.len() == 0 {
                None
            } else {
                let at = member_position(members, keys[0]);
                if 0 <= at < members.len() {
                    json_lookup(members[at].1, keys.drop_first())
                } else {
                    None
                }
            }
        },
        JsonTree::String(text) => Some(text),
        _ => None,
    }
}

/// `member_position` stays within the members, and no member before it has
/// the key.
pub proof fn lemma_member_position(members: Seq<(Seq<char>, JsonTree)>, key: Seq<char>)
    ensures
        0 <= member_position(members, key) <= members.len(),
        forall|i: int| 0 <= i < member_position(members, key) ==> (#[trigger] members[i]).0 != key,
        member_position(members, key) < members.len() ==> members[member_position(
            members,
            key,
        )].0 == key,
    decreases members.len(),
{
    if members.len() > 0 && members[0].0 != key {
        let rest = members.drop_first();
        lemma_member_position(rest, key);
        assert forall|i: int| 0 <= i < member_position(members, key) implies (#[trigger] members[i]).0
            != key by {
            if i > 0 {
                assert(members[i] == rest[i - 1]);
            }
        }
    }
}

/// A position that holds the key, with no earlier one that does, is the
/// `member_position`; the number of members is, where no position holds it.
pub proof fn lemma_member_position_is(members: Seq<(Seq<char>, JsonTree)>, key: Seq<char>, at: int)
    requires
        0 <= at <= members.len(),
        forall|i: int| 0 <= i < at ==> (#[trigger] members[i]).0 != key,
        at < members.len() ==> members[at].0 == key,
    ensures
        member_position(members, key) == at,
    decreases members.len(),
{
    if members.len() > 0 && at > 0 {
        let rest = members.drop_first();
        lemma_member_position_is(rest, key, at - 1);
    }
}

/// The model of an object holds, for each member in its order, the key's text
/// and the model of what stands under it.
pub proof fn lemma_object_view(members: Vec<(String, JsonValue)>)
    ensures
        JsonValue::Object(members)@ is Object,
        JsonValue::Object(members)@->Object_0.len() == members@.len(),
        forall|i: int|
            0 <= i < members@.len() ==> (#[trigger] JsonValue::Object(members)@->Object_0[i]) == (
                members@[i].0@,
                members@[i].1@,
            ),
{
    reveal_with_fuel(<JsonValue as View>::view, 2);
}

impl JsonValue {
    /// Reads a document from a text.
    pub fn parse(text: &str) -> (res: Result<JsonValue, ParseError>)
        ensures
            match json_document(text@) {
                Some(tree) => res matches Ok(value) && value@ == tree,
                None => res matches Err(ParseError::Json(_)),
            },
    {
        match json_from_text(text) {
            Ok(value) => Ok(json_from_value(value)),
            Err(message) => Err(ParseError::Json(message)),
        }
    }

    /// The member of an object that a key names: the first one with that key.
    pub fn member(&self, key: &str) -> (res: Option<&JsonValue>)
        ensures
            match self@ {
                JsonTree::Object(members) => {
                    let at = member_position(members, key@);
                    if at < members.len() {
                        res matches Some(found) && found@ == members[at].1
                    } else {
                        res is None
                    }
                },
                _ => res is None,
            },
    {
        match self {
            JsonValue::Object(members) => {
                let at = find_member(members, key);
                proof {
                    lemma_object_view(*members);
                }
                if at < members.len() {
                    Some(&members[at].1)
                } else {
                    None
                }
            },
            _ => None,
        }
    }

    /// The text that a path of keys leads to, from this node.
    pub fn lookup(&self, keys: &Vec<&str>) -> (res: Option<String>)
        ensures
            res.deep_view() == json_lookup(self@, keys.deep_view()),
    {
        let mut node: &JsonValue = self;
        let mut used: usize = 0;
        assert(keys.deep_view().skip(0) =~= keys.deep_view());
        loop
            invariant
                0 <= used <= keys.len(),
                json_lookup(self@, keys.deep_view()) == json_lookup(
                    node@,
                    keys.deep_view().skip(used as int),
                ),
            decreases node,
        {
            match node {
                JsonValue::Array(items) => {
                    if items.len() == 0 {
                        return None;
                    }
                    node = &items[0];
                },
                JsonValue::Object(members) => {
                    if used >= keys.len() {
                        return None;
                    }
                    let ghost rest = keys.deep_view().skip(used as int);
                    assert(rest.drop_first() == keys.deep_view().skip(used + 1));
                    proof {
                        lemma_object_view(*members);
                    }
                    let at = find_member(members, keys[used]);
                    if at >= members.len() {
                        return None;
                    }
                    node = &members[at].1;
                    used += 1;
                },
                JsonValue::String(text) => {
                    return Some(text.clone());
                },
                _ => {
                    return None;
                },
            }
        }
    }
}

/// Where the first member with this key stands; the number of members where
/// none has it.
fn find_member(members: &Vec<(String, JsonValue)>, key: &str) -> (at: usize)
    ensures
        at == member_position(JsonValue::Object(*members)@->Object_0, key@),
        at <= members.len(),
{
    let ghost tree = JsonValue::Object(*members)@->Object_0;
    proof {
        lemma_object_view(*members);
    }
    let mut i: usize = 0;
    while i < members.len()
        invariant
            0 <= i <= members.len(),
            tree == JsonValue::Object(*members)@->Object_0,
            tree.len() == members@.len(),
            forall|j: int|
                0 <= j < tree.len() ==> #[trigger] tree[j] == (members@[j].0@, members@[j].1@),
            forall|j: int| 0 <= j < i ==> (#[trigger] tree[j]).0 != key@,
        decreases members.len() - i,
    {
        if same_text(members[i].0.as_str(), key) {
            proof {
                lemma_member_position_is(tree, key@, i as int);
            }
            return i;
        }
        i += 1;
    }
    proof {
        lemma_member_position_is(tree, key@, tree.len() as int);
    }
    i
}

} // verus!
