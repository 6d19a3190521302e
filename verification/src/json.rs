//! JSON values as plain trees.
use vstd::prelude::*;
use crate::text::same_text;

verus! {

/// A JSON value. Of a number it holds what is read of one: its value, where that is
/// a whole number from 0 to `u64::MAX`.
pub enum Json {
    Null,
    Bool(bool),
    Number(Option<u64>),
    Text(String),
    Array(Vec<Json>),
    /// The members in order; where a key occurs twice, the later member counts.
    Object(Vec<(String, Json)>),
}

/// What a [`Json`] value says.
pub enum JsonTree {
    Null,
    Bool(bool),
    Number(Option<u64>),
    Text(Seq<char>),
    Array(Seq<JsonTree>),
    Object(Map<Seq<char>, JsonTree>),
}

impl View for Json {
    type V = JsonTree;

    open spec fn view(&self) -> JsonTree {
        json_tree(*self)
    }
}

/// The tree that a value stands for.
pub open spec fn json_tree(json: Json) -> JsonTree
    decreases json,
{
    match json {
        Json::Null => JsonTree::Null,
        Json::Bool(b) => JsonTree::Bool(b),
        Json::Number(n) => JsonTree::Number(n),
        Json::Text(s) => JsonTree::Text(s@),
        Json::Array(items) => JsonTree::Array(
            Seq::new(
                items@.len(),
                |i: int|
                    if 0 <= i < items@.len() {
                        json_tree(items@[i])
                    } else {
                        JsonTree::Null
                    },
            ),
        ),
        Json::Object(members) => JsonTree::Object(member_map(members@)),
    }
}

/// The members of an object by key, a later one in place of an earlier one of the same key.
pub open spec fn member_map(members: Seq<(String, Json)>) -> Map<Seq<char>, JsonTree>
    decreases members,
{
    if members.len() == 0 {
        Map::empty()
    } else {
        member_map(members.drop_last()).insert(members.last().0@, json_tree(members.last().1))
    }
}

impl JsonTree {
    /// The member under `key`, where the value is an object that has one.
    pub open spec fn member(self, key: Seq<char>) -> Option<JsonTree> {
        match self {
            JsonTree::Object(members) if members.contains_key(key) => Some(members[key]),
            _ => None,
        }
    }

    /// The characters, where the value is a string.
    pub open spec fn text(self) -> Option<Seq<char>> {
        match self {
            JsonTree::Text(s) => Some(s),
            _ => None,
        }
    }

    /// The string under `key`, where the value is an object with a string there.
    pub open spec fn member_text(self, key: Seq<char>) -> Option<Seq<char>> {
        match self.member(key) {
            Some(v) => v.text(),
            None => None,
        }
    }

    /// The items, where the value is an array.
    pub open spec fn items(self) -> Option<Seq<JsonTree>> {
        match self {
            JsonTree::Array(items) => Some(items),
            _ => None,
        }
    }
}

/// The trees that a run of values stands for.
pub open spec fn json_trees(items: Seq<Json>) -> Seq<JsonTree> {
    items.map_values(|item: Json| item@)
}

impl Json {
    /// The member under `key`, where this is an object that has one.
    pub fn get(&self, key: &str) -> (r: Option<&Json>)
        ensures
            match r {
                Some(v) => self@.member(key@) == Some(v@),
                None => self@.member(key@) is None,
            },
    {
        match self {
            Json::Object(members) => {
                let mut i: usize = members.len();
                assert(members@.take(i as int) =~= members@);
                while i > 0
                    invariant
                        i <= members.len(),
                        member_map(members@).contains_key(key@) == member_map(
                            members@.take(i as int),
                        ).contains_key(key@),
                        member_map(members@).contains_key(key@) ==> member_map(members@)[key@]
                            == member_map(members@.take(i as int))[key@],
                        *self == Json::Object(*members),
                    decreases i,
                {
                    let ghost head = members@.take(i as int);
                    assert(head.drop_last() =~= members@.take(i - 1));
                    assert(head.last() == members@[i - 1]);
                    if same_text(members[i - 1].0.as_str(), key) {
                        return Some(&members[i - 1].1);
                    }
                    i -= 1;
                }
                None
            },
            _ => None,
        }
    }

    /// The string, where this is one.
    pub fn as_str(&self) -> (r: Option<&str>)
        ensures
            match r {
                Some(s) => self@.text() == Some(s@),
                None => self@.text() is None,
            },
    {
        match self {
            Json::Text(s) => Some(s.as_str()),
            _ => None,
        }
    }

    /// The items, where this is an array.
    pub fn as_array(&self) -> (r: Option<&Vec<Json>>)
        ensures
            match r {
                Some(items) => self@.items() == Some(json_trees(items@)),
                None => self@.items() is None,
            },
    {
        match self {
            Json::Array(items) => {
                assert(self@.items()->Some_0 =~= json_trees(items@));
                Some(items)
            },
            _ => None,
        }
    }

    /// The string under `key`, where this is an object with a string there.
    pub fn get_str(&self, key: &str) -> (r: Option<&str>)
        ensures
            match r {
                Some(s) => self@.member_text(key@) == Some(s@),
                None => self@.member_text(key@) is None,
            },
    {
        match self.get(key) {
            Some(v) => v.as_str(),
            None => None,
        }
    }
}

/// A value as `serde_json` holds it.
#[verifier::external_type_specification]
#[verifier::external_body]
pub struct ExValue(serde_json::Value);

/// What a `serde_json` value holds, all the way down.
pub uninterp spec fn tree_of(value: serde_json::Value) -> JsonTree;

/// How deep a `serde_json` value nests: an item or a member nests less deep than what it is in.
pub uninterp spec fn depth_of(value: serde_json::Value) -> nat;

/// What `serde_json` reads in a text: nothing where the text is not one JSON value.
pub uninterp spec fn parsed_json(text: Seq<char>) -> Option<JsonTree>;

/// The outermost level of a `serde_json` value.
enum JsonNode {
    Null,
    Bool(bool),
    Number(Option<u64>),
    Text(String),
    Array(Vec<serde_json::Value>),
    Object(Vec<(String, serde_json::Value)>),
}

/// What the members hold, by key.
spec fn held_members(members: Seq<(String, serde_json::Value)>) -> Map<Seq<char>, JsonTree>
    decreases members.len(),
{
    if members.len() == 0 {
        Map::empty()
    } else {
        held_members(members.drop_last()).insert(members.last().0@, tree_of(members.last().1))
    }
}

/// What a level holds, over what its parts hold.
spec fn held_tree(node: JsonNode) -> JsonTree {
    match node {
        JsonNode::Null => JsonTree::Null,
        JsonNode::Bool(b) => JsonTree::Bool(b),
        JsonNode::Number(n) => JsonTree::Number(n),
        JsonNode::Text(s) => JsonTree::Text(s@),
        JsonNode::Array(items) => JsonTree::Array(
            items@.map_values(|item: serde_json::Value| tree_of(item)),
        ),
        JsonNode::Object(members) => JsonTree::Object(held_members(members@)),
    }
}

/// Whether every part of a level nests less deep than `depth`.
spec fn parts_below(node: JsonNode, depth: nat) -> bool {
    match node {
        JsonNode::Array(items) => forall|i: int|
            0 <= i < items@.len() ==> depth_of(#[trigger] items@[i]) < depth,
        JsonNode::Object(members) => forall|i: int|
            0 <= i < members@.len() ==> depth_of((#[trigger] members@[i]).1) < depth,
        _ => true,
    }
}

/// A level holds what its parts hold: an array each item at its place, and an object under each
/// key what the last member with that key holds.
proof fn level_holds_its_parts(node: JsonNode, i: int)
    ensures
        match node {
            JsonNode::Null => held_tree(node) == JsonTree::Null,
            JsonNode::Bool(b) => held_tree(node) == JsonTree::Bool(b),
            JsonNode::Number(n) => held_tree(node) == JsonTree::Number(n),
            JsonNode::Text(s) => held_tree(node) == JsonTree::Text(s@),
            JsonNode::Array(items) => {
                &&& held_tree(node) is Array
                &&& held_tree(node)->Array_0.len() == items@.len()
                &&& 0 <= i < items@.len() ==> held_tree(node)->Array_0[i] == tree_of(items@[i])
            },
            JsonNode::Object(members) => {
                &&& held_tree(node) is Object
                &&& members@.len() == 0 ==> held_tree(node)->Object_0 == Map::<
                    Seq<char>,
                    JsonTree,
                >::empty()
                &&& members@.len() > 0 ==> held_tree(node)->Object_0 == held_members(
                    members@.drop_last(),
                ).insert(members@.last().0@, tree_of(members@.last().1))
            },
        },
{
}

/// `serde_json::from_str`, for a `serde_json::Value`: what comes back depends on the text
/// alone and is named [`parsed_json`]. Which texts are JSON is left unsaid.
#[verifier::external_body]
fn value_from_str(text: &str) -> (r: Option<serde_json::Value>)
    ensures
        match r {
            Some(v) => parsed_json(text@) == Some(tree_of(v)),
            None => parsed_json(text@) is None,
        },
{
    serde_json::from_str(text).ok()
}

/// The variants of `serde_json::Value`, with `serde_json::Number::as_u64` on a number: the
/// level handed out holds what the value holds, and its parts nest less deep.
#[verifier::external_body]
fn open_value(value: serde_json::Value) -> (r: JsonNode)
    ensures
        tree_of(value) == held_tree(r),
        parts_below(r, depth_of(value)),
{
    match value {
        serde_json::Value::Null => JsonNode::Null,
        serde_json::Value::Bool(b) => JsonNode::Bool(b),
        serde_json::Value::Number(n) => JsonNode::Number(n.as_u64()),
        serde_json::Value::String(s) => JsonNode::Text(s),
        serde_json::Value::Array(items) => JsonNode::Array(items),
        serde_json::Value::Object(members) => JsonNode::Object(members.into_iter().collect()),
    }
}

/// The plain tree of a `serde_json` value.
fn json_of_value(value: serde_json::Value) -> (r: Json)
    ensures
        r@ == tree_of(value),
    decreases depth_of(value),
{
    let ghost depth = depth_of(value);
    let node = open_value(value);
    proof {
        level_holds_its_parts(node, 0);
    }
    match node {
        JsonNode::Null => Json::Null,
        JsonNode::Bool(b) => Json::Bool(b),
        JsonNode::Number(n) => Json::Number(n),
        JsonNode::Text(s) => Json::Text(s),
        JsonNode::Array(items) => {
            let ghost all = items@;
            let mut out: Vec<Json> = Vec::new();
            for item in it: items
                invariant
                    it.seq() == all,
                    depth == depth_of(value),
                    forall|i: int| 0 <= i < all.len() ==> depth_of(#[trigger] all[i]) < depth,
                    out@.len() == it.index(),
                    forall|i: int| 0 <= i < out@.len() ==> (#[trigger] out@[i])@ == tree_of(all[i]),
            {
                out.push(json_of_value(item));
            }
            let r = Json::Array(out);
            assert(r@->Array_0 =~= all.map_values(|item: serde_json::Value| tree_of(item)));
            r
        },
        JsonNode::Object(members) => {
            let ghost all = members@;
            let mut out: Vec<(String, Json)> = Vec::new();
            for member in it: members
                invariant
                    it.seq() == all,
                    depth == depth_of(value),
                    forall|i: int| 0 <= i < all.len() ==> depth_of((#[trigger] all[i]).1) < depth,
                    out@.len() == it.index(),
                    member_map(out@) == held_members(all.take(it.index() as int)),
            {
                let ghost before = out@;
                let (key, part) = member;
                out.push((key, json_of_value(part)));
                assert(out@.drop_last() =~= before);
                assert(all.take(it.index() + 1).drop_last() =~= all.take(it.index() as int));
            }
            assert(all.take(all.len() as int) =~= all);
            Json::Object(out)
        },
    }
}

/// Reads a text as one JSON value; nothing comes back where it is not one.
pub fn parse_json(text: &str) -> (r: Option<Json>)
    ensures
        match r {
            Some(v) => parsed_json(text@) == Some(v@),
            None => parsed_json(text@) is None,
        },
{
    match value_from_str(text) {
        Some(v) => Some(json_of_value(v)),
        None => None,
    }
}

} // verus!
