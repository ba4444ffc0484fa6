//! JSON documents as trees of plain values.
//!
//! `serde_json` reads the text and writes string literals; everything else
//! works on [`Json`], and is stated over its view, [`JsonView`].

use vstd::prelude::*;

verus! {

/// A JSON document.
///
/// A number keeps only what this crate reads of it: its value where it is a
/// non-negative integer that fits in 64 bits, and nothing otherwise.
#[derive(Debug, PartialEq, Eq)]
pub enum Json {
    Null,
    Bool(bool),
    Number(Option<u64>),
    Text(String),
    Array(Vec<Json>),
    Object(Vec<Member>),
}

/// One `key: value` pair of a JSON object.
#[derive(Debug, PartialEq, Eq)]
pub struct Member {
    pub key: String,
    pub value: Json,
}

/// What a [`Json`] holds: the same tree over sequences, a member being the
/// pair of its key and its value.
pub ghost enum JsonView {
    Null,
    Bool(bool),
    Number(Option<u64>),
    Text(Seq<char>),
    Array(Seq<JsonView>),
    Object(Seq<(Seq<char>, JsonView)>),
}

impl Json {
    /// The tree that this document is.
    pub open spec fn tree(self) -> JsonView
        decreases self,
    {
        match self {
            Json::Null => JsonView::Null,
            Json::Bool(b) => JsonView::Bool(b),
            Json::Number(n) => JsonView::Number(n),
            Json::Text(text) => JsonView::Text(text@),
            Json::Array(items) => JsonView::Array(
                Seq::new(
                    items.len() as nat,
                    |i: int|
                        if 0 <= i < items.len() {
                            items[i].tree()
                        } else {
                            JsonView::Null
                        },
                ),
            ),
            Json::Object(members) => JsonView::Object(
                Seq::new(
                    members.len() as nat,
                    |i: int|
                        if 0 <= i < members.len() {
                            (members[i].key@, members[i].value.tree())
                        } else {
                            (Seq::empty(), JsonView::Null)
                        },
                ),
            ),
        }
    }
}

impl View for Json {
    type V = JsonView;

    open spec fn view(&self) -> JsonView {
        self.tree()
    }
}

/// What the items of an array hold, in their order.
pub open spec fn items_view(items: Seq<Json>) -> Seq<JsonView> {
    Seq::new(items.len(), |i: int| items[i]@)
}

/// What the members of an object hold, in their order.
pub open spec fn members_view(members: Seq<Member>) -> Seq<(Seq<char>, JsonView)> {
    Seq::new(members.len(), |i: int| (members[i].key@, members[i].value@))
}

/// An array holds what its items hold.
pub proof fn array_view(items: Vec<Json>)
    ensures
        Json::Array(items)@ == JsonView::Array(items_view(items@)),
{
    reveal_with_fuel(Json::tree, 2);
    assert(Json::Array(items)@->Array_0 =~= items_view(items@));
}

/// An object holds what its members hold.
pub proof fn object_view(members: Vec<Member>)
    ensures
        Json::Object(members)@ == JsonView::Object(members_view(members@)),
{
    reveal_with_fuel(Json::tree, 2);
    assert(Json::Object(members)@->Object_0 =~= members_view(members@));
}

/// What an optional document holds.
pub open spec fn document_view(tree: Option<Json>) -> Option<JsonView> {
    match tree {
        Some(t) => Some(t@),
        None => None,
    }
}

/// The value under `key` among an object's members: that of the first member
/// with that key, if there is one.
pub open spec fn member_value(members: Seq<(Seq<char>, JsonView)>, key: Seq<char>) -> Option<JsonView>
    decreases members.len(),
{
    if members.len() == 0 {
        None
    } else if members[0].0 == key {
        Some(members[0].1)
    } else {
        member_value(members.skip(1), key)
    }
}

impl JsonView {
    /// The value under `key`, where this is an object that has such a member.
    pub open spec fn field(self, key: Seq<char>) -> Option<JsonView> {
        match self {
            JsonView::Object(members) => member_value(members, key),
            _ => None,
        }
    }
}

/// Whether `text` and `other` hold the same characters.
pub fn same_text(text: &String, other: &str) -> (r: bool)
    ensures
        r == (text@ == other@),
{
    let owned = other.to_owned();
    *text == owned
}

impl Json {
    /// Looks up the member `key` of an object. Anything but an object has no
    /// members.
    pub fn get(&self, key: &str) -> (r: Option<&Json>)
        ensures
            match r {
                Some(value) => self@.field(key@) == Some(value@),
                None => self@.field(key@) is None,
            },
    {
        match self {
            Json::Object(members) => {
                let ghost pairs = self@->Object_0;
                let mut i: usize = 0;
                proof {
                    object_view(*members);
                    assert(pairs.skip(0) == pairs);
                }
                while i < members.len()
                    invariant
                        i <= members.len(),
                        pairs == members_view(members@),
                        self@.field(key@) == member_value(pairs.skip(i as int), key@),
                    decreases members.len() - i,
                {
                    assert(pairs.skip(i as int)[0] == pairs[i as int]);
                    if same_text(&members[i].key, key) {
                        return Some(&members[i].value);
                    }
                    assert(pairs.skip(i as int).skip(1) == pairs.skip(i as int + 1));
                    i += 1;
                }
                None
            },
            _ => None,
        }
    }
}

/// `serde_json::Value`, as something that is handed on and not looked into.
#[verifier::external_type_specification]
#[verifier::external_body]
pub struct ExValue(serde_json::Value);

/// `serde_json::Error`, as something that is handed on and not looked into.
#[verifier::external_type_specification]
#[verifier::external_body]
pub struct ExError(serde_json::Error);

/// One level of a `serde_json::Value`: which variant it is, and what that
/// variant holds. The items of an array and the values of an object are still
/// `serde_json::Value`s.
pub enum Opened {
    Null,
    Bool(bool),
    Number(Option<u64>),
    Text(String),
    Array(Vec<serde_json::Value>),
    Object(Vec<(String, serde_json::Value)>),
}

/// The value that `serde_json::from_str::<Value>` reads from `text`, and
/// `None` where it reports an error.
pub uninterp spec fn parsed_value(text: Seq<char>) -> Option<serde_json::Value>;

/// What a `serde_json::Value` holds, one level deep.
pub uninterp spec fn value_parts(value: serde_json::Value) -> Opened;

/// The JSON string literal that `serde_json::to_string` writes for a string:
/// the text between double quotes, with the characters that JSON does not
/// take as they are written as escapes.
pub uninterp spec fn json_quoted(text: Seq<char>) -> Seq<char>;

/// Calls `serde_json::from_str::<Value>`. The contract names the outcome: the
/// value that `parsed_value` gives, and an error exactly where it gives none.
#[verifier::external_body]
fn read_value(text: &str) -> (r: Result<serde_json::Value, serde_json::Error>)
    ensures
        match r {
            Ok(value) => parsed_value(text@) == Some(value),
            Err(_) => parsed_value(text@) is None,
        },
{
    serde_json::from_str::<serde_json::Value>(text)
}

/// Tells the variants of a `serde_json::Value` apart and moves out what each
/// holds. A number goes through `Number::as_u64`; the members of an object
/// come in the order in which `serde_json::Map` hands them out.
#[verifier::external_body]
fn open_value(value: serde_json::Value) -> (parts: Opened)
    ensures
        parts == value_parts(value),
{
    match value {
        serde_json::Value::Null => Opened::Null,
        serde_json::Value::Bool(b) => Opened::Bool(b),
        serde_json::Value::Number(n) => Opened::Number(n.as_u64()),
        serde_json::Value::String(s) => Opened::Text(s),
        serde_json::Value::Array(items) => Opened::Array(items),
        serde_json::Value::Object(map) => Opened::Object(map.into_iter().collect()),
    }
}

/// Calls `serde_json::to_string` on a string. The contract says that the call
/// succeeds, as it does for every string (the text goes to a buffer in
/// memory), and names what it returns.
#[verifier::external_body]
fn write_text(text: &str) -> (r: Result<String, serde_json::Error>)
    ensures
        r is Ok,
        r.unwrap()@ == json_quoted(text@),
{
    serde_json::to_string(text)
}

/// How deep a document may be nested: arrays and objects inside one another,
/// counted from the outermost. `serde_json` reads no text that goes as deep.
pub const NESTING_LIMIT: usize = 128;

/// The trees, where none of them is missing.
pub open spec fn all_trees(trees: Seq<Option<JsonView>>) -> Option<Seq<JsonView>> {
    if forall|i: int| 0 <= i < trees.len() ==> (#[trigger] trees[i]) is Some {
        Some(Seq::new(trees.len(), |i: int| trees[i].unwrap()))
    } else {
        None
    }
}

/// The members, where the tree of none of them is missing.
pub open spec fn all_members(members: Seq<(Seq<char>, Option<JsonView>)>) -> Option<Seq<(Seq<char>, JsonView)>> {
    if forall|i: int| 0 <= i < members.len() ==> (#[trigger] members[i]).1 is Some {
        Some(Seq::new(members.len(), |i: int| (members[i].0, members[i].1.unwrap())))
    } else {
        None
    }
}

/// The tree that a value holds, where its arrays and objects are nested at
/// most `depth` deep, and `None` where they go deeper.
pub open spec fn tree_of_value(value: serde_json::Value, depth: nat) -> Option<JsonView>
    decreases depth, 0nat,
{
    match value_parts(value) {
        Opened::Null => Some(JsonView::Null),
        Opened::Bool(b) => Some(JsonView::Bool(b)),
        Opened::Number(n) => Some(JsonView::Number(n)),
        Opened::Text(text) => Some(JsonView::Text(text@)),
        Opened::Array(items) => if depth == 0 {
            None
        } else {
            match all_trees(item_trees(items@, (depth - 1) as nat)) {
                Some(trees) => Some(JsonView::Array(trees)),
                None => None,
            }
        },
        Opened::Object(members) => if depth == 0 {
            None
        } else {
            match all_members(member_trees(members@, (depth - 1) as nat)) {
                Some(trees) => Some(JsonView::Object(trees)),
                None => None,
            }
        },
    }
}

/// For each value its tree within `depth`, if it has one.
pub open spec fn item_trees(values: Seq<serde_json::Value>, depth: nat) -> Seq<Option<JsonView>>
    decreases depth, 1nat,
{
    Seq::new(values.len(), |i: int| tree_of_value(values[i], depth))
}

/// For each member its key, and the tree of its value within `depth`, if it
/// has one.
pub open spec fn member_trees(members: Seq<(String, serde_json::Value)>, depth: nat) -> Seq<
    (Seq<char>, Option<JsonView>),
>
    decreases depth, 1nat,
{
    Seq::new(members.len(), |i: int| (members[i].0@, tree_of_value(members[i].1, depth)))
}

/// The trees of the values, in their order, where every one of them has a
/// tree within `depth`.
pub open spec fn trees_of_values(values: Seq<serde_json::Value>, depth: nat) -> Option<Seq<JsonView>> {
    all_trees(item_trees(values, depth))
}

/// The members with the trees of their values, in their order, where every
/// value has a tree within `depth`.
pub open spec fn trees_of_members(members: Seq<(String, serde_json::Value)>, depth: nat) -> Option<
    Seq<(Seq<char>, JsonView)>,
> {
    all_members(member_trees(members, depth))
}

/// What `item_trees` holds, item by item.
proof fn item_trees_hold(values: Seq<serde_json::Value>, depth: nat)
    ensures
        item_trees(values, depth).len() == values.len(),
        forall|i: int|
            0 <= i < values.len() ==> #[trigger] item_trees(values, depth)[i] == tree_of_value(values[i], depth),
{
    reveal_with_fuel(item_trees, 2);
}

/// What `member_trees` holds, member by member.
proof fn member_trees_hold(members: Seq<(String, serde_json::Value)>, depth: nat)
    ensures
        member_trees(members, depth).len() == members.len(),
        forall|i: int|
            0 <= i < members.len() ==> #[trigger] member_trees(members, depth)[i] == (
                members[i].0@,
                tree_of_value(members[i].1, depth),
            ),
{
    reveal_with_fuel(member_trees, 2);
}

/// The document that `text` spells/// The document that `text` spells: the tree of the value that `serde_json`
/// reads from it.
pub open spec fn parsed_json(text: Seq<char>) -> Option<JsonView> {
    match parsed_value(text) {
        Some(value) => tree_of_value(value, NESTING_LIMIT as nat),
        None => None,
    }
}

/// The same items in the opposite order.
fn reversed<T>(items: Vec<T>) -> (r: Vec<T>)
    ensures
        r@ == items@.reverse(),
{
    let mut rest = items;
    let mut turned: Vec<T> = Vec::new();
    while rest.len() > 0
        invariant
            rest.len() <= items.len(),
            rest@ == items@.take(rest.len() as int),
            turned.len() == items.len() - rest.len(),
            forall|k: int| 0 <= k < turned.len() ==> #[trigger] turned[k] == items[items.len() - 1 - k],
        decreases rest.len(),
    {
        let ghost before = rest@;
        match rest.pop() {
            Some(item) => {
                assert(rest@ == items@.take(rest.len() as int));
                turned.push(item);
            },
            None => {},
        }
    }
    assert(turned@ =~= items@.reverse());
    turned
}

/// Turns a value into a document, going at most `depth` arrays and objects
/// deep.
fn tree_from(value: serde_json::Value, depth: usize) -> (r: Option<Json>)
    ensures
        document_view(r) == tree_of_value(value, depth as nat),
    decreases depth, 0nat,
{
    match open_value(value) {
        Opened::Null => Some(Json::Null),
        Opened::Bool(b) => Some(Json::Bool(b)),
        Opened::Number(n) => Some(Json::Number(n)),
        Opened::Text(text) => Some(Json::Text(text)),
        Opened::Array(items) => {
            if depth == 0 {
                return None;
            }
            match trees_from(items, depth - 1) {
                Some(trees) => {
                    proof {
                        array_view(trees);
                        item_trees_hold(items@, (depth - 1) as nat);
                        assert(Json::Array(trees)@->Array_0 =~= trees_of_values(items@, (depth - 1) as nat).unwrap());
                    }
                    Some(Json::Array(trees))
                },
                None => None,
            }
        },
        Opened::Object(members) => {
            if depth == 0 {
                return None;
            }
            match members_from(members, depth - 1) {
                Some(trees) => {
                    proof {
                        object_view(trees);
                        member_trees_hold(members@, (depth - 1) as nat);
                        assert(Json::Object(trees)@->Object_0 =~= trees_of_members(members@, (depth - 1) as nat).unwrap());
                    }
                    Some(Json::Object(trees))
                },
                None => None,
            }
        },
    }
}

/// Turns the items of an array into documents: all of them, or none where
/// one goes deeper than `depth`.
fn trees_from(values: Vec<serde_json::Value>, depth: usize) -> (r: Option<Vec<Json>>)
    ensures
        match r {
            Some(trees) => trees_of_values(values@, depth as nat) is Some && trees.len() == values.len()
                && forall|i: int|
                0 <= i < trees.len() ==> (#[trigger] trees[i])@ == tree_of_value(values[i], depth as nat).unwrap(),
            None => trees_of_values(values@, depth as nat) is None,
        },
    decreases depth, 1nat,
{
    let ghost count = values.len();
    proof {
        item_trees_hold(values@, depth as nat);
    }
    let mut rest = reversed(values);
    let mut trees: Vec<Json> = Vec::new();
    while rest.len() > 0
        invariant
            count == values.len(),
            rest.len() + trees.len() == count,
            forall|k: int| 0 <= k < rest.len() ==> #[trigger] rest[k] == values[count - 1 - k],
            forall|i: int|
                0 <= i < trees.len() ==> tree_of_value(values[i], depth as nat) == Some((#[trigger] trees[i])@),
        decreases rest.len(),
    {
        let ghost at = trees.len() as int;
        match rest.pop() {
            Some(value) => {
                assert(value == values[at]);
                match tree_from(value, depth) {
                    Some(tree) => {
                        trees.push(tree);
                    },
                    None => {
                        assert(item_trees(values@, depth as nat)[at] is None);
                        return None;
                    },
                }
            },
            None => {},
        }
    }
    proof {
        item_trees_hold(values@, depth as nat);
        assert forall|i: int| 0 <= i < values.len() implies (#[trigger] item_trees(values@, depth as nat)[i]) is Some by {
            assert(tree_of_value(values@[i], depth as nat) == Some(trees[i]@));
        }
    }
    Some(trees)
}

/// Turns the members of an object into members of a document: all of them, or
/// none where one goes deeper than `depth`.
fn members_from(members: Vec<(String, serde_json::Value)>, depth: usize) -> (r: Option<Vec<Member>>)
    ensures
        match r {
            Some(trees) => trees_of_members(members@, depth as nat) is Some && trees.len() == members.len()
                && forall|i: int|
                0 <= i < trees.len() ==> (#[trigger] trees[i]).key@ == members[i].0@ && trees[i].value@
                    == tree_of_value(members[i].1, depth as nat).unwrap(),
            None => trees_of_members(members@, depth as nat) is None,
        },
    decreases depth, 1nat,
{
    let ghost count = members.len();
    proof {
        member_trees_hold(members@, depth as nat);
    }
    let mut rest = reversed(members);
    let mut trees: Vec<Member> = Vec::new();
    while rest.len() > 0
        invariant
            count == members.len(),
            rest.len() + trees.len() == count,
            forall|k: int| 0 <= k < rest.len() ==> #[trigger] rest[k] == members[count - 1 - k],
            forall|i: int|
                0 <= i < trees.len() ==> (#[trigger] trees[i]).key@ == members[i].0@ && tree_of_value(
                    members[i].1,
                    depth as nat,
                ) == Some(trees[i].value@),
        decreases rest.len(),
    {
        let ghost at = trees.len() as int;
        match rest.pop() {
            Some(member) => {
                assert(member == members[at]);
                let (key, value) = member;
                match tree_from(value, depth) {
                    Some(tree) => {
                        trees.push(Member { key, value: tree });
                    },
                    None => {
                        assert(member_trees(members@, depth as nat)[at].1 is None);
                        return None;
                    },
                }
            },
            None => {},
        }
    }
    proof {
        member_trees_hold(members@, depth as nat);
        assert forall|i: int| 0 <= i < members.len() implies (#[trigger] member_trees(members@, depth as nat)[i]).1 is Some by {
            assert(tree_of_value(members@[i].1, depth as nat) == Some(trees[i].value@));
        }
    }
    Some(trees)
}

/// Reads a JSON document from `text`.
pub fn parse_json(text: &str) -> (r: Option<Json>)
    ensures
        document_view(r) == parsed_json(text@),
{
    match read_value(text) {
        Ok(value) => tree_from(value, NESTING_LIMIT),
        Err(_) => None,
    }
}

/// Writes `text` as a JSON string literal.
pub fn quote(text: &str) -> (r: String)
    ensures
        r@ == json_quoted(text@),
{
    write_text(text).unwrap()
}

} // verus!
