//! JSON values, and their text as the `serde_json` crate reads and writes it. The crate
//! is built with its feature `preserve_order`, so that its objects keep the order of
//! their members.
use crate::errors::{custom_error, error_text};
use vstd::prelude::*;
use vstd::utf8::*;

verus! {

/// Deepest nesting of arrays and objects that `serde_json` reads.
pub const JSON_NESTING_MAX: usize = 127;

/// A JSON value as a mathematical tree.
#[verifier::ext_equal]
pub enum JsonTree {
    Null,
    Bool(bool),
    /// A natural number of 64 bits.
    Number(u64),
    /// An integer below zero, of 64 bits.
    Negative(i64),
    /// Any other number.
    Float(serde_json::Number),
    Text(Seq<char>),
    Array(Seq<JsonTree>),
    /// The members of an object, in order.
    Object(Seq<(Seq<char>, JsonTree)>),
}

/// A JSON value.
#[derive(Debug, PartialEq, Eq)]
pub enum Json {
    /// `null`.
    Null,
    /// `true` or `false`.
    Bool(bool),
    /// A natural number of 64 bits.
    Number(u64),
    /// An integer below zero, of 64 bits.
    Negative(i64),
    /// Any other number, as `serde_json` keeps it.
    Float(serde_json::Number),
    /// A string.
    Text(String),
    /// An array.
    Array(Vec<Json>),
    /// An object, as the list of its members in order.
    Object(Vec<(String, Json)>),
}

impl View for Json {
    type V = JsonTree;

    open spec fn view(&self) -> JsonTree {
        self.tree()
    }
}

impl Json {
    /// The tree that the value stands for.
    pub open spec fn tree(self) -> JsonTree
        decreases self,
    {
        match self {
            Json::Null => JsonTree::Null,
            Json::Bool(value) => JsonTree::Bool(value),
            Json::Number(value) => JsonTree::Number(value),
            Json::Negative(value) => JsonTree::Negative(value),
            Json::Float(value) => JsonTree::Float(value),
            Json::Text(text) => JsonTree::Text(text@),
            Json::Array(items) => JsonTree::Array(
                Seq::new(
                    items@.len(),
                    |i: int|
                        if 0 <= i < items@.len() {
                            items@[i].tree()
                        } else {
                            JsonTree::Null
                        },
                ),
            ),
            Json::Object(members) => JsonTree::Object(
                Seq::new(
                    members@.len(),
                    |i: int|
                        if 0 <= i < members@.len() {
                            (members@[i].0@, members@[i].1.tree())
                        } else {
                            (Seq::empty(), JsonTree::Null)
                        },
                ),
            ),
        }
    }
}

/// The trees of the items of an array.
pub open spec fn items_tree(items: Seq<Json>) -> Seq<JsonTree> {
    Seq::new(items.len(), |i: int| items[i]@)
}

/// The names and trees of the members of an object.
pub open spec fn members_tree(members: Seq<(String, Json)>) -> Seq<(Seq<char>, JsonTree)> {
    Seq::new(members.len(), |i: int| (members[i].0@, members[i].1@))
}

/// An array stands for the trees of its items, an object for those of its members.
pub proof fn lemma_tree_of_parts(json: Json)
    ensures
        json matches Json::Array(items) ==> json@ == JsonTree::Array(items_tree(items@)),
        json matches Json::Object(members) ==> json@ == JsonTree::Object(members_tree(members@)),
{
    match json {
        Json::Array(items) => {
            assert(json@->Array_0 =~= items_tree(items@));
        },
        Json::Object(members) => {
            assert(json@->Object_0 =~= members_tree(members@));
        },
        _ => {},
    }
}

/// Whether no two members have the same name.
pub open spec fn names_distinct(members: Seq<(Seq<char>, JsonTree)>) -> bool {
    forall|i: int, j: int|
        0 <= i < j < members.len() ==> (#[trigger] members[i]).0 != (#[trigger] members[j]).0
}

/// Whether every number is a natural number of 64 bits and no object repeats a name.
pub open spec fn is_plain(tree: JsonTree) -> bool
    decreases tree,
{
    match tree {
        JsonTree::Negative(_) => false,
        JsonTree::Float(_) => false,
        JsonTree::Array(items) => forall|i: int|
            0 <= i < items.len() ==> is_plain(#[trigger] items[i]),
        JsonTree::Object(members) => {
            &&& names_distinct(members)
            &&& forall|i: int| 0 <= i < members.len() ==> is_plain((#[trigger] members[i]).1)
        },
        _ => true,
    }
}

/// Whether arrays and objects are nested at most `depth` deep.
pub open spec fn nested_within(tree: JsonTree, depth: nat) -> bool
    decreases depth,
{
    match tree {
        JsonTree::Array(items) => {
            &&& depth > 0
            &&& forall|i: int|
                0 <= i < items.len() ==> nested_within(#[trigger] items[i], (depth - 1) as nat)
        },
        JsonTree::Object(members) => {
            &&& depth > 0
            &&& forall|i: int|
                0 <= i < members.len() ==> nested_within(
                    (#[trigger] members[i]).1,
                    (depth - 1) as nat,
                )
        },
        _ => true,
    }
}

/// The number of members of all the objects in a tree.
pub open spec fn member_count(tree: JsonTree) -> nat
    decreases tree,
{
    match tree {
        JsonTree::Array(items) => items_member_count(items),
        JsonTree::Object(members) => members_member_count(members),
        _ => 0,
    }
}

/// The number of members of all the objects in some trees.
pub open spec fn items_member_count(items: Seq<JsonTree>) -> nat
    decreases items,
{
    if items.len() == 0 {
        0
    } else {
        items_member_count(items.subrange(0, items.len() - 1)) + member_count(
            items[items.len() - 1],
        )
    }
}

/// The number of some members and of the members inside them.
pub open spec fn members_member_count(members: Seq<(Seq<char>, JsonTree)>) -> nat
    decreases members,
{
    if members.len() == 0 {
        0
    } else {
        members_member_count(members.subrange(0, members.len() - 1)) + 1 + member_count(
            members[members.len() - 1].1,
        )
    }
}

/// What a scan of a JSON text from left to right has seen.
pub struct Scan {
    /// Colons outside strings.
    pub separators: nat,
    /// Whether the scan stands inside a string.
    pub in_string: bool,
    /// Whether the next character is escaped.
    pub escaped: bool,
}

/// The scan after one more character.
pub open spec fn scan_step(scan: Scan, c: char) -> Scan {
    if !scan.in_string {
        Scan {
            separators: if c == ':' {
                scan.separators + 1
            } else {
                scan.separators
            },
            in_string: c == '"',
            escaped: false,
        }
    } else if scan.escaped {
        Scan { escaped: false, ..scan }
    } else {
        Scan { in_string: c != '"', escaped: c == '\\', ..scan }
    }
}

/// The scan of a whole text.
pub open spec fn scan(text: Seq<char>) -> Scan
    decreases text.len(),
{
    if text.len() == 0 {
        Scan { separators: 0, in_string: false, escaped: false }
    } else {
        scan_step(scan(text.drop_last()), text.last())
    }
}

/// The number of colons outside strings: one for each member that the text writes out.
pub open spec fn separator_count(text: Seq<char>) -> nat {
    scan(text).separators
}

proof fn lemma_utf8_is_no_shorter(text: Seq<char>)
    ensures
        text.len() <= encode_utf8(text).len(),
    decreases text.len(),
{
    if text.len() > 0 {
        lemma_utf8_is_no_shorter(text.drop_first());
    }
}

/// Counts the colons outside strings.
fn count_separators(text: &str) -> (count: usize)
    ensures
        count == separator_count(text@),
{
    let bytes = text.as_bytes().len();
    proof {
        lemma_utf8_is_no_shorter(text@);
    }
    let mut count: usize = 0;
    let mut in_string = false;
    let mut escaped = false;
    for c in it: text.chars()
        invariant
            it.seq() == text@,
            text@.len() <= bytes,
            count <= it.index(),
            scan(text@.take(it.index())) == (Scan { separators: count as nat, in_string, escaped }),
    {
        proof {
            assert(text@.take(it.index() + 1).drop_last() =~= text@.take(it.index()));
        }
        if !in_string {
            if c == ':' {
                count = count + 1;
            }
            in_string = c == '"';
        } else if escaped {
            escaped = false;
        } else {
            in_string = c != '"';
            escaped = c == '\\';
        }
    }
    proof {
        assert(text@.take(text@.len() as int) =~= text@);
    }
    count
}

/// Declares `serde_json::Value`, the tree that `serde_json` builds.
#[verifier::external_type_specification]
#[verifier::external_body]
pub struct ExValue(serde_json::Value);

/// Declares `serde_json::Number`.
#[verifier::external_type_specification]
#[verifier::external_body]
pub struct ExNumber(serde_json::Number);

/// The tree that a `serde_json::Value` holds.
pub uninterp spec fn value_tree(value: serde_json::Value) -> JsonTree;

/// The tree that `serde_json` reads from a text, or the text of its error where it finds
/// no JSON. Of the members of an object that have one name it keeps a single one.
pub uninterp spec fn text_tree(text: Seq<char>) -> Result<JsonTree, Seq<char>>;

/// The text that `serde_json` writes for a tree that is plain. Nothing is said of others.
pub uninterp spec fn tree_text(tree: JsonTree) -> Seq<char>;

/// One level of a `serde_json::Value`.
enum Node {
    Null,
    Bool(bool),
    /// A number, with what it is as a natural number and as an integer.
    Number(serde_json::Number, Option<u64>, Option<i64>),
    Text(String),
    Array(Vec<serde_json::Value>),
    Object(Vec<(String, serde_json::Value)>),
}

impl Node {
    spec fn tree(self) -> JsonTree {
        match self {
            Node::Null => JsonTree::Null,
            Node::Bool(value) => JsonTree::Bool(value),
            Node::Number(number, natural, integer) => match (natural, integer) {
                (Some(value), _) => JsonTree::Number(value),
                (None, Some(value)) => JsonTree::Negative(value),
                (None, None) => JsonTree::Float(number),
            },
            Node::Text(text) => JsonTree::Text(text@),
            Node::Array(items) => JsonTree::Array(value_items(items@)),
            Node::Object(members) => JsonTree::Object(value_members(members@)),
        }
    }
}

/// The trees that some values hold.
spec fn value_items(items: Seq<serde_json::Value>) -> Seq<JsonTree> {
    Seq::new(items.len(), |i: int| value_tree(items[i]))
}

/// The names and the trees of some named values.
spec fn value_members(members: Seq<(String, serde_json::Value)>) -> Seq<(Seq<char>, JsonTree)> {
    Seq::new(members.len(), |i: int| (members[i].0@, value_tree(members[i].1)))
}

/// `serde_json::from_str` for a `serde_json::Value`: the tree of the text, or an
/// error where the text is no JSON or is nested too deep.
#[verifier::external_body]
fn value_from_str(text: &str) -> (result: Result<serde_json::Value, serde_json::Error>)
    ensures
        match result {
            Ok(value) => text_tree(text@) matches Ok(tree) && tree == value_tree(value),
            Err(error) => text_tree(text@) matches Err(message) && message == error_text(
                error,
            ),
        },
{
    serde_json::from_str(text)
}

/// `serde_json::to_string` for a `serde_json::Value` whose tree is plain: it does not
/// fail, the text it writes depends on the tree alone and is read back as the same tree,
/// and it writes each member once, with one colon after its name.
#[verifier::external_body]
fn value_to_string(value: &serde_json::Value) -> (result: Result<String, serde_json::Error>)
    requires
        is_plain(value_tree(*value)),
        nested_within(value_tree(*value), JSON_NESTING_MAX as nat),
    ensures
        result is Ok,
        result->Ok_0@ == tree_text(value_tree(*value)),
        text_tree(result->Ok_0@) is Ok,
        text_tree(result->Ok_0@)->Ok_0 == value_tree(*value),
        separator_count(result->Ok_0@) == member_count(value_tree(*value)),
{
    serde_json::to_string(value)
}

/// The variants of `serde_json::Value`: what stands in each of them, a number with its
/// `Number::as_u64` and `Number::as_i64` and an object by the members that its map hands
/// out.
#[verifier::external_body]
fn open_value(value: serde_json::Value) -> (node: Node)
    ensures
        node.tree() == value_tree(value),
{
    match value {
        serde_json::Value::Null => Node::Null,
        serde_json::Value::Bool(value) => Node::Bool(value),
        serde_json::Value::Number(number) => {
            let (natural, integer) = (number.as_u64(), number.as_i64());
            Node::Number(number, natural, integer)
        },
        serde_json::Value::String(text) => Node::Text(text),
        serde_json::Value::Array(items) => Node::Array(items),
        serde_json::Value::Object(members) => Node::Object(members.into_iter().collect()),
    }
}

/// `serde_json::Value::Null`.
#[verifier::external_body]
fn null_value() -> (value: serde_json::Value)
    ensures
        value_tree(value) == JsonTree::Null,
{
    serde_json::Value::Null
}

/// `serde_json::Value::Bool`.
#[verifier::external_body]
fn bool_value(bit: bool) -> (value: serde_json::Value)
    ensures
        value_tree(value) == JsonTree::Bool(bit),
{
    serde_json::Value::Bool(bit)
}

/// `serde_json::Value::from` on a `u64`: that number.
#[verifier::external_body]
fn number_value(number: u64) -> (value: serde_json::Value)
    ensures
        value_tree(value) == JsonTree::Number(number),
{
    serde_json::Value::from(number)
}

/// `serde_json::Value::String`.
#[verifier::external_body]
fn text_value(text: String) -> (value: serde_json::Value)
    ensures
        value_tree(value) == JsonTree::Text(text@),
{
    serde_json::Value::String(text)
}

/// `serde_json::Value::Array`.
#[verifier::external_body]
fn array_value(items: Vec<serde_json::Value>) -> (value: serde_json::Value)
    ensures
        value_tree(value) == JsonTree::Array(value_items(items@)),
{
    serde_json::Value::Array(items)
}

/// `serde_json::Value::Object` on a map collected from members with distinct names:
/// the map keeps each of them, in the order in which they came.
#[verifier::external_body]
fn object_value(members: Vec<(String, serde_json::Value)>) -> (value: serde_json::Value)
    requires
        names_distinct(value_members(members@)),
    ensures
        value_tree(value) == JsonTree::Object(value_members(members@)),
{
    serde_json::Value::Object(members.into_iter().collect())
}

/// Takes a `serde_json::Value` apart.
fn read_value(value: serde_json::Value) -> (json: Json)
    ensures
        json@ == value_tree(value),
    decreases value_tree(value),
{
    match open_value(value) {
        Node::Null => Json::Null,
        Node::Bool(bit) => Json::Bool(bit),
        Node::Number(number, natural, integer) => match (natural, integer) {
            (Some(value), _) => Json::Number(value),
            (None, Some(value)) => Json::Negative(value),
            (None, None) => Json::Float(number),
        },
        Node::Text(text) => Json::Text(text),
        Node::Array(values) => {
            let ghost all = values@;
            let mut items: Vec<Json> = Vec::new();
            for item in it: values
                invariant
                    it.seq() == all,
                    value_tree(value) == JsonTree::Array(value_items(all)),
                    items@.len() == it.index(),
                    forall|i: int| 0 <= i < items@.len() ==> (#[trigger] items@[i])@ == value_tree(
                        all[i],
                    ),
            {
                proof {
                    assert(item == all[it.index()]);
                    let tree = value_tree(value);
                    assert(tree->Array_0[it.index()] == value_tree(item));
                    assert(decreases_to!(tree => tree->Array_0[it.index()]));
                }
                items.push(read_value(item));
            }
            let json = Json::Array(items);
            proof {
                lemma_tree_of_parts(json);
                assert(items_tree(items@) =~= value_items(all));
            }
            json
        },
        Node::Object(values) => {
            let ghost all = values@;
            let mut members: Vec<(String, Json)> = Vec::new();
            for member in it: values
                invariant
                    it.seq() == all,
                    value_tree(value) == JsonTree::Object(value_members(all)),
                    members@.len() == it.index(),
                    forall|i: int|
                        0 <= i < members@.len() ==> (#[trigger] members@[i]).0@ == all[i].0@
                            && members@[i].1@ == value_tree(all[i].1),
            {
                proof {
                    assert(member == all[it.index()]);
                    let tree = value_tree(value);
                    assert(tree->Object_0[it.index()].1 == value_tree(member.1));
                    assert(decreases_to!(tree => tree->Object_0[it.index()].1));
                }
                let (name, inner) = member;
                members.push((name, read_value(inner)));
            }
            let json = Json::Object(members);
            proof {
                lemma_tree_of_parts(json);
                assert(members_tree(members@) =~= value_members(all));
            }
            json
        },
    }
}

/// Builds a `serde_json::Value`.
fn build_value(json: &Json) -> (value: serde_json::Value)
    requires
        is_plain(json@),
    ensures
        value_tree(value) == json@,
    decreases *json,
{
    proof {
        lemma_tree_of_parts(*json);
    }
    match json {
        Json::Null => null_value(),
        Json::Bool(bit) => bool_value(*bit),
        Json::Number(number) => number_value(*number),
        Json::Negative(_) | Json::Float(_) => null_value(),
        Json::Text(text) => text_value(text.clone()),
        Json::Array(items) => {
            let mut values: Vec<serde_json::Value> = Vec::new();
            for k in 0..items.len()
                invariant
                    *json == Json::Array(*items),
                    json@ == JsonTree::Array(items_tree(items@)),
                    is_plain(json@),
                    values@.len() == k,
                    forall|i: int| 0 <= i < k ==> value_tree(#[trigger] values@[i]) == items@[i]@,
            {
                proof {
                    let trees = json@->Array_0;
                    assert(trees[k as int] == items@[k as int]@);
                    assert(is_plain(trees[k as int]));
                }
                values.push(build_value(&items[k]));
            }
            proof {
                assert(value_items(values@) =~= items_tree(items@));
            }
            array_value(values)
        },
        Json::Object(members) => {
            let mut values: Vec<(String, serde_json::Value)> = Vec::new();
            for k in 0..members.len()
                invariant
                    *json == Json::Object(*members),
                    json@ == JsonTree::Object(members_tree(members@)),
                    is_plain(json@),
                    values@.len() == k,
                    forall|i: int|
                        0 <= i < k ==> (#[trigger] values@[i]).0@ == members@[i].0@ && value_tree(
                            values@[i].1,
                        ) == members@[i].1@,
            {
                proof {
                    assert(is_plain(members_tree(members@)[k as int].1));
                }
                values.push((members[k].0.clone(), build_value(&members[k].1)));
            }
            proof {
                assert(value_members(values@) =~= members_tree(members@));
            }
            object_value(values)
        },
    }
}

/// Takes the members of all the objects in a value off a budget, or returns `None`
/// where the budget is too small.
fn spend(json: &Json, budget: usize) -> (left: Option<usize>)
    ensures
        match left {
            Some(left) => left + member_count(json@) == budget,
            None => member_count(json@) > budget,
        },
    decreases *json,
{
    proof {
        lemma_tree_of_parts(*json);
    }
    match json {
        Json::Array(items) => {
            let mut left = budget;
            for k in 0..items.len()
                invariant
                    *json == Json::Array(*items),
                    left + items_member_count(items_tree(items@).take(k as int)) == budget,
                    json@ == JsonTree::Array(items_tree(items@)),
            {
                proof {
                    lemma_items_count_grows(items_tree(items@), k as int);
                }
                match spend(&items[k], left) {
                    Some(rest) => {
                        left = rest;
                    },
                    None => {
                        return None;
                    },
                }
            }
            proof {
                assert(items_tree(items@).take(items@.len() as int) =~= items_tree(items@));
            }
            Some(left)
        },
        Json::Object(members) => {
            let mut left = budget;
            for k in 0..members.len()
                invariant
                    *json == Json::Object(*members),
                    left + members_member_count(members_tree(members@).take(k as int)) == budget,
                    json@ == JsonTree::Object(members_tree(members@)),
            {
                proof {
                    lemma_members_count_grows(members_tree(members@), k as int);
                }
                if left == 0 {
                    return None;
                }
                match spend(&members[k].1, left - 1) {
                    Some(rest) => {
                        left = rest;
                    },
                    None => {
                        return None;
                    },
                }
            }
            proof {
                assert(members_tree(members@).take(members@.len() as int) =~= members_tree(
                    members@,
                ));
            }
            Some(left)
        },
        _ => Some(budget),
    }
}

/// One more item adds its members, and no later item takes any away.
proof fn lemma_items_count_grows(items: Seq<JsonTree>, k: int)
    requires
        0 <= k < items.len(),
    ensures
        items_member_count(items.take(k + 1)) == items_member_count(items.take(k)) + member_count(
            items[k],
        ),
        items_member_count(items.take(k + 1)) <= items_member_count(items),
    decreases items.len() - k,
{
    let next = items.take(k + 1);
    assert(next.subrange(0, next.len() - 1) =~= items.take(k));
    if k + 1 < items.len() {
        lemma_items_count_grows(items, k + 1);
    } else {
        assert(next =~= items);
    }
}

/// One more member adds itself and its members, and no later one takes any away.
proof fn lemma_members_count_grows(members: Seq<(Seq<char>, JsonTree)>, k: int)
    requires
        0 <= k < members.len(),
    ensures
        members_member_count(members.take(k + 1)) == members_member_count(members.take(k)) + 1
            + member_count(members[k].1),
        members_member_count(members.take(k + 1)) <= members_member_count(members),
    decreases members.len() - k,
{
    let next = members.take(k + 1);
    assert(next.subrange(0, next.len() - 1) =~= members.take(k));
    if k + 1 < members.len() {
        lemma_members_count_grows(members, k + 1);
    } else {
        assert(next =~= members);
    }
}

/// Whether every member that a text writes out is in the tree: whether no object in
/// the text repeats a name.
pub open spec fn keeps_all_members(text: Seq<char>, tree: JsonTree) -> bool {
    separator_count(text) == member_count(tree)
}

/// The tree of a text in which no object repeats a name, or the text of the error.
pub open spec fn parsed_tree(text: Seq<char>) -> Result<JsonTree, Seq<char>> {
    match text_tree(text) {
        Ok(tree) => if keeps_all_members(text, tree) {
            Ok(tree)
        } else {
            Err("object repeats a name"@)
        },
        Err(message) => Err(message),
    }
}

/// Reads a JSON text in which no object repeats a name.
///
/// # Errors
///
/// Returns an error when the text is no JSON, is nested deeper than
/// [`JSON_NESTING_MAX`], or repeats a name in an object.
pub fn parse(text: &str) -> (result: Result<Json, serde_json::Error>)
    ensures
        match result {
            Ok(json) => parsed_tree(text@) matches Ok(tree) && tree == json@,
            Err(error) => parsed_tree(text@) matches Err(message) && message == error_text(
                error,
            ),
        },
{
    let value = value_from_str(text)?;
    let json = read_value(value);
    match spend(&json, count_separators(text)) {
        Some(0) => Ok(json),
        _ => {
            proof {
                reveal_strlit("object repeats a name");
            }
            Err(custom_error("object repeats a name"))
        },
    }
}

/// Writes a JSON value as a text.
///
/// # Errors
///
/// Hands on the error of `serde_json`, which does not come for such values.
pub fn print(json: &Json) -> (result: Result<String, serde_json::Error>)
    requires
        is_plain(json@),
        nested_within(json@, JSON_NESTING_MAX as nat),
    ensures
        result matches Ok(text) && text@ == tree_text(json@) && (text_tree(text@) matches Ok(tree)
            && tree == json@) && keeps_all_members(text@, json@),
{
    value_to_string(&build_value(json))
}

} // verus!
