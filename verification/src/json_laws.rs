//! What holds of JSON texts and the values that are read from them.
use crate::errors::error_text;
use crate::json::{
    is_plain, member_count, nested_within, parse, print, scan, separator_count, text_tree, Json,
    JsonTree,
};
use vstd::prelude::*;

verus! {

/// A text is accepted exactly where `serde_json` reads it and every member that it writes
/// out is in the tree, and then its value has that tree.
pub proof fn law_texts_are_parsed_whole(text: &str, result: Result<Json, serde_json::Error>)
    requires
        call_ensures(parse, (text,), result),
    ensures
        result is Ok <==> (text_tree(text@) is Ok && separator_count(text@) == member_count(
            text_tree(text@)->Ok_0,
        )),
        result matches Ok(json) ==> text_tree(text@)->Ok_0 == json@,
        result matches Err(error) ==> text_tree(text@) is Err ==> error_text(error) == text_tree(
            text@,
        )->Err_0,
{
}

/// A value that is written is read back the same.
pub proof fn law_printed_values_are_parsed_back(
    json: Json,
    printed: Result<String, serde_json::Error>,
)
    requires
        is_plain(json@),
        nested_within(json@, 127),
        call_ensures(print, (&json,), printed),
    ensures
        printed is Ok,
        forall|text: &str, result: Result<Json, serde_json::Error>|
            text@ == printed->Ok_0@ && #[trigger] call_ensures(parse, (text,), result) ==> result
                is Ok && result->Ok_0@ == json@,
{
}

/// Every member of an object counts, with those inside it.
pub proof fn law_members_are_counted(
    members: Seq<(Seq<char>, JsonTree)>,
    items: Seq<JsonTree>,
    name: Seq<char>,
    value: JsonTree,
)
    ensures
        member_count(JsonTree::Object(members.push((name, value)))) == member_count(
            JsonTree::Object(members),
        ) + 1 + member_count(value),
        member_count(JsonTree::Array(items.push(value))) == member_count(JsonTree::Array(items))
            + member_count(value),
        member_count(JsonTree::Object(Seq::empty())) == 0,
        member_count(JsonTree::Array(Seq::empty())) == 0,
        !(value is Array) && !(value is Object) ==> member_count(value) == 0,
{
    let more = members.push((name, value));
    assert(more.subrange(0, more.len() - 1) =~= members);
    let longer = items.push(value);
    assert(longer.subrange(0, longer.len() - 1) =~= items);
}

/// A colon counts where it stands outside a string. A string runs from a quote to the next
/// quote that no backslash escapes.
pub proof fn law_separators_are_counted(text: Seq<char>, c: char)
    ensures
        separator_count(Seq::empty()) == 0,
        !scan(Seq::empty()).in_string && !scan(Seq::empty()).escaped,
        separator_count(text.push(c)) == separator_count(text) + if c == ':' && !scan(
            text,
        ).in_string {
            1nat
        } else {
            0nat
        },
        scan(text.push(c)).in_string <==> (if scan(text).in_string {
            c != '"' || scan(text).escaped
        } else {
            c == '"'
        }),
        scan(text.push(c)).escaped <==> scan(text).in_string && !scan(text).escaped && c == '\\',
{
    assert(text.push(c).drop_last() =~= text);
    lemma_escapes_in_strings(text);
}

proof fn lemma_escapes_in_strings(text: Seq<char>)
    ensures
        scan(text).escaped ==> scan(text).in_string,
    decreases text.len(),
{
    if text.len() > 0 {
        lemma_escapes_in_strings(text.drop_last());
    }
}

} // verus!
