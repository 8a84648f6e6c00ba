//! Reading tagged values and named fields out of JSON.
//!
//! A value with named fields is an object with one member for each field, or an array
//! with one item for each field in order. A tagged value has, besides its fields, a
//! member `type` in an object, or a first item in an array, that names its variant.
use crate::json::{lemma_tree_of_parts, members_tree, Json, JsonTree};
use vstd::prelude::*;
use vstd::string::*;

verus! {

/// How many members have a name.
pub open spec fn occurrences(members: Seq<(Seq<char>, JsonTree)>, name: Seq<char>) -> nat
    decreases members.len(),
{
    if members.len() == 0 {
        0
    } else {
        occurrences(members.drop_last(), name) + if members.last().0 == name {
            1nat
        } else {
            0nat
        }
    }
}

/// The value of the last member that has a name.
pub open spec fn member_named(members: Seq<(Seq<char>, JsonTree)>, name: Seq<char>) -> Option<
    JsonTree,
>
    decreases members.len(),
{
    if members.len() == 0 {
        None
    } else if members.last().0 == name {
        Some(members.last().1)
    } else {
        member_named(members.drop_last(), name)
    }
}

/// The texts of some string slices.
pub open spec fn texts(names: Seq<&str>) -> Seq<Seq<char>> {
    Seq::new(names.len(), |i: int| names[i]@)
}

/// The last place of a name in a list.
pub open spec fn place_of(names: Seq<Seq<char>>, name: Seq<char>) -> Option<int>
    decreases names.len(),
{
    if names.len() == 0 {
        None
    } else if names.last() == name {
        Some(names.len() - 1)
    } else {
        place_of(names.drop_last(), name)
    }
}

/// The value that names the variant of a tagged value.
pub open spec fn tag_of(tree: JsonTree) -> Option<JsonTree> {
    match tree {
        JsonTree::Object(members) => if occurrences(members, "type"@) == 1 {
            member_named(members, "type"@)
        } else {
            None
        },
        JsonTree::Array(items) => if items.len() > 0 {
            Some(items[0])
        } else {
            None
        },
        _ => None,
    }
}

/// The variant that a tag names, out of the names of all variants in order. Where
/// `indexed` is set, the tag may also be the place of the variant.
pub open spec fn variant_of(tag: JsonTree, names: Seq<Seq<char>>, indexed: bool) -> Option<int> {
    match tag {
        JsonTree::Text(name) => place_of(names, name),
        JsonTree::Number(place) => if indexed && place < names.len() {
            Some(place as int)
        } else {
            None
        },
        _ => None,
    }
}

/// The variant that a value names where the variant holds nothing: by its name, or by an
/// object whose one member has that name and is null or an empty object.
pub open spec fn unit_variant_of(tree: JsonTree, names: Seq<Seq<char>>) -> Option<int> {
    match tree {
        JsonTree::Text(name) => place_of(names, name),
        JsonTree::Object(members) => if members.len() == 1 && (members[0].1 is Null
            || members[0].1 == JsonTree::Object(Seq::empty())) {
            place_of(names, members[0].0)
        } else {
            None
        },
        _ => None,
    }
}

/// Whether an object with these members holds no field twice and nothing besides the
/// fields, and the tag where `tagged` is set.
pub open spec fn holds_only(
    members: Seq<(Seq<char>, JsonTree)>,
    tagged: bool,
    names: Seq<Seq<char>>,
) -> bool {
    &&& forall|k: int| 0 <= k < names.len() ==> occurrences(members, #[trigger] names[k]) <= 1
    &&& forall|i: int|
        0 <= i < members.len() ==> (tagged && (#[trigger] members[i]).0 == "type"@) || place_of(
            names,
            members[i].0,
        ) is Some
}

/// The values of the named fields, each `None` where it is absent.
pub open spec fn fields_of(tree: JsonTree, tagged: bool, names: Seq<Seq<char>>) -> Option<
    Seq<Option<JsonTree>>,
> {
    let first: int = if tagged {
        1
    } else {
        0
    };
    match tree {
        JsonTree::Object(members) => if holds_only(members, tagged, names) {
            Some(Seq::new(names.len(), |k: int| member_named(members, names[k])))
        } else {
            None
        },
        JsonTree::Array(items) => if items.len() == first + names.len() {
            Some(Seq::new(names.len(), |k: int| Some(items[first + k])))
        } else {
            None
        },
        _ => None,
    }
}

/// The tree of a field that may be absent.
pub open spec fn field_tree(field: Option<&Json>) -> Option<JsonTree> {
    match field {
        Some(json) => Some(json@),
        None => None,
    }
}

/// The trees of fields that may be absent.
pub open spec fn field_trees(fields: Seq<Option<&Json>>) -> Seq<Option<JsonTree>> {
    Seq::new(fields.len(), |k: int| field_tree(fields[k]))
}

/// Compares two texts.
pub(crate) fn same_text(left: &String, right: &str) -> (same: bool)
    ensures
        same == (left@ == right@),
{
    *left == right.to_owned()
}

/// Finds the members that have a name: how many there are, up to two, and the last one.
pub(crate) fn find_member<'a>(members: &'a Vec<(String, Json)>, name: &str) -> (result: (
    u8,
    Option<&'a Json>,
))
    ensures
        result.0 == (if occurrences(members_tree(members@), name@) < 2 {
            occurrences(members_tree(members@), name@)
        } else {
            2
        }),
        field_tree(result.1) == member_named(members_tree(members@), name@),
{
    let mut count: u8 = 0;
    let mut found: Option<&Json> = None;
    let ghost all = members_tree(members@);
    for i in 0..members.len()
        invariant
            all == members_tree(members@),
            count == (if occurrences(all.take(i as int), name@) < 2 {
                occurrences(all.take(i as int), name@)
            } else {
                2
            }),
            field_tree(found) == member_named(all.take(i as int), name@),
    {
        proof {
            assert(all.take(i + 1).drop_last() =~= all.take(i as int));
        }
        if same_text(&members[i].0, name) {
            if count < 2 {
                count = count + 1;
            }
            found = Some(&members[i].1);
        }
    }
    proof {
        assert(all.take(members@.len() as int) =~= all);
    }
    (count, found)
}

/// Finds the last place of a name in a list.
pub(crate) fn find_place(names: &[&str], name: &String) -> (place: Option<usize>)
    ensures
        match place {
            Some(place) => place < names@.len() && place_of(texts(names@), name@) == Some(
                place as int,
            ),
            None => place_of(texts(names@), name@) is None,
        },
{
    let mut found: Option<usize> = None;
    let ghost all = texts(names@);
    for i in 0..names.len()
        invariant
            all == texts(names@),
            match found {
                Some(place) => place < i && place_of(all.take(i as int), name@) == Some(
                    place as int,
                ),
                None => place_of(all.take(i as int), name@) is None,
            },
    {
        proof {
            assert(all.take(i + 1).drop_last() =~= all.take(i as int));
        }
        if same_text(name, names[i]) {
            found = Some(i);
        }
    }
    proof {
        assert(all.take(names@.len() as int) =~= all);
    }
    found
}

/// Finds the value that names the variant of a tagged value.
pub(crate) fn find_tag(json: &Json) -> (tag: Option<&Json>)
    ensures
        field_tree(tag) == tag_of(json@),
{
    proof {
        lemma_tree_of_parts(*json);
    }
    match json {
        Json::Object(members) => {
            let (count, found) = find_member(members, "type");
            if count == 1 {
                found
            } else {
                None
            }
        },
        Json::Array(items) => if items.len() > 0 {
            Some(&items[0])
        } else {
            None
        },
        _ => None,
    }
}

/// Finds the variant that a tag names.
pub(crate) fn find_variant(tag: &Json, names: &[&str], indexed: bool) -> (variant: Option<usize>)
    ensures
        match variant {
            Some(variant) => variant_of(tag@, texts(names@), indexed) == Some(variant as int),
            None => variant_of(tag@, texts(names@), indexed) is None,
        },
{
    match tag {
        Json::Text(name) => find_place(names, name),
        Json::Number(place) => if indexed && *place < names.len() as u64 {
            Some(*place as usize)
        } else {
            None
        },
        _ => None,
    }
}

/// Finds the variant that a value names where the variant holds nothing.
pub(crate) fn find_unit_variant(json: &Json, names: &[&str]) -> (variant: Option<usize>)
    ensures
        match variant {
            Some(variant) => unit_variant_of(json@, texts(names@)) == Some(variant as int),
            None => unit_variant_of(json@, texts(names@)) is None,
        },
{
    proof {
        lemma_tree_of_parts(*json);
    }
    match json {
        Json::Text(name) => find_place(names, name),
        Json::Object(members) => {
            if members.len() != 1 {
                return None;
            }
            proof {
                lemma_tree_of_parts(members@[0].1);
            }
            let unit = match &members[0].1 {
                Json::Null => true,
                Json::Object(inner) => {
                    proof {
                        if inner@.len() == 0 {
                            assert(members_tree(inner@) =~= Seq::empty());
                        } else {
                            assert(members_tree(inner@).len() == inner@.len());
                        }
                    }
                    inner.len() == 0
                },
                _ => false,
            };
            if unit {
                find_place(names, &members[0].0)
            } else {
                None
            }
        },
        _ => None,
    }
}

/// Finds the values of the named fields.
pub(crate) fn find_fields<'a>(json: &'a Json, tagged: bool, names: &[&str]) -> (result: Option<
    Vec<Option<&'a Json>>,
>)
    ensures
        match result {
            Some(fields) => fields@.len() == names@.len() && fields_of(
                json@,
                tagged,
                texts(names@),
            ) == Some(field_trees(fields@)),
            None => fields_of(json@, tagged, texts(names@)) is None,
        },
{
    proof {
        lemma_tree_of_parts(*json);
    }
    match json {
        Json::Object(members) => find_object_fields(members, tagged, names),
        Json::Array(items) => {
            let first: usize = if tagged {
                1
            } else {
                0
            };
            if items.len() < first || items.len() - first != names.len() {
                return None;
            }
            let mut fields: Vec<Option<&Json>> = Vec::new();
            for k in 0..names.len()
                invariant
                    first <= 1,
                    items@.len() == first + names@.len(),
                    fields@.len() == k,
                    forall|i: int|
                        0 <= i < k ==> field_tree(#[trigger] fields@[i]) == Some(
                            items@[first + i]@,
                        ),
            {
                fields.push(Some(&items[first + k]));
            }
            proof {
                assert(field_trees(fields@) =~= fields_of(json@, tagged, texts(names@))->0);
            }
            Some(fields)
        },
        _ => None,
    }
}

/// Finds the values of the named fields of an object.
fn find_object_fields<'a>(
    members: &'a Vec<(String, Json)>,
    tagged: bool,
    names: &[&str],
) -> (result: Option<Vec<Option<&'a Json>>>)
    ensures
        match result {
            Some(fields) => fields@.len() == names@.len() && fields_of(
                JsonTree::Object(members_tree(members@)),
                tagged,
                texts(names@),
            ) == Some(field_trees(fields@)),
            None => fields_of(JsonTree::Object(members_tree(members@)), tagged, texts(names@))
                is None,
        },
{
    let ghost all = members_tree(members@);
    let ghost wanted = texts(names@);
    let mut fields: Vec<Option<&Json>> = Vec::new();
    for k in 0..names.len()
        invariant
            all == members_tree(members@),
            wanted == texts(names@),
            fields@.len() == k,
            forall|i: int|
                0 <= i < k ==> occurrences(all, #[trigger] wanted[i]) <= 1 && field_tree(fields@[i])
                    == member_named(all, wanted[i]),
    {
        let (count, found) = find_member(members, names[k]);
        proof {
            assert(wanted[k as int] == names@[k as int]@);
        }
        if count > 1 {
            return None;
        }
        fields.push(found);
    }
    for i in 0..members.len()
        invariant
            all == members_tree(members@),
            wanted == texts(names@),
            forall|j: int|
                0 <= j < i ==> (tagged && (#[trigger] all[j]).0 == "type"@) || place_of(
                    wanted,
                    all[j].0,
                ) is Some,
    {
        proof {
            assert(all[i as int].0 == members@[i as int].0@);
        }
        let expected = (tagged && same_text(&members[i].0, "type")) || find_place(
            names,
            &members[i].0,
        ).is_some();
        if !expected {
            return None;
        }
    }
    proof {
        assert(holds_only(all, tagged, wanted));
        assert(field_trees(fields@) =~= Seq::new(
            wanted.len(),
            |k: int| member_named(all, wanted[k]),
        ));
    }
    Some(fields)
}

} // verus!
