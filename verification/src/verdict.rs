//! A value is refused where it is no frame, and only there.
use crate::json::JsonTree;
use crate::members::{
    fields_of, holds_only, member_named, occurrences, place_of, tag_of, unit_variant_of, variant_of,
};
use crate::refusal::{
    array_refusal, control_form, fields_refusal, first_item, frame_form,
    items_refusal, members_refusal, message_form, missing_refusal,     refusal, size_form, tag_refusal, unit_refusal, variants_of, FormView, Shape,
};
use crate::round_trip::{lemma_frame_fields, lemma_place, texts_distinct};
use crate::wire::{
    bytes_from, client_from, control_from, frame_fields, frame_from, is_byte, message_from,
    message_text_from, number_from, owner_from, reason_fields, reason_from, reason_names,
    session_from, short_from, size_from,
};
use vstd::prelude::*;

verus! {

/// A name is found where it occurs, and only there.
pub proof fn lemma_counted_is_found(members: Seq<(Seq<char>, JsonTree)>, name: Seq<char>)
    ensures
        occurrences(members, name) > 0 <==> member_named(members, name) is Some,
    decreases members.len(),
{
    if members.len() > 0 {
        lemma_counted_is_found(members.drop_last(), name);
    }
}

/// Nothing is wrong with a tag that names a variant, and only with that.
pub proof fn lemma_tag_names_variant(shape: Shape, tree: JsonTree)
    ensures
        tag_refusal(shape, tree) is None <==> (tag_of(tree) matches Some(tag) && variant_of(
            tag,
            variants_of(shape),
            shape != Shape::Frame,
        ) is Some),
{
    if let JsonTree::Object(members) = tree {
        lemma_counted_is_found(members, "type"@);
    }
}

/// Nothing is wrong with what names a variant that holds nothing, and only with that.
pub proof fn lemma_unit_is_named(tree: JsonTree, names: Seq<Seq<char>>)
    ensures
        unit_refusal(tree, names) is None <==> unit_variant_of(tree, names) is Some,
{
}

/// A name stands at its place.
pub proof fn lemma_place_names(names: Seq<Seq<char>>, name: Seq<char>)
    ensures
        place_of(names, name) matches Some(place) ==> 0 <= place < names.len() && names[place]
            == name,
    decreases names.len(),
{
    if names.len() > 0 && names.last() != name {
        lemma_place_names(names.drop_last(), name);
    }
}

/// Whether a field that may be absent is not refused.
pub open spec fn accepts(shape: Shape, field: Option<JsonTree>) -> bool {
    match field {
        Some(tree) => refusal(shape, tree) is None,
        None => shape == Shape::Client,
    }
}

/// Whether a field can be read as a shape.
pub open spec fn reads(shape: Shape, field: Option<JsonTree>) -> bool {
    match shape {
        Shape::Number => number_from(field) is Some,
        Shape::Short => short_from(field) is Some,
        Shape::Client => client_from(field) is Some,
        Shape::Bytes => bytes_from(field) is Some,
        Shape::Text => message_text_from(field) is Some,
        Shape::Session => session_from(field) is Some,
        Shape::Size => size_from(field) is Some,
        Shape::Owner => owner_from(field) is Some,
        Shape::Reason => reason_from(field) is Some,
        Shape::Message => message_from(field) is Some,
        Shape::Control => control_from(field) is Some,
        Shape::Frame => field matches Some(tree) && frame_from(tree) is Some,
    }
}

/// Whether a member of an object is not refused.
pub open spec fn member_accepted(tree: JsonTree, tagged: bool, form: FormView, i: int) -> bool {
    let members = tree->Object_0;
    let name = members[i].0;
    ||| tagged && name == "type"@
    ||| {
        &&& place_of(form.names, name) is Some
        &&& occurrences(members.take(i), name) == 0
        &&& refusal(form.shapes[place_of(form.names, name)->0], members[i].1) is None
    }
}

pub proof fn lemma_members(tree: JsonTree, tagged: bool, form: FormView, n: int)
    requires
        tree is Object,
        0 <= n <= tree->Object_0.len(),
    ensures
        members_refusal(tree, tagged, form, n) is None <==> forall|i: int|
            0 <= i < n ==> #[trigger] member_accepted(tree, tagged, form, i),
    decreases n,
{
    if n > 0 {
        lemma_members(tree, tagged, form, n - 1);
        if members_refusal(tree, tagged, form, n) is None {
            assert(member_accepted(tree, tagged, form, n - 1));
        } else if forall|i: int| 0 <= i < n ==> #[trigger] member_accepted(tree, tagged, form, i) {
            assert(member_accepted(tree, tagged, form, n - 1));
        }
    }
}

pub proof fn lemma_missing(members: Seq<(Seq<char>, JsonTree)>, form: FormView, n: int)
    requires
        0 <= n,
    ensures
        missing_refusal(members, form, n) is None <==> forall|k: int|
            0 <= k < n ==> member_named(members, #[trigger] form.names[k]) is Some
                || form.shapes[k] == Shape::Client,
    decreases n,
{
    if n > 0 {
        lemma_missing(members, form, n - 1);
        assert(form.names[n - 1] == form.names[n - 1]);
    }
}

pub proof fn lemma_array(tree: JsonTree, tagged: bool, form: FormView, n: int)
    requires
        tree is Array,
        0 <= n,
    ensures
        array_refusal(tree, tagged, form, n) is None <==> forall|k: int|
            0 <= k < n ==> first_item(tagged) + k < tree->Array_0.len() && refusal(
                #[trigger] form.shapes[k],
                tree->Array_0[first_item(tagged) + k],
            ) is None,
    decreases n,
{
    if n > 0 {
        lemma_array(tree, tagged, form, n - 1);
        assert(form.shapes[n - 1] == form.shapes[n - 1]);
    }
}

/// A name that is never met a second time occurs once at most.
proof fn lemma_occurs_once(members: Seq<(Seq<char>, JsonTree)>, name: Seq<char>, n: int)
    requires
        0 <= n <= members.len(),
        forall|i: int|
            0 <= i < n && (#[trigger] members[i]).0 == name ==> occurrences(members.take(i), name)
                == 0,
    ensures
        occurrences(members.take(n), name) <= 1,
    decreases n,
{
    if n > 0 {
        assert(members.take(n).drop_last() =~= members.take(n - 1));
        assert(members.take(n).last() == members[n - 1]);
        lemma_occurs_once(members, name, n - 1);
    }
}

/// The value that a name finds is that of a member with the name.
pub proof fn lemma_found_stands(members: Seq<(Seq<char>, JsonTree)>, name: Seq<char>) -> (at: int)
    requires
        member_named(members, name) is Some,
    ensures
        0 <= at < members.len(),
        members[at].0 == name,
        member_named(members, name) == Some(members[at].1),
    decreases members.len(),
{
    if members.last().0 == name {
        members.len() - 1
    } else {
        lemma_found_stands(members.drop_last(), name)
    }
}

/// A member whose name occurs once is the first and the last with that name.
pub proof fn lemma_alone(members: Seq<(Seq<char>, JsonTree)>, i: int)
    requires
        0 <= i < members.len(),
        occurrences(members, members[i].0) <= 1,
    ensures
        occurrences(members.take(i), members[i].0) == 0,
        member_named(members, members[i].0) == Some(members[i].1),
    decreases members.len(),
{
    let rest = members.drop_last();
    if i == members.len() - 1 {
        assert(members.take(i) =~= rest);
    } else {
        assert(rest[i] == members[i]);
        assert(rest.take(i) =~= members.take(i));
        if members.last().0 == members[i].0 {
            lemma_occurs_somewhere(rest, i);
        }
        lemma_alone(rest, i);
    }
}

/// The name of a member occurs.
pub proof fn lemma_occurs_somewhere(members: Seq<(Seq<char>, JsonTree)>, i: int)
    requires
        0 <= i < members.len(),
    ensures
        occurrences(members, members[i].0) >= 1,
    decreases members.len(),
{
    if i < members.len() - 1 {
        assert(members.drop_last()[i] == members[i]);
        lemma_occurs_somewhere(members.drop_last(), i);
    }
}

/// Fields are not refused where each of them is there and is not refused.
proof fn lemma_fields(tree: JsonTree, tagged: bool, form: FormView)
    requires
        tree is Object || (tree is Array && tree->Array_0.len() >= first_item(tagged)),
        form.shapes.len() == form.names.len(),
        texts_distinct(form.names),
        tagged ==> forall|k: int| 0 <= k < form.names.len() ==> (#[trigger] form.names[k])
            != "type"@,
    ensures
        fields_refusal(tree, tagged, form) is None <==> (fields_of(
            tree,
            tagged,
            form.names,
        ) matches Some(fields) && forall|k: int|
            0 <= k < form.names.len() ==> accepts(#[trigger] form.shapes[k], fields[k])),
{
    let all = form.names.len() as int;
    match tree {
        JsonTree::Object(members) => {
            lemma_members(tree, tagged, form, members.len() as int);
            lemma_missing(members, form, all);
            if fields_refusal(tree, tagged, form) is None {
                assert forall|k: int| 0 <= k < all implies occurrences(
                    members,
                    #[trigger] form.names[k],
                ) <= 1 && accepts(form.shapes[k], member_named(members, form.names[k])) by {
                    let name = form.names[k];
                    lemma_place(form.names, k);
                    assert forall|i: int|
                        0 <= i < members.len() && (#[trigger] members[i]).0
                            == name implies occurrences(members.take(i), name) == 0 by {
                        assert(member_accepted(tree, tagged, form, i));
                    }
                    lemma_occurs_once(members, name, members.len() as int);
                    assert(members.take(members.len() as int) =~= members);
                    if member_named(members, name) is Some {
                        let at = lemma_found_stands(members, name);
                        assert(member_accepted(tree, tagged, form, at));
                    }
                }
                assert forall|i: int| 0 <= i < members.len() implies (tagged && (
                #[trigger] members[i]).0 == "type"@) || place_of(form.names, members[i].0)
                    is Some by {
                    assert(member_accepted(tree, tagged, form, i));
                }
                assert(holds_only(members, tagged, form.names));
                let fields = fields_of(tree, tagged, form.names)->0;
                assert forall|k: int| 0 <= k < all implies accepts(
                    #[trigger] form.shapes[k],
                    fields[k],
                ) by {
                    assert(fields[k] == member_named(members, form.names[k]));
                }
            } else if fields_of(tree, tagged, form.names) is Some {
                let fields = fields_of(tree, tagged, form.names)->0;
                if forall|k: int| 0 <= k < all ==> accepts(#[trigger] form.shapes[k], fields[k]) {
                    assert forall|i: int| 0 <= i < members.len() implies #[trigger] member_accepted(
                        tree,
                        tagged,
                        form,
                        i,
                    ) by {
                        let name = members[i].0;
                        if !(tagged && name == "type"@) {
                            lemma_place_names(form.names, name);
                            let k = place_of(form.names, name)->0;
                            assert(form.names[k] == name);
                            lemma_alone(members, i);
                            assert(fields[k] == Some(members[i].1));
                            assert(accepts(form.shapes[k], fields[k]));
                        }
                    }
                    assert forall|k: int| 0 <= k < all implies member_named(
                        members,
                        #[trigger] form.names[k],
                    ) is Some || form.shapes[k] == Shape::Client by {
                        assert(fields[k] == member_named(members, form.names[k]));
                        assert(accepts(form.shapes[k], fields[k]));
                    }
                }
            }
        },
        JsonTree::Array(items) => {
            lemma_array(tree, tagged, form, all);
            let first = first_item(tagged);
            if fields_refusal(tree, tagged, form) is None {
                if all > 0 {
                    assert(form.shapes[all - 1] == form.shapes[all - 1]);
                }
                let fields = fields_of(tree, tagged, form.names)->0;
                assert forall|k: int| 0 <= k < all implies accepts(
                    #[trigger] form.shapes[k],
                    fields[k],
                ) by {
                    assert(fields[k] == Some(items[first + k]));
                }
            } else if fields_of(tree, tagged, form.names) is Some {
                let fields = fields_of(tree, tagged, form.names)->0;
                if forall|k: int| 0 <= k < all ==> accepts(#[trigger] form.shapes[k], fields[k]) {
                    assert forall|k: int| 0 <= k < all implies first + k < items.len() && refusal(
                        #[trigger] form.shapes[k],
                        items[first + k],
                    ) is None by {
                        assert(fields[k] == Some(items[first + k]));
                        assert(accepts(form.shapes[k], fields[k]));
                    }
                }
            }
        },
        _ => {},
    }
}

pub proof fn lemma_items(items: Seq<JsonTree>)
    ensures
        items_refusal(items) is None <==> forall|i: int|
            0 <= i < items.len() ==> is_byte(#[trigger] items[i]),
    decreases items.len(),
{
    if items.len() > 0 {
        let rest = items.drop_last();
        lemma_items(rest);
        assert(forall|i: int| 0 <= i < rest.len() ==> #[trigger] rest[i] == items[i]);
        assert(items.last() == items[items.len() - 1]);
        if items_refusal(items) is None {
            assert forall|i: int| 0 <= i < items.len() implies is_byte(#[trigger] items[i]) by {
                if i < rest.len() {
                    assert(is_byte(rest[i]));
                }
            }
        } else if forall|i: int| 0 <= i < items.len() ==> is_byte(#[trigger] items[i]) {
            assert forall|i: int| 0 <= i < rest.len() implies is_byte(#[trigger] rest[i]) by {
                assert(is_byte(items[i]));
            }
        }
    }
}

proof fn lemma_simple(shape: Shape, field: Option<JsonTree>)
    requires
        shape is Number || shape is Short || shape is Client || shape is Bytes || shape is Text
            || shape is Session || shape is Owner,
    ensures
        accepts(shape, field) <==> reads(shape, field),
{
    if let Some(JsonTree::Array(items)) = field {
        lemma_items(items);
    }
}

proof fn lemma_size(field: Option<JsonTree>)
    ensures
        accepts(Shape::Size, field) <==> reads(Shape::Size, field),
{
    reveal_strlit("cols");
    reveal_strlit("rows");
    assert("cols"@[0] != "rows"@[0]);
    if let Some(tree) = field {
        if tree is Object || tree is Array {
            let form = size_form();
            lemma_fields(tree, false, form);
            if let Some(fields) = fields_of(tree, false, form.names) {
                lemma_simple(Shape::Short, fields[0]);
                lemma_simple(Shape::Short, fields[1]);
                assert(form.shapes[0] == Shape::Short && form.shapes[1] == Shape::Short);
            }
        }
    }
}

proof fn lemma_reason(field: Option<JsonTree>)
    ensures
        accepts(Shape::Reason, field) <==> reads(Shape::Reason, field),
{
    reveal_strlit("reason");
    reveal_strlit("detail");
    assert("reason"@[0] != "detail"@[0]);
    match field {
        Some(JsonTree::Object(members)) => {
            lemma_reason_members(members);
        },
        _ => {},
    }
}

/// Where names stand in a list of two.
proof fn lemma_place_of_two(name: Seq<char>)
    ensures
        place_of(reason_fields(), name) is Some <==> (name == "reason"@ || name == "detail"@),
{
    let names = reason_fields();
    reveal_with_fuel(place_of, 3);
    assert(names.drop_last() =~= seq!["reason"@]);
    assert(names.drop_last().drop_last() =~= seq![]);
}

proof fn lemma_reason_members(members: Seq<(Seq<char>, JsonTree)>)
    requires
        "reason"@ != "detail"@,
    ensures
        refusal(Shape::Reason, JsonTree::Object(members)) is None <==> reason_from(
            Some(JsonTree::Object(members)),
        ) is Some,
{
    let names = reason_fields();
    assert(names[0] == "reason"@ && names[1] == "detail"@);
    reveal_with_fuel(occurrences, 4);
    reveal_with_fuel(member_named, 4);
    if members.len() > 0 {
        lemma_place_of_two(members[0].0);
        lemma_unit_is_named(members[0].1, reason_names());
    }
    if members.len() > 1 {
        lemma_place_of_two(members[1].0);
        lemma_unit_is_named(members[1].1, reason_names());
    }
    if members.len() > 2 {
        lemma_place_of_two(members[2].0);
        if holds_only(members, false, names) {
            lemma_alone(members, 2);
            lemma_alone(members, 1);
            let two = members.take(2);
            assert(members.take(1).drop_last() =~= seq![]);
            assert(two.drop_last() =~= members.take(1));
            assert(false);
        }
    } else {
        assert(holds_only(members, false, names) <==> (occurrences(members, names[0]) <= 1
            && occurrences(members, names[1]) <= 1 && forall|i: int|
            0 <= i < members.len() ==> place_of(names, (#[trigger] members[i]).0) is Some));
    }
}

proof fn lemma_message(field: Option<JsonTree>)
    ensures
        accepts(Shape::Message, field) <==> reads(Shape::Message, field),
{
    reveal_strlit("type");
    reveal_strlit("owner");
    reveal_strlit("epoch");
    reveal_strlit("size");
    reveal_strlit("message");
    assert("owner"@[0] != "epoch"@[0]);
    assert("size"@[0] != "type"@[0]);
    assert("type"@.len() == 4 && "owner"@.len() == 5 && "epoch"@.len() == 5 && "message"@.len()
        == 7);
    if let Some(tree) = field {
        lemma_tag_names_variant(Shape::Message, tree);
        if tag_refusal(Shape::Message, tree) is None {
            let variant = variant_of(tag_of(tree)->0, variants_of(Shape::Message), true)->0;
            let form = message_form(variant);
            lemma_fields(tree, true, form);
            if let Some(fields) = fields_of(tree, true, form.names) {
                if variant == 1 {
                    lemma_simple(Shape::Owner, fields[0]);
                    lemma_simple(Shape::Number, fields[1]);
                    assert(form.shapes[0] == Shape::Owner && form.shapes[1] == Shape::Number);
                } else if variant == 2 {
                    lemma_size(fields[0]);
                    assert(form.shapes[0] == Shape::Size);
                } else if variant != 0 && variant != 3 {
                    lemma_simple(Shape::Text, fields[0]);
                    assert(form.shapes[0] == Shape::Text);
                }
            }
        }
    }
}

proof fn lemma_control(field: Option<JsonTree>)
    ensures
        accepts(Shape::Control, field) <==> reads(Shape::Control, field),
{
    reveal_strlit("type");
    reveal_strlit("reason");
    reveal_strlit("message");
    assert("type"@.len() == 4 && "reason"@.len() == 6 && "message"@.len() == 7);
    if let Some(tree) = field {
        lemma_tag_names_variant(Shape::Control, tree);
        if tag_refusal(Shape::Control, tree) is None {
            let variant = variant_of(tag_of(tree)->0, variants_of(Shape::Control), true)->0;
            let form = control_form(variant);
            lemma_fields(tree, true, form);
            if let Some(fields) = fields_of(tree, true, form.names) {
                if variant == 0 {
                    lemma_message(fields[0]);
                    assert(form.shapes[0] == Shape::Message);
                } else {
                    lemma_reason(fields[0]);
                    assert(form.shapes[0] == Shape::Reason);
                }
            }
        }
    }
}

/// A field is not refused where it can be read, and only there.
pub proof fn lemma_field(shape: Shape, field: Option<JsonTree>)
    requires
        shape != Shape::Frame,
    ensures
        accepts(shape, field) <==> reads(shape, field),
{
    match shape {
        Shape::Size => lemma_size(field),
        Shape::Reason => lemma_reason(field),
        Shape::Message => lemma_message(field),
        Shape::Control => lemma_control(field),
        _ => lemma_simple(shape, field),
    }
}

/// Something is wrong with a value where it is no frame, and only there.
pub proof fn law_refused_values_are_no_frames(tree: JsonTree)
    ensures
        refusal(Shape::Frame, tree) is None <==> frame_from(tree) is Some,
{
    lemma_tag_names_variant(Shape::Frame, tree);
    if tag_refusal(Shape::Frame, tree) is None {
        let variant = variant_of(tag_of(tree)->0, variants_of(Shape::Frame), false)->0;
        let form = frame_form(variant);
        lemma_frame_fields(variant);
        assert(form.names == frame_fields(variant));
        assert(form.shapes.len() == form.names.len());
        lemma_fields(tree, true, form);
        if let Some(fields) = fields_of(tree, true, form.names) {
            lemma_field(form.shapes[0], fields[0]);
            if form.names.len() > 1 {
                lemma_field(form.shapes[1], fields[1]);
            }
            if form.names.len() > 2 {
                lemma_field(form.shapes[2], fields[2]);
            }
        }
    }
}

} // verus!
