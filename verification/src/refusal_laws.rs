//! What is said of values that are no frames, stated of frames that are spoilt: a member
//! added, repeated, taken away or replaced.
use crate::codec::JsonTunnelCodec;
use crate::errors::{
    duplicate_field_text, error_text, missing_field_text, unknown_field_text, unknown_variant_text,
    wrong_length_text, wrong_type_text, wrong_value_text,
};
use crate::inspect::{
    lemma_array_refusal_grows, lemma_items_refusal_grows, lemma_members_refusal_grows,
    lemma_missing_refusal_grows, refuse,
};
use crate::json::{member_count, names_distinct, separator_count, text_tree, Json, JsonTree};
use crate::members::{member_named, occurrences, place_of, tag_of, variant_of};
use crate::protocol::MessageView;
use crate::refusal::{
    control_form, fields_refusal, first_item, form_of, frame_form, members_refusal, message_form, missing_refusal,
    refusal, size_form, tag_refusal, variants_of, FormView, Shape,
};
use crate::round_trip::{lemma_absent, lemma_frame_fields, lemma_place, lemma_present, lemma_reason_names, texts_distinct};
use crate::tunnel::{ControlView, FrameView, TunnelCodec, TunnelError, TunnelPayload};
use crate::verdict::{
    accepts, law_refused_values_are_no_frames, lemma_alone, lemma_array, lemma_counted_is_found,
    lemma_field, lemma_items, lemma_members, lemma_missing, lemma_occurs_somewhere, lemma_place_names,
    member_accepted,
};
use crate::wire::{
    control_from, control_names, frame_fields, frame_from, frame_names, is_byte, message_from,
    message_names, owner_names, reason_from, reason_names,
};
use vstd::prelude::*;
use vstd::utf8::*;

verus! {

/// What is wrong with the first members does not depend on those that follow.
proof fn lemma_prefix(left: JsonTree, right: JsonTree, form: FormView, n: int)
    requires
        left is Object,
        right is Object,
        0 <= n <= left->Object_0.len(),
        n <= right->Object_0.len(),
        left->Object_0.take(n) == right->Object_0.take(n),
    ensures
        members_refusal(left, true, form, n) == members_refusal(right, true, form, n),
    decreases n,
{
    if n > 0 {
        let (one, two) = (left->Object_0, right->Object_0);
        assert(one.take(n)[n - 1] == two.take(n)[n - 1]);
        assert(one.take(n - 1) =~= one.take(n).take(n - 1));
        assert(two.take(n - 1) =~= two.take(n).take(n - 1));
        lemma_prefix(left, right, form, n - 1);
    }
}

/// Names are found as before where the member that is replaced does not have them.
proof fn lemma_update_other(
    members: Seq<(Seq<char>, JsonTree)>,
    i: int,
    value: JsonTree,
    name: Seq<char>,
)
    requires
        0 <= i < members.len(),
        members[i].0 != name,
    ensures
        occurrences(members.update(i, (members[i].0, value)), name) == occurrences(members, name),
        member_named(members.update(i, (members[i].0, value)), name) == member_named(members, name),
    decreases members.len(),
{
    let changed = members.update(i, (members[i].0, value));
    let rest = members.drop_last();
    if i < members.len() - 1 {
        assert(changed.drop_last() =~= rest.update(i, (rest[i].0, value)));
        assert(changed.last() == members.last());
        lemma_update_other(rest, i, value, name);
    } else {
        assert(changed.drop_last() =~= rest);
    }
}

/// The variant of a tagged value that is not refused.
spec fn variant_in(shape: Shape, tree: JsonTree) -> int {
    variant_of(tag_of(tree)->0, variants_of(shape), shape != Shape::Frame)->0
}

/// The form of a tagged value that is not refused.
spec fn form_in(shape: Shape, tree: JsonTree) -> FormView {
    form_of(shape, variant_in(shape, tree))
}

/// Whether a shape has a tag.
spec fn has_tag(shape: Shape) -> bool {
    shape is Frame || shape is Control || shape is Message
}

proof fn lemma_forms(shape: Shape, variant: int)
    requires
        has_tag(shape),
    ensures
        texts_distinct(form_of(shape, variant).names),
        form_of(shape, variant).names.len() == form_of(shape, variant).shapes.len(),
        forall|k: int|
            0 <= k < form_of(shape, variant).names.len() ==> (#[trigger] form_of(
                shape,
                variant,
            ).names[k]) != "type"@,
{
    reveal_strlit("type");
    reveal_strlit("owner");
    reveal_strlit("epoch");
    reveal_strlit("size");
    reveal_strlit("message");
    reveal_strlit("reason");
    assert("type"@.len() == 4 && "owner"@.len() == 5 && "epoch"@.len() == 5 && "message"@.len() == 7
        && "reason"@.len() == 6);
    assert("owner"@[0] != "epoch"@[0] && "size"@[0] != "type"@[0]);
    lemma_frame_fields(variant);
    if shape is Frame && variant != 0 && variant != 1 && variant != 2 && variant != 3 && variant
        != 4 && variant != 5 && variant != 6 {
        assert(frame_form(variant).names == frame_fields(variant));
    }
}

/// Every member of an object that is not refused is accepted, and no name stands twice.
proof fn lemma_accepted(shape: Shape, members: Seq<(Seq<char>, JsonTree)>)
    requires
        has_tag(shape),
        refusal(shape, JsonTree::Object(members)) is None,
    ensures
        names_distinct(members),
        occurrences(members, "type"@) == 1,
        forall|i: int|
            0 <= i < members.len() ==> #[trigger] member_accepted(
                JsonTree::Object(members),
                true,
                form_in(shape, JsonTree::Object(members)),
                i,
            ),
        missing_refusal(
            members,
            form_in(shape, JsonTree::Object(members)),
            form_in(shape, JsonTree::Object(members)).names.len() as int,
        ) is None,
{
    let tree = JsonTree::Object(members);
    let form = form_in(shape, tree);
    lemma_members(tree, true, form, members.len() as int);
    assert forall|i: int, j: int| 0 <= i < j < members.len() implies (#[trigger] members[i]).0 != (
    #[trigger] members[j]).0 by {
        if members[i].0 == members[j].0 {
            assert(members.take(j)[i] == members[i]);
            lemma_occurs_somewhere(members.take(j), i);
            assert(member_accepted(tree, true, form, j));
            if members[j].0 == "type"@ {
                lemma_alone(members, j);
            }
        }
    }
}

proof fn lemma_push(
    shape: Shape,
    members: Seq<(Seq<char>, JsonTree)>,
    name: Seq<char>,
    value: JsonTree,
)
    requires
        has_tag(shape),
        refusal(shape, JsonTree::Object(members)) is None,
    ensures
        ({
            let form = form_in(shape, JsonTree::Object(members));
            let said = refusal(shape, JsonTree::Object(members.push((name, value))));
            if name == "type"@ {
                said == Some(duplicate_field_text("type"@))
            } else if place_of(form.names, name) is None {
                said == Some(unknown_field_text(name, form.names))
            } else {
                member_named(members, name) is Some ==> said == Some(duplicate_field_text(name))
            }
        }),
{
    let tree = JsonTree::Object(members);
    let form = form_in(shape, tree);
    let longer = members.push((name, value));
    let spoilt = JsonTree::Object(longer);
    lemma_accepted(shape, members);
    lemma_counted_is_found(members, name);
    assert(longer.drop_last() =~= members);
    if name != "type"@ {
        assert(tag_of(spoilt) == tag_of(tree));
        assert(tag_refusal(shape, spoilt) is None);
        let n = members.len() as int;
        assert(longer.take(n) =~= members);
        assert(members.take(n) =~= members);
        lemma_prefix(spoilt, tree, form, n);
        lemma_members(tree, true, form, n);
        assert(members_refusal(spoilt, true, form, n) is None);
        assert(longer[n] == (name, value));
    }
}

proof fn lemma_update(
    shape: Shape,
    members: Seq<(Seq<char>, JsonTree)>,
    i: int,
    value: JsonTree,
)
    requires
        has_tag(shape),
        refusal(shape, JsonTree::Object(members)) is None,
        0 <= i < members.len(),
        members[i].0 != "type"@,
    ensures
        ({
            let form = form_in(shape, JsonTree::Object(members));
            let place = place_of(form.names, members[i].0);
            &&& place matches Some(k)
            &&& refusal(form.shapes[k], value) matches Some(message) ==> refusal(
                shape,
                JsonTree::Object(members.update(i, (members[i].0, value))),
            ) == Some(message)
        }),
{
    let tree = JsonTree::Object(members);
    let form = form_in(shape, tree);
    let changed = members.update(i, (members[i].0, value));
    let spoilt = JsonTree::Object(changed);
    lemma_accepted(shape, members);
    assert(member_accepted(tree, true, form, i));
    lemma_update_other(members, i, value, "type"@);
    assert(tag_of(spoilt) == tag_of(tree));
    assert(tag_refusal(shape, spoilt) is None);
    assert(changed.take(i) =~= members.take(i));
    lemma_prefix(spoilt, tree, form, i);
    lemma_members(tree, true, form, i);
    assert(members_refusal(spoilt, true, form, i) is None);
    let k = place_of(form.names, members[i].0)->0;
    assert(changed[i] == (members[i].0, value));
    if refusal(form.shapes[k], value) is Some {
        assert(members_refusal(spoilt, true, form, i + 1) == refusal(form.shapes[k], value));
        lemma_members_refusal_grows(spoilt, true, form, i + 1);
    }
}

proof fn lemma_remove(shape: Shape, members: Seq<(Seq<char>, JsonTree)>, i: int)
    requires
        has_tag(shape),
        refusal(shape, JsonTree::Object(members)) is None,
        0 <= i < members.len(),
    ensures
        ({
            let form = form_in(shape, JsonTree::Object(members));
            let said = refusal(shape, JsonTree::Object(members.remove(i)));
            if members[i].0 == "type"@ {
                said == Some(missing_field_text("type"@))
            } else {
                let place = place_of(form.names, members[i].0);
                &&& place matches Some(k)
                &&& form.shapes[k] != Shape::Client ==> said == Some(
                    missing_field_text(members[i].0),
                )
            }
        }),
{
    let tree = JsonTree::Object(members);
    let form = form_in(shape, tree);
    let left = members.remove(i);
    let spoilt = JsonTree::Object(left);
    let name = members[i].0;
    lemma_accepted(shape, members);
    assert(member_accepted(tree, true, form, i));
    assert forall|j: int| 0 <= j < left.len() implies #[trigger] left[j] == members[if j < i {
        j
    } else {
        j + 1
    }] by {}
    assert(names_distinct(left));
    assert forall|j: int| 0 <= j < left.len() implies (#[trigger] left[j]).0 != name by {
        assert(left[j] == members[if j < i {
            j
        } else {
            j + 1
        }]);
    }
    lemma_absent(left, name);
    if name != "type"@ {
        lemma_forms(shape, variant_in(shape, tree));
        lemma_counted_is_found(members, "type"@);
        lemma_remove_other(members, i, "type"@);
        assert(tag_of(spoilt) == tag_of(tree));
        assert(tag_refusal(shape, spoilt) is None);
        assert forall|j: int| 0 <= j < left.len() implies #[trigger] member_accepted(
            spoilt,
            true,
            form,
            j,
        ) by {
            let at = if j < i {
                j
            } else {
                j + 1
            };
            assert(left[j] == members[at]);
            assert(member_accepted(tree, true, form, at));
            let before = left.take(j);
            assert forall|m: int| 0 <= m < before.len() implies (#[trigger] before[m]).0
                != left[j].0 by {
                assert(before[m] == left[m]);
            }
            lemma_absent(before, left[j].0);
        }
        lemma_members(spoilt, true, form, left.len() as int);
        lemma_place_names(form.names, name);
        let k = place_of(form.names, name)->0;
        let all = form.names.len() as int;
        lemma_missing(members, form, all);
        lemma_missing(left, form, k);
        assert forall|m: int| 0 <= m < k implies member_named(left, #[trigger] form.names[m]) is Some
            || form.shapes[m] == Shape::Client by {
            assert(form.names[m] != form.names[k]);
            if member_named(members, form.names[m]) is Some {
                lemma_remove_other(members, i, form.names[m]);
            }
        }
        if form.shapes[k] != Shape::Client {
            assert(missing_refusal(left, form, k + 1) == Some(missing_field_text(name)));
            lemma_missing_refusal_grows(left, form, k + 1, all);
        }
    }
}

/// Names are found as before where the member that is taken away does not have them.
proof fn lemma_remove_other(members: Seq<(Seq<char>, JsonTree)>, i: int, name: Seq<char>)
    requires
        0 <= i < members.len(),
        members[i].0 != name,
    ensures
        occurrences(members.remove(i), name) == occurrences(members, name),
        member_named(members.remove(i), name) == member_named(members, name),
    decreases members.len(),
{
    let rest = members.drop_last();
    if i < members.len() - 1 {
        assert(members.remove(i).drop_last() =~= rest.remove(i));
        assert(members.remove(i).last() == members.last());
        assert(rest[i] == members[i]);
        lemma_remove_other(rest, i, name);
    } else {
        assert(members.remove(i) =~= rest);
    }
}

/// The fields of a frame, in order.
pub open spec fn field_names(frame: FrameView) -> Seq<Seq<char>> {
    match frame {
        FrameView::RegisterSession { .. } => seq!["session"@, "commandDisplay"@, "size"@],
        FrameView::AttachBrowser { .. } => seq!["clientId"@],
        FrameView::DetachBrowser { .. } => seq!["clientId"@],
        FrameView::BrowserInput { .. } => seq!["clientId"@, "bytes"@],
        FrameView::BrowserResize { .. } => seq!["clientId"@, "size"@],
        FrameView::PtyOutput { .. } => seq!["bytes"@],
        FrameView::RuntimeControl { .. } => seq!["clientId"@, "control"@],
        FrameView::Heartbeat { .. } => seq!["sequence"@],
    }
}

/// What the fields of a frame are read as, in order.
pub open spec fn field_shapes(frame: FrameView) -> Seq<Shape> {
    match frame {
        FrameView::RegisterSession { .. } => seq![Shape::Session, Shape::Text, Shape::Size],
        FrameView::AttachBrowser { .. } => seq![Shape::Number],
        FrameView::DetachBrowser { .. } => seq![Shape::Number],
        FrameView::BrowserInput { .. } => seq![Shape::Number, Shape::Bytes],
        FrameView::BrowserResize { .. } => seq![Shape::Number, Shape::Size],
        FrameView::PtyOutput { .. } => seq![Shape::Bytes],
        FrameView::RuntimeControl { .. } => seq![Shape::Client, Shape::Control],
        FrameView::Heartbeat { .. } => seq![Shape::Number],
    }
}

/// What is expected of an array that is read as a frame.
pub open spec fn items_text(frame: FrameView) -> Seq<char> {
    match frame {
        FrameView::RegisterSession { .. } => "struct variant TunnelFrame::RegisterSession with 3 elements"@,
        FrameView::AttachBrowser { .. } => "struct variant TunnelFrame::AttachBrowser with 1 element"@,
        FrameView::DetachBrowser { .. } => "struct variant TunnelFrame::DetachBrowser with 1 element"@,
        FrameView::BrowserInput { .. } => "struct variant TunnelFrame::BrowserInput with 2 elements"@,
        FrameView::BrowserResize { .. } => "struct variant TunnelFrame::BrowserResize with 2 elements"@,
        FrameView::PtyOutput { .. } => "struct variant TunnelFrame::PtyOutput with 1 element"@,
        FrameView::RuntimeControl { .. } => "struct variant TunnelFrame::RuntimeControl with 2 elements"@,
        FrameView::Heartbeat { .. } => "struct variant TunnelFrame::Heartbeat with 1 element"@,
    }
}

/// How many items an array may hold that is read as a frame.
pub open spec fn count_text(frame: FrameView) -> Seq<char> {
    if field_names(frame).len() == 1 {
        "1 element in sequence"@
    } else if field_names(frame).len() == 2 {
        "2 elements in sequence"@
    } else {
        "3 elements in sequence"@
    }
}

proof fn lemma_frame_form(tree: JsonTree)
    requires
        frame_from(tree) is Some,
    ensures
        refusal(Shape::Frame, tree) is None,
        form_in(Shape::Frame, tree).names =~= field_names(frame_from(tree)->0),
        form_in(Shape::Frame, tree).shapes =~= field_shapes(frame_from(tree)->0),
        form_in(Shape::Frame, tree).items == items_text(frame_from(tree)->0),
        form_in(Shape::Frame, tree).count == count_text(frame_from(tree)->0),
{
    law_refused_values_are_no_frames(tree);
    if let Some(JsonTree::Text(name)) = tag_of(tree) {
        lemma_place_names(frame_names(), name);
    }
    assert(form_in(Shape::Frame, tree) == frame_form(variant_in(Shape::Frame, tree)));
}

/// A member that a frame does not have is named, with those that it has.
pub proof fn law_added_members_are_named(
    members: Seq<(Seq<char>, JsonTree)>,
    name: Seq<char>,
    value: JsonTree,
)
    requires
        frame_from(JsonTree::Object(members)) is Some,
        name != "type"@,
        !field_names(frame_from(JsonTree::Object(members))->0).contains(name),
    ensures
        refusal(Shape::Frame, JsonTree::Object(members.push((name, value)))) == Some(
            unknown_field_text(name, field_names(frame_from(JsonTree::Object(members))->0)),
        ),
{
    let tree = JsonTree::Object(members);
    lemma_frame_form(tree);
    lemma_push(Shape::Frame, members, name, value);
    let names = form_in(Shape::Frame, tree).names;
    lemma_place_names(names, name);
    if let Some(k) = place_of(names, name) {
        assert(names[k] == name);
        assert(names.contains(name));
    }
}

/// A member of a frame that stands a second time is named.
pub proof fn law_repeated_members_are_named(
    members: Seq<(Seq<char>, JsonTree)>,
    i: int,
    value: JsonTree,
)
    requires
        frame_from(JsonTree::Object(members)) is Some,
        0 <= i < members.len(),
    ensures
        refusal(Shape::Frame, JsonTree::Object(members.push((members[i].0, value)))) == Some(
            duplicate_field_text(members[i].0),
        ),
{
    let tree = JsonTree::Object(members);
    lemma_frame_form(tree);
    lemma_accepted(Shape::Frame, members);
    assert(member_accepted(tree, true, form_in(Shape::Frame, tree), i));
    lemma_push(Shape::Frame, members, members[i].0, value);
    lemma_present(members, i);
}

/// A member of a frame that is taken away is named as missing, unless it is the client of
/// a runtime control, which may be missing.
pub proof fn law_missing_members_are_named(members: Seq<(Seq<char>, JsonTree)>, i: int)
    requires
        frame_from(JsonTree::Object(members)) is Some,
        0 <= i < members.len(),
        !(frame_from(JsonTree::Object(members))->0 is RuntimeControl && members[i].0
            == "clientId"@),
    ensures
        refusal(Shape::Frame, JsonTree::Object(members.remove(i))) == Some(
            missing_field_text(members[i].0),
        ),
{
    let tree = JsonTree::Object(members);
    lemma_frame_form(tree);
    lemma_remove(Shape::Frame, members, i);
    let form = form_in(Shape::Frame, tree);
    lemma_place_names(form.names, members[i].0);
    if let Some(k) = place_of(form.names, members[i].0) {
        assert(form.names[k] == members[i].0);
        assert(form.shapes[k] == field_shapes(frame_from(tree)->0)[k]);
    }
}

/// What is wrong with the value of a field is what is wrong with the frame that holds it.
pub proof fn law_wrong_members_are_explained(
    members: Seq<(Seq<char>, JsonTree)>,
    i: int,
    k: int,
    value: JsonTree,
    message: Seq<char>,
)
    requires
        frame_from(JsonTree::Object(members)) is Some,
        0 <= i < members.len(),
        0 <= k < field_names(frame_from(JsonTree::Object(members))->0).len(),
        members[i].0 == field_names(frame_from(JsonTree::Object(members))->0)[k],
        refusal(field_shapes(frame_from(JsonTree::Object(members))->0)[k], value) == Some(message),
    ensures
        refusal(
            Shape::Frame,
            JsonTree::Object(members.update(i, (members[i].0, value))),
        ) == Some(message),
{
    let tree = JsonTree::Object(members);
    lemma_frame_form(tree);
    let form = form_in(Shape::Frame, tree);
    lemma_forms(Shape::Frame, variant_in(Shape::Frame, tree));
    assert(form.names[k] != "type"@);
    lemma_place(form.names, k);
    lemma_update(Shape::Frame, members, i, value);
}

/// An array that is cut short is refused with the number of fields that are left, and one
/// that is too long with the number that there are.
pub proof fn law_array_lengths_are_explained(items: Seq<JsonTree>, n: int, value: JsonTree)
    requires
        frame_from(JsonTree::Array(items)) is Some,
        1 <= n < items.len(),
    ensures
        refusal(Shape::Frame, JsonTree::Array(items.take(n))) == Some(
            wrong_length_text(
                (n - 1) as nat,
                items_text(frame_from(JsonTree::Array(items))->0),
            ),
        ),
        refusal(Shape::Frame, JsonTree::Array(items.push(value))) == Some(
            wrong_length_text(items.len(), count_text(frame_from(JsonTree::Array(items))->0)),
        ),
{
    let tree = JsonTree::Array(items);
    lemma_frame_form(tree);
    let form = form_in(Shape::Frame, tree);
    let all = form.names.len() as int;
    lemma_array(tree, true, form, all);
    assert(all == items.len() - 1);
    let short = JsonTree::Array(items.take(n));
    assert(items.take(n)[0] == items[0]);
    assert(tag_of(short) == tag_of(tree));
    assert(tag_refusal(Shape::Frame, short) is None);
    assert forall|k: int| 0 <= k < n - 1 implies 1 + k < items.take(n).len() && refusal(
        #[trigger] form.shapes[k],
        items.take(n)[1 + k],
    ) is None by {
        assert(items.take(n)[1 + k] == items[1 + k]);
    }
    lemma_array(short, true, form, n - 1);
    lemma_array_refusal_grows(short, true, form, n, all);
    let long = JsonTree::Array(items.push(value));
    assert(items.push(value)[0] == items[0]);
    assert(tag_of(long) == tag_of(tree));
    assert(tag_refusal(Shape::Frame, long) is None);
    assert forall|k: int| 0 <= k < all implies 1 + k < items.push(value).len() && refusal(
        #[trigger] form.shapes[k],
        items.push(value)[1 + k],
    ) is None by {
        assert(items.push(value)[1 + k] == items[1 + k]);
    }
    lemma_array(long, true, form, all);
}

/// What is wrong with the tag of a frame: that it is missing, that it is no text, or that
/// its text names no frame.
pub proof fn law_frame_tags_are_explained(tree: JsonTree)
    ensures
        !(tree is Object) && !(tree is Array) ==> refusal(Shape::Frame, tree) == Some(
            wrong_type_text(tree, "internally tagged enum TunnelFrame"@),
        ),
        tree matches JsonTree::Object(members) ==> occurrences(members, "type"@) == 0 ==> refusal(
            Shape::Frame,
            tree,
        ) == Some(missing_field_text("type"@)),
        tree == JsonTree::Array(Seq::empty()) ==> refusal(Shape::Frame, tree) == Some(
            missing_field_text("type"@),
        ),
        tag_of(tree) matches Some(tag) ==> !(tag is Text) ==> refusal(Shape::Frame, tree) == Some(
            wrong_type_text(tag, "variant identifier"@),
        ),
        tag_of(tree) matches Some(JsonTree::Text(name)) ==> ({
            let names = seq![
                "registerSession"@,
                "attachBrowser"@,
                "detachBrowser"@,
                "browserInput"@,
                "browserResize"@,
                "ptyOutput"@,
                "runtimeControl"@,
                "heartbeat"@,
            ];
            !names.contains(name) ==> refusal(Shape::Frame, tree) == Some(
                unknown_variant_text(name, names),
            )
        }),
{
    let names = seq![
        "registerSession"@,
        "attachBrowser"@,
        "detachBrowser"@,
        "browserInput"@,
        "browserResize"@,
        "ptyOutput"@,
        "runtimeControl"@,
        "heartbeat"@,
    ];
    assert(frame_names() =~= names);
    if let Some(JsonTree::Text(name)) = tag_of(tree) {
        lemma_place_names(names, name);
        if let Some(k) = place_of(names, name) {
            assert(names[k] == name);
            assert(names.contains(name));
        }
    }
}

/// What is wrong with a number: that it is negative or too large, or that it is none.
pub proof fn law_wrong_numbers_are_explained(tree: JsonTree)
    ensures
        refusal(Shape::Number, tree) is None <==> tree is Number,
        refusal(Shape::Client, tree) is None <==> tree is Number || tree is Null,
        refusal(Shape::Short, tree) is None <==> (tree matches JsonTree::Number(number) && number
            <= 65535),
        tree is Negative ==> refusal(Shape::Number, tree) == Some(wrong_value_text(tree, "u64"@))
            && refusal(Shape::Client, tree) == Some(wrong_value_text(tree, "u64"@)) && refusal(
            Shape::Short,
            tree,
        ) == Some(wrong_value_text(tree, "u16"@)),
        tree matches JsonTree::Number(number) ==> number > 65535 ==> refusal(Shape::Short, tree)
            == Some(wrong_value_text(tree, "u16"@)),
        !(tree is Number) && !(tree is Negative) ==> refusal(Shape::Number, tree) == Some(
            wrong_type_text(tree, "u64"@),
        ) && refusal(Shape::Short, tree) == Some(wrong_type_text(tree, "u16"@)) && (tree is Null
            || refusal(Shape::Client, tree) == Some(wrong_type_text(tree, "u64"@))),
{
}

/// What is wrong with a text: that it is too long or no session name, or that it is none.
pub proof fn law_wrong_texts_are_explained(tree: JsonTree)
    ensures
        tree matches JsonTree::Text(text) ==> {
            &&& encode_utf8(text).len() <= 256 <==> refusal(Shape::Text, tree) is None
            &&& encode_utf8(text).len() > 256 ==> refusal(Shape::Text, tree) == Some(
                "message is too long"@,
            )
            &&& refusal(Shape::Session, tree) is None || refusal(Shape::Session, tree) == Some(
                "invalid session name"@,
            )
        },
        !(tree is Text) ==> refusal(Shape::Text, tree) == Some(wrong_type_text(tree, "a string"@))
            && refusal(Shape::Session, tree) == Some(wrong_type_text(tree, "a string"@)),
{
}

/// What is wrong with terminal bytes: the first item that is no byte, that there are too
/// many of them, or that they are no array.
pub proof fn law_wrong_bytes_are_explained(tree: JsonTree, i: int)
    ensures
        !(tree is Array) ==> refusal(Shape::Bytes, tree) == Some(
            wrong_type_text(tree, "a sequence"@),
        ),
        tree matches JsonTree::Array(items) ==> (forall|j: int|
            0 <= j < items.len() ==> is_octet(#[trigger] items[j])) ==> refusal(Shape::Bytes, tree)
            == (if items.len() > 65536 {
            Some("tunnel terminal payload exceeds 65536 bytes"@)
        } else {
            None
        }),
        tree matches JsonTree::Array(items) ==> 0 <= i < items.len() && !is_octet(items[i]) && (
        forall|j: int| 0 <= j < i ==> is_octet(#[trigger] items[j])) ==> refusal(
            Shape::Bytes,
            tree,
        ) == Some(
            if items[i] is Number || items[i] is Negative {
                wrong_value_text(items[i], "u8"@)
            } else {
                wrong_type_text(items[i], "u8"@)
            },
        ),
{
    if let JsonTree::Array(items) = tree {
        lemma_items(items);
        if forall|j: int| 0 <= j < items.len() ==> is_octet(#[trigger] items[j]) {
            assert forall|j: int| 0 <= j < items.len() implies is_byte(#[trigger] items[j]) by {
                assert(is_octet(items[j]));
            }
        }
        if 0 <= i < items.len() && !is_octet(items[i]) && (forall|j: int|
            0 <= j < i ==> is_octet(#[trigger] items[j])) {
            let before = items.take(i);
            lemma_items(before);
            assert forall|j: int| 0 <= j < before.len() implies is_byte(#[trigger] before[j]) by {
                assert(is_octet(items[j]));
            }
            assert(items.take(i + 1).drop_last() =~= before);
            assert(items.take(i + 1).last() == items[i]);
            lemma_items_refusal_grows(items, i + 1);
        }
    }
}

/// Whether a value is the number of a byte.
pub open spec fn is_octet(tree: JsonTree) -> bool {
    tree matches JsonTree::Number(number) && number <= 255
}

/// A size without columns or rows is refused as such, and what is no object or array as
/// no size.
pub proof fn law_wrong_sizes_are_explained(tree: JsonTree, cols: u16, rows: u16)
    ensures
        !(tree is Object) && !(tree is Array) ==> refusal(Shape::Size, tree) == Some(
            wrong_type_text(tree, "struct TerminalSize"@),
        ),
        cols == 0 || rows == 0 ==> refusal(
            Shape::Size,
            JsonTree::Array(seq![JsonTree::Number(cols as u64), JsonTree::Number(rows as u64)]),
        ) == Some("invalid terminal size"@),
{
    let items = seq![JsonTree::Number(cols as u64), JsonTree::Number(rows as u64)];
    let pair = JsonTree::Array(items);
    let form = size_form();
    assert(items[0] == JsonTree::Number(cols as u64));
    assert(items[1] == JsonTree::Number(rows as u64));
    assert(form.shapes[0] == Shape::Short && form.shapes[1] == Shape::Short);
    lemma_array(pair, false, form, 2);
    law_wrong_numbers_are_explained(items[0]);
    law_wrong_numbers_are_explained(items[1]);
    assert forall|k: int| 0 <= k < 2 implies first_item(false) + k < items.len() && refusal(
        #[trigger] form.shapes[k],
        items[first_item(false) + k],
    ) is None by {}
    assert(fields_refusal(pair, false, form) is None);
}

/// The fields of a runtime control, in order.
pub open spec fn control_field_names(control: ControlView) -> Seq<Seq<char>> {
    match control {
        ControlView::Server { .. } => seq!["message"@],
        ControlView::Closed { .. } => seq!["reason"@],
    }
}

/// What the fields of a runtime control are read as, in order.
pub open spec fn control_field_shapes(control: ControlView) -> Seq<Shape> {
    match control {
        ControlView::Server { .. } => seq![Shape::Message],
        ControlView::Closed { .. } => seq![Shape::Reason],
    }
}

proof fn lemma_control_form(tree: JsonTree)
    requires
        control_from(Some(tree)) is Some,
    ensures
        refusal(Shape::Control, tree) is None,
        form_in(Shape::Control, tree).names =~= control_field_names(control_from(Some(tree))->0),
        form_in(Shape::Control, tree).shapes =~= control_field_shapes(control_from(Some(tree))->0),
{
    lemma_field(Shape::Control, Some(tree));
    assert(accepts(Shape::Control, Some(tree)));
    if let Some(JsonTree::Text(name)) = tag_of(tree) {
        lemma_place_names(control_names(), name);
    }
    assert(form_in(Shape::Control, tree) == control_form(variant_in(Shape::Control, tree)));
}

/// A runtime control that is spoilt is refused for the member that was added, repeated, taken away
/// or replaced.
pub proof fn law_spoilt_controls_are_explained(
    members: Seq<(Seq<char>, JsonTree)>,
    i: int,
    name: Seq<char>,
    value: JsonTree,
)
    requires
        control_from(Some(JsonTree::Object(members))) is Some,
        0 <= i < members.len(),
    ensures
        name != "type"@ && !control_field_names(control_from(Some(JsonTree::Object(members)))->0).contains(
            name,
        ) ==> refusal(Shape::Control, JsonTree::Object(members.push((name, value)))) == Some(
            unknown_field_text(
                name,
                control_field_names(control_from(Some(JsonTree::Object(members)))->0),
            ),
        ),
        refusal(Shape::Control, JsonTree::Object(members.push((members[i].0, value)))) == Some(
            duplicate_field_text(members[i].0),
        ),
        refusal(Shape::Control, JsonTree::Object(members.remove(i))) == Some(
            missing_field_text(members[i].0),
        ),
        forall|k: int|
            #![trigger control_field_names(control_from(Some(JsonTree::Object(members)))->0)[k]]
            0 <= k < control_field_names(control_from(Some(JsonTree::Object(members)))->0).len()
                && members[i].0 == control_field_names(
                control_from(Some(JsonTree::Object(members)))->0,
            )[k] && refusal(
                control_field_shapes(control_from(Some(JsonTree::Object(members)))->0)[k],
                value,
            ) is Some ==> refusal(
                Shape::Control,
                JsonTree::Object(members.update(i, (members[i].0, value))),
            ) == refusal(
                control_field_shapes(control_from(Some(JsonTree::Object(members)))->0)[k],
                value,
            ),
{
    let tree = JsonTree::Object(members);
    lemma_control_form(tree);
    let form = form_in(Shape::Control, tree);
    lemma_forms(Shape::Control, variant_in(Shape::Control, tree));
    lemma_accepted(Shape::Control, members);
    assert(member_accepted(tree, true, form, i));
    lemma_push(Shape::Control, members, name, value);
    lemma_place_names(form.names, name);
    if let Some(k) = place_of(form.names, name) {
        assert(form.names[k] == name);
        assert(form.names.contains(name));
    }
    lemma_push(Shape::Control, members, members[i].0, value);
    lemma_present(members, i);
    lemma_remove(Shape::Control, members, i);
    lemma_place_names(form.names, members[i].0);
    if members[i].0 != "type"@ {
        let k = place_of(form.names, members[i].0)->0;
        assert(form.shapes[k] == control_field_shapes(control_from(Some(tree))->0)[k]);
        lemma_update(Shape::Control, members, i, value);
        assert forall|m: int| 0 <= m < form.names.len() && #[trigger] form.names[m]
            == members[i].0 implies m == k by {
            lemma_place(form.names, m);
        }
    } else {
        assert forall|m: int| 0 <= m < form.names.len() implies #[trigger] form.names[m]
            != members[i].0 by {}
    }
}

/// The fields of a control message, in order.
pub open spec fn message_field_names(message: MessageView) -> Seq<Seq<char>> {
    match message {
        MessageView::Ready => seq![],
        MessageView::LeaseChanged { .. } => seq!["owner"@, "epoch"@],
        MessageView::SizeChanged { .. } => seq!["size"@],
        MessageView::ProcessExited => seq![],
        MessageView::Warning { .. } => seq!["message"@],
        MessageView::Error { .. } => seq!["message"@],
    }
}

/// What the fields of a control message are read as, in order.
pub open spec fn message_field_shapes(message: MessageView) -> Seq<Shape> {
    match message {
        MessageView::Ready => seq![],
        MessageView::LeaseChanged { .. } => seq![Shape::Owner, Shape::Number],
        MessageView::SizeChanged { .. } => seq![Shape::Size],
        MessageView::ProcessExited => seq![],
        MessageView::Warning { .. } => seq![Shape::Text],
        MessageView::Error { .. } => seq![Shape::Text],
    }
}

proof fn lemma_message_form(tree: JsonTree)
    requires
        message_from(Some(tree)) is Some,
    ensures
        refusal(Shape::Message, tree) is None,
        form_in(Shape::Message, tree).names =~= message_field_names(message_from(Some(tree))->0),
        form_in(Shape::Message, tree).shapes =~= message_field_shapes(message_from(Some(tree))->0),
{
    lemma_field(Shape::Message, Some(tree));
    assert(accepts(Shape::Message, Some(tree)));
    if let Some(JsonTree::Text(name)) = tag_of(tree) {
        lemma_place_names(message_names(), name);
    }
    assert(form_in(Shape::Message, tree) == message_form(variant_in(Shape::Message, tree)));
}

/// A control message that is spoilt is refused for the member that was added, repeated, taken away
/// or replaced.
pub proof fn law_spoilt_messages_are_explained(
    members: Seq<(Seq<char>, JsonTree)>,
    i: int,
    name: Seq<char>,
    value: JsonTree,
)
    requires
        message_from(Some(JsonTree::Object(members))) is Some,
        0 <= i < members.len(),
    ensures
        name != "type"@ && !message_field_names(message_from(Some(JsonTree::Object(members)))->0).contains(
            name,
        ) ==> refusal(Shape::Message, JsonTree::Object(members.push((name, value)))) == Some(
            unknown_field_text(
                name,
                message_field_names(message_from(Some(JsonTree::Object(members)))->0),
            ),
        ),
        refusal(Shape::Message, JsonTree::Object(members.push((members[i].0, value)))) == Some(
            duplicate_field_text(members[i].0),
        ),
        refusal(Shape::Message, JsonTree::Object(members.remove(i))) == Some(
            missing_field_text(members[i].0),
        ),
        forall|k: int|
            #![trigger message_field_names(message_from(Some(JsonTree::Object(members)))->0)[k]]
            0 <= k < message_field_names(message_from(Some(JsonTree::Object(members)))->0).len()
                && members[i].0 == message_field_names(
                message_from(Some(JsonTree::Object(members)))->0,
            )[k] && refusal(
                message_field_shapes(message_from(Some(JsonTree::Object(members)))->0)[k],
                value,
            ) is Some ==> refusal(
                Shape::Message,
                JsonTree::Object(members.update(i, (members[i].0, value))),
            ) == refusal(
                message_field_shapes(message_from(Some(JsonTree::Object(members)))->0)[k],
                value,
            ),
{
    let tree = JsonTree::Object(members);
    lemma_message_form(tree);
    let form = form_in(Shape::Message, tree);
    lemma_forms(Shape::Message, variant_in(Shape::Message, tree));
    lemma_accepted(Shape::Message, members);
    assert(member_accepted(tree, true, form, i));
    lemma_push(Shape::Message, members, name, value);
    lemma_place_names(form.names, name);
    if let Some(k) = place_of(form.names, name) {
        assert(form.names[k] == name);
        assert(form.names.contains(name));
    }
    lemma_push(Shape::Message, members, members[i].0, value);
    lemma_present(members, i);
    lemma_remove(Shape::Message, members, i);
    lemma_place_names(form.names, members[i].0);
    if members[i].0 != "type"@ {
        let k = place_of(form.names, members[i].0)->0;
        assert(form.shapes[k] == message_field_shapes(message_from(Some(tree))->0)[k]);
        lemma_update(Shape::Message, members, i, value);
        assert forall|m: int| 0 <= m < form.names.len() && #[trigger] form.names[m]
            == members[i].0 implies m == k by {
            lemma_place(form.names, m);
        }
    } else {
        assert forall|m: int| 0 <= m < form.names.len() implies #[trigger] form.names[m]
            != members[i].0 by {}
    }
}

/// What is wrong with the tag of a control or a message: that it is missing, that it is no
/// text or number, or that it names no variant.
pub proof fn law_inner_tags_are_explained(tree: JsonTree)
    ensures
        !(tree is Object) && !(tree is Array) ==> refusal(Shape::Control, tree) == Some(
            wrong_type_text(tree, "internally tagged enum TunnelRuntimeControl"@),
        ) && refusal(Shape::Message, tree) == Some(
            wrong_type_text(tree, "internally tagged enum ServerControlMessage"@),
        ),
        tree matches JsonTree::Object(members) ==> occurrences(members, "type"@) == 0 ==> refusal(
            Shape::Control,
            tree,
        ) == Some(missing_field_text("type"@)) && refusal(Shape::Message, tree) == Some(
            missing_field_text("type"@),
        ),
        tag_of(tree) matches Some(tag) ==> !(tag is Text) && !(tag is Number) ==> refusal(
            Shape::Control,
            tree,
        ) == Some(wrong_type_text(tag, "variant identifier"@)) && refusal(Shape::Message, tree)
            == Some(wrong_type_text(tag, "variant identifier"@)),
        tag_of(tree) matches Some(JsonTree::Number(place)) ==> (place >= 2 ==> refusal(
            Shape::Control,
            tree,
        ) == Some(
            wrong_value_text(JsonTree::Number(place), "variant index 0 <= i < 2"@),
        )) && (place >= 6 ==> refusal(Shape::Message, tree) == Some(
            wrong_value_text(JsonTree::Number(place), "variant index 0 <= i < 6"@),
        )),
        tag_of(tree) matches Some(JsonTree::Text(name)) ==> ({
            let controls = seq!["server"@, "closed"@];
            let messages = seq![
                "ready"@,
                "leaseChanged"@,
                "sizeChanged"@,
                "processExited"@,
                "warning"@,
                "error"@,
            ];
            &&& !controls.contains(name) ==> refusal(Shape::Control, tree) == Some(
                unknown_variant_text(name, controls),
            )
            &&& !messages.contains(name) ==> refusal(Shape::Message, tree) == Some(
                unknown_variant_text(name, messages),
            )
        }),
{
    let controls = seq!["server"@, "closed"@];
    let messages = seq![
        "ready"@,
        "leaseChanged"@,
        "sizeChanged"@,
        "processExited"@,
        "warning"@,
        "error"@,
    ];
    assert(control_names() =~= controls);
    assert(message_names() =~= messages);
    if let Some(JsonTree::Text(name)) = tag_of(tree) {
        lemma_place_names(controls, name);
        lemma_place_names(messages, name);
        if let Some(k) = place_of(controls, name) {
            assert(controls[k] == name);
        }
        if let Some(k) = place_of(messages, name) {
            assert(messages[k] == name);
        }
    }
}

/// What is wrong with the name of a lease owner or of a close reason: that it is unknown,
/// or that it is none.
pub proof fn law_wrong_names_are_explained(tree: JsonTree, name: Seq<char>)
    ensures
        ({
            let owners = seq!["local"@, "browser"@];
            let reasons = seq![
                "supervisor"@,
                "clientDisconnect"@,
                "controllerReplaced"@,
                "childExit"@,
                "runtimeError"@,
            ];
            &&& !owners.contains(name) ==> refusal(Shape::Owner, JsonTree::Text(name)) == Some(
                unknown_variant_text(name, owners),
            )
            &&& !reasons.contains(name) ==> refusal(
                Shape::Reason,
                JsonTree::Object(seq![("reason"@, JsonTree::Text(name))]),
            ) == Some(unknown_variant_text(name, reasons))
        }),
        !(tree is Text) && !(tree is Object) ==> refusal(Shape::Owner, tree) == Some(
            wrong_type_text(tree, "string or map"@),
        ) && refusal(Shape::Reason, JsonTree::Object(seq![("reason"@, tree)])) == Some(
            wrong_type_text(tree, "string or map"@),
        ),
        !(tree is Array) && !(tree is Object) ==> refusal(Shape::Reason, tree) == Some(
            wrong_type_text(tree, "adjacently tagged enum TunnelCloseReason"@),
        ),
{
    let owners = seq!["local"@, "browser"@];
    let reasons = seq![
        "supervisor"@,
        "clientDisconnect"@,
        "controllerReplaced"@,
        "childExit"@,
        "runtimeError"@,
    ];
    assert(owner_names() =~= owners);
    assert(reason_names() =~= reasons);
    lemma_place_names(owners, name);
    lemma_place_names(reasons, name);
    if let Some(k) = place_of(owners, name) {
        assert(owners[k] == name);
    }
    if let Some(k) = place_of(reasons, name) {
        assert(reasons[k] == name);
    }
    let one = seq![("reason"@, JsonTree::Text(name))];
    assert(one[0] == ("reason"@, JsonTree::Text(name)));
    let other = seq![("reason"@, tree)];
    assert(other[0] == ("reason"@, tree));
}

/// What is wrong with the detail of a close reason: that a failure has none or one that is
/// no message, or that another reason has one.
pub proof fn law_wrong_details_are_explained(value: JsonTree)
    ensures
        !(value is Null) ==> refusal(
            Shape::Reason,
            JsonTree::Object(
                seq![("reason"@, JsonTree::Text("supervisor"@)), ("detail"@, value)],
            ),
        ) == Some(wrong_type_text(value, "unit variant TunnelCloseReason::Supervisor"@)),
        !(value is Null) ==> refusal(
            Shape::Reason,
            JsonTree::Object(
                seq![("reason"@, JsonTree::Text("clientDisconnect"@)), ("detail"@, value)],
            ),
        ) == Some(wrong_type_text(value, "unit variant TunnelCloseReason::ClientDisconnect"@)),
        !(value is Null) ==> refusal(
            Shape::Reason,
            JsonTree::Object(
                seq![("reason"@, JsonTree::Text("controllerReplaced"@)), ("detail"@, value)],
            ),
        ) == Some(wrong_type_text(value, "unit variant TunnelCloseReason::ControllerReplaced"@)),
        !(value is Null) ==> refusal(
            Shape::Reason,
            JsonTree::Object(
                seq![("reason"@, JsonTree::Text("childExit"@)), ("detail"@, value)],
            ),
        ) == Some(wrong_type_text(value, "unit variant TunnelCloseReason::ChildExit"@)),
        refusal(
            Shape::Reason,
            JsonTree::Object(seq![("reason"@, JsonTree::Text("runtimeError"@)), ("detail"@, value)]),
        ) == refusal(Shape::Text, value),
        refusal(
            Shape::Reason,
            JsonTree::Object(seq![("reason"@, JsonTree::Text("runtimeError"@))]),
        ) == Some(missing_field_text("detail"@)),
{
    lemma_reason_names();
    reveal_strlit("reason");
    reveal_strlit("detail");
    assert("reason"@[0] != "detail"@[0]);
    lemma_place(reason_names(), 0);
    lemma_place(reason_names(), 1);
    lemma_place(reason_names(), 2);
    lemma_place(reason_names(), 3);
    lemma_place(reason_names(), 4);
    lemma_pair("supervisor"@, value);
    lemma_pair("clientDisconnect"@, value);
    lemma_pair("controllerReplaced"@, value);
    lemma_pair("childExit"@, value);
    lemma_pair("runtimeError"@, value);
    let alone = seq![("reason"@, JsonTree::Text("runtimeError"@))];
    assert(alone[0] == ("reason"@, JsonTree::Text("runtimeError"@)));
}

proof fn lemma_pair(name: Seq<char>, value: JsonTree)
    ensures
        ({
            let pair = seq![("reason"@, JsonTree::Text(name)), ("detail"@, value)];
            pair.len() == 2 && pair[0] == ("reason"@, JsonTree::Text(name)) && pair[1] == (
                "detail"@,
                value,
            )
        }),
{
}

/// A close reason that is spoilt is refused for the member that was added, repeated or
/// taken away.
pub proof fn law_spoilt_reasons_are_explained(
    members: Seq<(Seq<char>, JsonTree)>,
    name: Seq<char>,
    value: JsonTree,
)
    requires
        reason_from(Some(JsonTree::Object(members))) is Some,
    ensures
        name != "reason"@ && name != "detail"@ ==> refusal(
            Shape::Reason,
            JsonTree::Object(members.push((name, value))),
        ) == Some(wrong_value_text(JsonTree::Text(name), "\"reason\" or \"detail\""@)),
        refusal(Shape::Reason, JsonTree::Object(members.push(("reason"@, value)))) == Some(
            duplicate_field_text("reason"@),
        ),
        members.len() == 2 ==> refusal(
            Shape::Reason,
            JsonTree::Object(members.push(("detail"@, value))),
        ) == Some(duplicate_field_text("detail"@)),
        refusal(Shape::Reason, JsonTree::Object(Seq::empty())) == Some(
            missing_field_text("reason"@),
        ),
{
    reveal_strlit("reason");
    reveal_strlit("detail");
    assert("reason"@[0] != "detail"@[0]);
    let tree = JsonTree::Object(members);
    lemma_field(Shape::Reason, Some(tree));
    assert(accepts(Shape::Reason, Some(tree)));
    let more = members.push((name, value));
    let again = members.push(("reason"@, value));
    let twice = members.push(("detail"@, value));
    assert(members.len() > 0);
    assert(more[0] == members[0] && again[0] == members[0] && twice[0] == members[0]);
    if members.len() > 1 {
        assert(more[1] == members[1] && again[1] == members[1] && twice[1] == members[1]);
    }
}

/// What a call says is wrong is what is wrong, and it says nothing only of what can be
/// read.
pub proof fn law_faults_are_reported(shape: Shape, json: Json, error: Option<serde_json::Error>)
    requires
        call_ensures(refuse, (shape, &json), error),
    ensures
        error is Some <==> refusal(shape, json@) is Some,
        error matches Some(error) ==> refusal(shape, json@) == Some(error_text(error)),
        shape is Frame ==> (error is None <==> frame_from(json@) is Some),
{
    law_refused_values_are_no_frames(json@);
}

/// The error of a text that is JSON and repeats no name says what is wrong with its tree.
pub proof fn law_refused_texts_say_what_is_wrong(
    codec: JsonTunnelCodec,
    text: String,
    error: serde_json::Error,
)
    requires
        call_ensures(
            <JsonTunnelCodec as TunnelCodec>::decode,
            (&codec, TunnelPayload::Text(text)),
            Err(TunnelError::Json(error)),
        ),
    ensures
        text_tree(text@) matches Err(message) ==> error_text(error) == message,
        text_tree(text@) matches Ok(tree) ==> separator_count(text@) == member_count(tree)
            ==> refusal(Shape::Frame, tree) == Some(error_text(error)),
{
}

} // verus!
