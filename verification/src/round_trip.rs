//! What is written is read back.
use crate::json::{is_plain, names_distinct, nested_within, JsonTree, JSON_NESTING_MAX};
use crate::members::{fields_of, holds_only, member_named, occurrences, place_of, tag_of};
use crate::protocol::{LeaseOwner, MessageView, SizeView};
use crate::tunnel::{fits_in_frame, ControlView, FrameView, ReasonView};
use crate::wire::{
    bytes_from, bytes_tree, control_from, control_names, control_tree, frame_fields,
    frame_from, frame_names, frame_tree, is_byte, message_from, message_names, message_tree,
    number_tree, owner_from, owner_names, owner_tree, reason_fields, reason_from, reason_names,
    reason_tree, size_from, size_tree, tag_member,
};
use vstd::prelude::*;

verus! {

/// Whether no two texts are the same.
pub open spec fn texts_distinct(names: Seq<Seq<char>>) -> bool {
    forall|i: int, j: int|
        0 <= i < j < names.len() ==> (#[trigger] names[i]) != (#[trigger] names[j])
}

/// A name that no member has is found nowhere.
pub proof fn lemma_absent(members: Seq<(Seq<char>, JsonTree)>, name: Seq<char>)
    requires
        forall|i: int| 0 <= i < members.len() ==> (#[trigger] members[i]).0 != name,
    ensures
        occurrences(members, name) == 0,
        member_named(members, name) is None,
    decreases members.len(),
{
    if members.len() > 0 {
        lemma_absent(members.drop_last(), name);
    }
}

/// Where names are distinct, each member is found by its name.
pub proof fn lemma_present(members: Seq<(Seq<char>, JsonTree)>, i: int)
    requires
        names_distinct(members),
        0 <= i < members.len(),
    ensures
        occurrences(members, members[i].0) == 1,
        member_named(members, members[i].0) == Some(members[i].1),
    decreases members.len(),
{
    let rest = members.drop_last();
    if i == members.len() - 1 {
        assert forall|j: int| 0 <= j < rest.len() implies (#[trigger] rest[j]).0
            != members[i].0 by {
            assert(rest[j] == members[j]);
        }
        lemma_absent(rest, members[i].0);
    } else {
        assert forall|j: int, k: int| 0 <= j < k < rest.len() implies (#[trigger] rest[j]).0 != (
        #[trigger] rest[k]).0 by {
            assert(rest[j] == members[j] && rest[k] == members[k]);
        }
        lemma_present(rest, i);
        assert(rest[i] == members[i]);
        assert(members[i].0 != members.last().0);
    }
}

/// Where names are distinct, each has the place at which it stands.
pub proof fn lemma_place(names: Seq<Seq<char>>, k: int)
    requires
        texts_distinct(names),
        0 <= k < names.len(),
    ensures
        place_of(names, names[k]) == Some(k),
    decreases names.len(),
{
    if k < names.len() - 1 {
        let rest = names.drop_last();
        assert forall|i: int, j: int| 0 <= i < j < rest.len() implies (#[trigger] rest[i]) != (
        #[trigger] rest[j]) by {
            assert(rest[i] == names[i] && rest[j] == names[j]);
        }
        lemma_place(rest, k);
        assert(rest[k] == names[k]);
        assert(names[k] != names.last());
    }
}

/// An object that holds each field once, after the tag where there is one, gives back
/// the tag and the fields.
pub proof fn lemma_object_fields(
    members: Seq<(Seq<char>, JsonTree)>,
    tagged: bool,
    names: Seq<Seq<char>>,
    first: int,
)
    requires
        first == (if tagged {
            1int
        } else {
            0int
        }),
        members.len() == first + names.len(),
        tagged ==> members[0].0 == "type"@,
        forall|k: int| 0 <= k < names.len() ==> (#[trigger] members[first + k]).0 == names[k],
        texts_distinct(names),
        tagged ==> forall|k: int| 0 <= k < names.len() ==> (#[trigger] names[k]) != "type"@,
    ensures
        names_distinct(members),
        tagged ==> tag_of(JsonTree::Object(members)) == Some(members[0].1),
        fields_of(JsonTree::Object(members), tagged, names) == Some(
            Seq::new(names.len(), |k: int| Some(members[first + k].1)),
        ),
{
    assert forall|i: int, j: int| 0 <= i < j < members.len() implies (#[trigger] members[i]).0 != (
    #[trigger] members[j]).0 by {
        assert(members[first + (j - first)].0 == names[j - first]);
        if i >= first {
            assert(members[first + (i - first)].0 == names[i - first]);
        }
    }
    if tagged {
        lemma_present(members, 0);
    }
    assert forall|k: int| 0 <= k < names.len() implies occurrences(members, #[trigger] names[k])
        <= 1 && member_named(members, names[k]) == Some(members[first + k].1) by {
        assert(members[first + k].0 == names[k]);
        lemma_present(members, first + k);
    }
    assert forall|i: int| 0 <= i < members.len() implies (tagged && (#[trigger] members[i]).0
        == "type"@) || place_of(names, members[i].0) is Some by {
        if i >= first {
            assert(members[first + (i - first)].0 == names[i - first]);
            lemma_place(names, i - first);
        }
    }
    assert(holds_only(members, tagged, names));
    assert(fields_of(JsonTree::Object(members), tagged, names)->0 =~= Seq::new(
        names.len(),
        |k: int| Some(members[first + k].1),
    ));
}

/// Whether a tree can be written as a text and is nested at most `depth` deep.
spec fn writable(tree: JsonTree, depth: nat) -> bool {
    &&& is_plain(tree)
    &&& forall|limit: nat| limit >= depth ==> #[trigger] nested_within(tree, limit)
}

/// An object of writable members with distinct names is writable.
proof fn lemma_writable_object(members: Seq<(Seq<char>, JsonTree)>, depth: nat)
    requires
        names_distinct(members),
        forall|i: int| 0 <= i < members.len() ==> writable((#[trigger] members[i]).1, depth),
    ensures
        writable(JsonTree::Object(members), depth + 1),
{
    assert forall|limit: nat| limit >= depth + 1 implies #[trigger] nested_within(
        JsonTree::Object(members),
        limit,
    ) by {
        assert forall|i: int| 0 <= i < members.len() implies nested_within(
            (#[trigger] members[i]).1,
            (limit - 1) as nat,
        ) by {
            assert(writable(members[i].1, depth));
        }
    }
    assert forall|i: int| 0 <= i < members.len() implies is_plain((#[trigger] members[i]).1) by {
        assert(writable(members[i].1, depth));
    }
}

proof fn lemma_bytes(bytes: Seq<u8>)
    ensures
        bytes_from(Some(bytes_tree(bytes))) == (if fits_in_frame(bytes) {
            Some(bytes)
        } else {
            None
        }),
        writable(bytes_tree(bytes), 1),
{
    let items = bytes_tree(bytes)->Array_0;
    assert forall|i: int| 0 <= i < items.len() implies is_byte(#[trigger] items[i]) && is_plain(
        items[i],
    ) by {
        assert(items[i] == number_tree(bytes[i] as u64));
    }
    if fits_in_frame(bytes) {
        assert(bytes_from(Some(bytes_tree(bytes)))->0 =~= bytes);
    }
    assert forall|limit: nat| limit >= 1 implies #[trigger] nested_within(
        bytes_tree(bytes),
        limit,
    ) by {
        assert(forall|i: int|
            0 <= i < items.len() ==> nested_within(#[trigger] items[i], (limit - 1) as nat));
    }
}

proof fn lemma_size(size: SizeView)
    ensures
        size_from(Some(size_tree(size))) == (if size.valid() {
            Some(size)
        } else {
            None
        }),
        writable(size_tree(size), 1),
{
    reveal_strlit("cols");
    assert("cols"@.len() == 4);
    reveal_strlit("rows");
    assert("rows"@.len() == 4);
    let names = seq!["cols"@, "rows"@];
    assert(names[0][0] != names[1][0]);
    lemma_object_fields(size_tree(size)->Object_0, false, names, 0);
    lemma_writable_object(size_tree(size)->Object_0, 0);
}

proof fn lemma_owner(owner: LeaseOwner)
    ensures
        owner_from(Some(owner_tree(owner))) == Some(owner),
{
    reveal_strlit("local");
    assert("local"@.len() == 5);
    reveal_strlit("browser");
    assert("browser"@.len() == 7);
    let names = owner_names();
    lemma_place(names, 0);
    lemma_place(names, 1);
}

pub proof fn lemma_message_names()
    ensures
        texts_distinct(message_names()),
{
    reveal_strlit("ready");
    assert("ready"@.len() == 5);
    reveal_strlit("leaseChanged");
    assert("leaseChanged"@.len() == 12);
    reveal_strlit("sizeChanged");
    assert("sizeChanged"@.len() == 11);
    reveal_strlit("processExited");
    assert("processExited"@.len() == 13);
    reveal_strlit("warning");
    assert("warning"@.len() == 7);
    reveal_strlit("error");
    assert("error"@.len() == 5);
    assert("ready"@[0] != "error"@[0]);
}

proof fn lemma_message(message: MessageView)
    ensures
        message_from(Some(message_tree(message))) == (if message.valid() {
            Some(message)
        } else {
            None
        }),
        writable(message_tree(message), 2),
{
    lemma_message_names();
    reveal_strlit("type");
    assert("type"@.len() == 4);
    let members = message_tree(message)->Object_0;
    match message {
        MessageView::Ready => {
            lemma_place(message_names(), 0);
            lemma_object_fields(members, true, seq![], 1);
        },
        MessageView::LeaseChanged { owner, epoch } => {
            reveal_strlit("owner");
            assert("owner"@.len() == 5);
            reveal_strlit("epoch");
            assert("epoch"@.len() == 5);
            let names = seq!["owner"@, "epoch"@];
            assert(names[0][0] != names[1][0]);
            lemma_place(message_names(), 1);
            lemma_object_fields(members, true, names, 1);
            lemma_owner(owner);
        },
        MessageView::SizeChanged { size } => {
            reveal_strlit("size");
            assert("size"@.len() == 4);
            assert("size"@[0] != "type"@[0]);
            lemma_place(message_names(), 2);
            lemma_object_fields(members, true, seq!["size"@], 1);
            lemma_size(size);
        },
        MessageView::ProcessExited => {
            lemma_place(message_names(), 3);
            lemma_object_fields(members, true, seq![], 1);
        },
        MessageView::Warning { message } => {
            reveal_strlit("message");
            assert("message"@.len() == 7);
            lemma_place(message_names(), 4);
            lemma_object_fields(members, true, seq!["message"@], 1);
        },
        MessageView::Error { message } => {
            reveal_strlit("message");
            assert("message"@.len() == 7);
            lemma_place(message_names(), 5);
            lemma_object_fields(members, true, seq!["message"@], 1);
        },
    }
    lemma_writable_object(members, 1);
}

pub proof fn lemma_reason_names()
    ensures
        texts_distinct(reason_names()),
{
    reveal_strlit("supervisor");
    assert("supervisor"@.len() == 10);
    reveal_strlit("clientDisconnect");
    assert("clientDisconnect"@.len() == 16);
    reveal_strlit("controllerReplaced");
    assert("controllerReplaced"@.len() == 18);
    reveal_strlit("childExit");
    assert("childExit"@.len() == 9);
    reveal_strlit("runtimeError");
    assert("runtimeError"@.len() == 12);
}

proof fn lemma_reason(reason: ReasonView)
    ensures
        reason_from(Some(reason_tree(reason))) == (if reason.valid() {
            Some(reason)
        } else {
            None
        }),
        writable(reason_tree(reason), 1),
{
    lemma_reason_names();
    reveal_strlit("reason");
    assert("reason"@.len() == 6);
    reveal_strlit("detail");
    assert("detail"@.len() == 6);
    assert("reason"@[0] != "detail"@[0]);
    let members = reason_tree(reason)->Object_0;
    lemma_present(members, 0);
    lemma_place(reason_names(), 0);
    lemma_place(reason_names(), 1);
    lemma_place(reason_names(), 2);
    lemma_place(reason_names(), 3);
    lemma_place(reason_names(), 4);
    match reason {
        ReasonView::RuntimeError(message) => {
            lemma_object_fields(members, false, reason_fields(), 0);
        },
        _ => {
            lemma_absent(members, "detail"@);
            lemma_place(reason_fields(), 0);
            assert(holds_only(members, false, reason_fields()));
        },
    }
    lemma_writable_object(members, 0);
}

proof fn lemma_control(control: ControlView)
    ensures
        control_from(Some(control_tree(control))) == (if control.valid() {
            Some(control)
        } else {
            None
        }),
        writable(control_tree(control), 3),
{
    reveal_strlit("type");
    assert("type"@.len() == 4);
    reveal_strlit("server");
    assert("server"@.len() == 6);
    reveal_strlit("closed");
    assert("closed"@.len() == 6);
    reveal_strlit("message");
    assert("message"@.len() == 7);
    reveal_strlit("reason");
    assert("reason"@.len() == 6);
    let names = control_names();
    assert(names[0][0] != names[1][0]);
    lemma_place(names, 0);
    lemma_place(names, 1);
    let members = control_tree(control)->Object_0;
    match control {
        ControlView::Server { message } => {
            lemma_object_fields(members, true, seq!["message"@], 1);
            lemma_message(message);
        },
        ControlView::Closed { reason } => {
            lemma_object_fields(members, true, seq!["reason"@], 1);
            lemma_reason(reason);
        },
    }
    lemma_writable_object(members, 2);
}

pub proof fn lemma_frame_names()
    ensures
        texts_distinct(frame_names()),
{
    reveal_strlit("registerSession");
    assert("registerSession"@.len() == 15);
    reveal_strlit("attachBrowser");
    assert("attachBrowser"@.len() == 13);
    reveal_strlit("detachBrowser");
    assert("detachBrowser"@.len() == 13);
    reveal_strlit("browserInput");
    assert("browserInput"@.len() == 12);
    reveal_strlit("browserResize");
    assert("browserResize"@.len() == 13);
    reveal_strlit("ptyOutput");
    assert("ptyOutput"@.len() == 9);
    reveal_strlit("runtimeControl");
    assert("runtimeControl"@.len() == 14);
    reveal_strlit("heartbeat");
    assert("heartbeat"@.len() == 9);
    assert("attachBrowser"@[0] != "detachBrowser"@[0]);
    assert("attachBrowser"@[0] != "browserResize"@[0]);
    assert("detachBrowser"@[0] != "browserResize"@[0]);
    assert("ptyOutput"@[0] != "heartbeat"@[0]);
}

/// The place of the variant of a frame.
pub open spec fn frame_variant(frame: FrameView) -> int {
    match frame {
        FrameView::RegisterSession { .. } => 0,
        FrameView::AttachBrowser { .. } => 1,
        FrameView::DetachBrowser { .. } => 2,
        FrameView::BrowserInput { .. } => 3,
        FrameView::BrowserResize { .. } => 4,
        FrameView::PtyOutput { .. } => 5,
        FrameView::RuntimeControl { .. } => 6,
        FrameView::Heartbeat { .. } => 7,
    }
}

pub proof fn lemma_frame_fields(variant: int)
    ensures
        texts_distinct(frame_fields(variant)),
        forall|k: int|
            0 <= k < frame_fields(variant).len() ==> (#[trigger] frame_fields(variant)[k])
                != "type"@,
{
    reveal_strlit("type");
    assert("type"@.len() == 4);
    reveal_strlit("session");
    assert("session"@.len() == 7);
    reveal_strlit("commandDisplay");
    assert("commandDisplay"@.len() == 14);
    reveal_strlit("size");
    assert("size"@.len() == 4);
    reveal_strlit("clientId");
    assert("clientId"@.len() == 8);
    reveal_strlit("bytes");
    assert("bytes"@.len() == 5);
    reveal_strlit("control");
    assert("control"@.len() == 7);
    reveal_strlit("sequence");
    assert("sequence"@.len() == 8);
    assert("size"@[0] != "type"@[0]);
}

proof fn lemma_frame(frame: FrameView)
    ensures
        frame_from(frame_tree(frame)) == (if frame.valid() {
            Some(frame)
        } else {
            None
        }),
        writable(frame_tree(frame), 4),
{
    let variant = frame_variant(frame);
    let members = frame_tree(frame)->Object_0;
    let names = frame_fields(variant);
    lemma_frame_names();
    lemma_place(frame_names(), variant);
    lemma_frame_fields(variant);
    assert(members[0] == tag_member(frame_names()[variant]));
    assert forall|k: int| 0 <= k < names.len() implies (#[trigger] members[1 + k]).0
        == names[k] by {}
    lemma_object_fields(members, true, names, 1);
    match frame {
        FrameView::RegisterSession { session, command_display, size } => {
            lemma_size(size);
        },
        FrameView::BrowserInput { client_id, bytes } => {
            lemma_bytes(bytes);
        },
        FrameView::BrowserResize { client_id, size } => {
            lemma_size(size);
        },
        FrameView::PtyOutput { bytes } => {
            lemma_bytes(bytes);
        },
        FrameView::RuntimeControl { client_id, control } => {
            lemma_control(control);
        },
        _ => {},
    }
    lemma_writable_object(members, 3);
}

/// A frame is read back from its tree: nothing that it carries is lost or changed. The
/// tree of anything that breaks a bound of the protocol is refused.
pub proof fn lemma_frame_round_trip(frame: FrameView)
    ensures
        frame_from(frame_tree(frame)) == (if frame.valid() {
            Some(frame)
        } else {
            None
        }),
{
    lemma_frame(frame);
}

/// The tree of a frame can be written as a text: its numbers are natural, no object in
/// it repeats a name, and it is not nested too deep.
pub proof fn lemma_frame_can_be_written(frame: FrameView)
    ensures
        is_plain(frame_tree(frame)),
        nested_within(frame_tree(frame), JSON_NESTING_MAX as nat),
{
    lemma_frame(frame);
}

} // verus!
