//! Which JSON values are read as which frames, stated of the members of objects, whatever
//! their order, and of the items of arrays.
use crate::codec::JsonTunnelCodec;
use crate::json::{member_count, names_distinct, separator_count, text_tree, Json, JsonTree};
use crate::members::{
    fields_of, holds_only, member_named, occurrences, place_of, tag_of, unit_variant_of, variant_of,
};
use crate::protocol::{is_session_char, is_session_name, LeaseOwner, MessageView, SizeView};
use crate::round_trip::{
    lemma_absent, lemma_frame_fields, lemma_frame_names, lemma_message_names, lemma_object_fields,
    lemma_place, lemma_present, lemma_reason_names, texts_distinct,
};
use crate::tunnel::{
    ControlView, FrameView, ReasonView, TunnelCodec, TunnelError, TunnelFrame, TunnelPayload,
};
use crate::verdict::{
    lemma_alone, lemma_counted_is_found, lemma_occurs_somewhere,
    lemma_place_names,
};
use crate::wire::{
    bytes_from, control_from, control_names, frame_fields, frame_from, frame_names, is_byte,
    message_from, message_names, owner_from, owner_names, reason_fields, reason_from, reason_names, size_from,
};
use vstd::prelude::*;
use vstd::utf8::*;

verus! {

/// Whether an object holds no name twice, and no other names than those listed.
pub open spec fn only(members: Seq<(Seq<char>, JsonTree)>, names: Seq<Seq<char>>) -> bool {
    &&& forall|i: int, j: int|
        0 <= i < j < members.len() ==> (#[trigger] members[i]).0 != (#[trigger] members[j]).0
    &&& forall|i: int| 0 <= i < members.len() ==> names.contains((#[trigger] members[i]).0)
}

/// Whether an array holds the numbers of some bytes, item `i` that of byte `i`.
pub open spec fn lists_bytes(tree: JsonTree, bytes: Seq<u8>) -> bool {
    &&& tree matches JsonTree::Array(items)
    &&& items.len() == bytes.len()
    &&& forall|i: int|
        0 <= i < items.len() ==> #[trigger] items[i] == JsonTree::Number(bytes[i] as u64)
}

/// Whether a value names a variant that holds nothing: by its name, or by an object whose
/// one member has that name and is null or empty.
pub open spec fn names_unit(tree: JsonTree, name: Seq<char>) -> bool {
    ||| tree == JsonTree::Text(name)
    ||| tree == JsonTree::Object(seq![(name, JsonTree::Null)])
    ||| tree == JsonTree::Object(seq![(name, JsonTree::Object(Seq::empty()))])
}

proof fn lemma_found_is_held(members: Seq<(Seq<char>, JsonTree)>, name: Seq<char>)
    requires
        names_distinct(members),
    ensures
        occurrences(members, name) <= 1,
        forall|value: JsonTree|
            #![trigger members.contains((name, value))]
            member_named(members, name) == Some(value) <==> members.contains((name, value)),
        member_named(members, name) is None <==> forall|i: int|
            0 <= i < members.len() ==> (#[trigger] members[i]).0 != name,
{
    if exists|i: int| 0 <= i < members.len() && (#[trigger] members[i]).0 == name {
        let i = choose|i: int| 0 <= i < members.len() && (#[trigger] members[i]).0 == name;
        lemma_present(members, i);
        assert forall|value: JsonTree| #![trigger members.contains((name, value))]
            member_named(members, name) == Some(value) <==> members.contains((name, value)) by {
            if members.contains((name, value)) {
                let j = members.index_of((name, value));
                lemma_present(members, j);
            } else if members[i].1 == value {
                assert(members[i] == (name, value));
            }
        }
    } else {
        lemma_absent(members, name);
        assert forall|value: JsonTree| #![trigger members.contains((name, value))]
            member_named(members, name) == Some(value) <==> members.contains((name, value)) by {
            if members.contains((name, value)) {
                let j = members.index_of((name, value));
                assert(members[j].0 == name);
            }
        }
    }
}

/// The names that may stand in an object: the fields, and the tag where there is one.
spec fn expected(tagged: bool, names: Seq<Seq<char>>) -> Seq<Seq<char>> {
    if tagged {
        names.push("type"@)
    } else {
        names
    }
}

proof fn lemma_object(members: Seq<(Seq<char>, JsonTree)>, tagged: bool, names: Seq<Seq<char>>)
    requires
        texts_distinct(names),
    ensures
        only(members, expected(tagged, names)) <==> holds_only(members, tagged, names) && (tagged
            ==> occurrences(members, "type"@) <= 1),
{
    let known = expected(tagged, names);
    if only(members, known) {
        assert(names_distinct(members));
        lemma_found_is_held(members, "type"@);
        assert forall|k: int| 0 <= k < names.len() implies occurrences(members, #[trigger] names[k])
            <= 1 by {
            lemma_found_is_held(members, names[k]);
        }
        assert forall|i: int| 0 <= i < members.len() implies (tagged && (#[trigger] members[i]).0
            == "type"@) || place_of(names, members[i].0) is Some by {
            let name = members[i].0;
            assert(known.contains(name));
            let k = known.index_of(name);
            if k < names.len() {
                assert(names[k] == name);
                lemma_place(names, k);
            }
        }
    }
    if holds_only(members, tagged, names) && (tagged ==> occurrences(members, "type"@) <= 1) {
        assert forall|i: int| 0 <= i < members.len() implies occurrences(
            members,
            (#[trigger] members[i]).0,
        ) <= 1 && known.contains(members[i].0) by {
            let name = members[i].0;
            if tagged && name == "type"@ {
                assert(known[names.len() as int] == name);
            } else {
                lemma_place_names(names, name);
                let k = place_of(names, name)->0;
                assert(names[k] == name);
                assert(known[k] == name);
            }
        }
        assert forall|i: int, j: int| 0 <= i < j < members.len() implies (#[trigger] members[i]).0
            != (#[trigger] members[j]).0 by {
            if members[i].0 == members[j].0 {
                lemma_alone(members, j);
                assert(members.take(j)[i] == members[i]);
                lemma_occurs_somewhere(members.take(j), i);
            }
        }
    }
}

proof fn lemma_variant(tag: JsonTree, names: Seq<Seq<char>>, indexed: bool, k: int)
    requires
        texts_distinct(names),
        0 <= k < names.len() <= 8,
    ensures
        variant_of(tag, names, indexed) == Some(k) <==> (tag == JsonTree::Text(names[k]) || (indexed
            && tag == JsonTree::Number(k as u64))),
{
    lemma_place(names, k);
    if let JsonTree::Text(name) = tag {
        lemma_place_names(names, name);
    }
}

proof fn lemma_unit(tree: JsonTree, names: Seq<Seq<char>>, k: int)
    requires
        texts_distinct(names),
        0 <= k < names.len(),
    ensures
        unit_variant_of(tree, names) == Some(k) <==> names_unit(tree, names[k]),
{
    lemma_place(names, k);
    match tree {
        JsonTree::Text(name) => {
            lemma_place_names(names, name);
        },
        JsonTree::Object(members) => {
            if members.len() == 1 {
                lemma_place_names(names, members[0].0);
                if members[0].1 is Null {
                    assert(members =~= seq![(members[0].0, JsonTree::Null)]);
                } else if members[0].1 == JsonTree::Object(Seq::empty()) {
                    assert(members =~= seq![(members[0].0, JsonTree::Object(Seq::empty()))]);
                }
            }
            assert(seq![(names[k], JsonTree::Null)][0] == (names[k], JsonTree::Null));
            assert(seq![(names[k], JsonTree::Object(Seq::empty()))][0] == (
                names[k],
                JsonTree::Object(Seq::empty()),
            ));
        },
        _ => {},
    }
}

/// A tagged object that holds its fields alone is read by its tag and its fields.
proof fn lemma_tagged(
    members: Seq<(Seq<char>, JsonTree)>,
    names: Seq<Seq<char>>,
    variants: Seq<Seq<char>>,
    indexed: bool,
    k: int,
)
    requires
        texts_distinct(names),
        texts_distinct(variants),
        0 <= k < variants.len() <= 8,
    ensures
        (tag_of(JsonTree::Object(members)) matches Some(tag) && variant_of(tag, variants, indexed)
            == Some(k) && fields_of(JsonTree::Object(members), true, names) is Some) <==> (only(
            members,
            names.push("type"@),
        ) && (members.contains(("type"@, JsonTree::Text(variants[k]))) || (indexed
            && members.contains(("type"@, JsonTree::Number(k as u64)))))),
        fields_of(JsonTree::Object(members), true, names) matches Some(fields) ==> fields.len()
            == names.len() && forall|i: int|
            0 <= i < names.len() ==> #[trigger] fields[i] == member_named(members, names[i]),
{
    lemma_object(members, true, names);
    lemma_counted_is_found(members, "type"@);
    if only(members, names.push("type"@)) {
        assert(names_distinct(members));
        lemma_found_is_held(members, "type"@);
        if let Some(tag) = member_named(members, "type"@) {
            assert(members.contains(("type"@, tag)));
            lemma_variant(tag, variants, indexed, k);
        }
        assert(member_named(members, "type"@) == Some(JsonTree::Text(variants[k]))
            <==> members.contains(("type"@, JsonTree::Text(variants[k]))));
        assert(member_named(members, "type"@) == Some(JsonTree::Number(k as u64))
            <==> members.contains(("type"@, JsonTree::Number(k as u64))));
        lemma_variant(JsonTree::Text(variants[k]), variants, indexed, k);
        lemma_variant(JsonTree::Number(k as u64), variants, indexed, k);
    }
}

/// What the fields of a frame say is read where the object holds them alone.
proof fn lemma_frame_object(members: Seq<(Seq<char>, JsonTree)>, k: int)
    requires
        0 <= k < 8,
    ensures
        (tag_of(JsonTree::Object(members)) matches Some(tag) && variant_of(
            tag,
            frame_names(),
            false,
        ) == Some(k) && fields_of(JsonTree::Object(members), true, frame_fields(k)) is Some) <==> (
        only(members, frame_fields(k).push("type"@)) && members.contains(
            ("type"@, JsonTree::Text(frame_names()[k])),
        )),
        only(members, frame_fields(k).push("type"@)) ==> forall|i: int, value: JsonTree|
            #![trigger members.contains((frame_fields(k)[i], value))]
            0 <= i < frame_fields(k).len() ==> (member_named(members, frame_fields(k)[i]) == Some(
                value,
            ) <==> members.contains((frame_fields(k)[i], value))),
        fields_of(JsonTree::Object(members), true, frame_fields(k)) matches Some(fields)
            ==> fields.len() == frame_fields(k).len() && forall|i: int|
            0 <= i < fields.len() ==> #[trigger] fields[i] == member_named(
                members,
                frame_fields(k)[i],
            ),
        tag_of(JsonTree::Object(members)) matches Some(tag) ==> (variant_of(
            tag,
            frame_names(),
            false,
        ) matches Some(variant) ==> 0 <= variant < 8),
{
    if let Some(JsonTree::Text(name)) = tag_of(JsonTree::Object(members)) {
        lemma_place_names(frame_names(), name);
    }
    lemma_frame_names();
    lemma_frame_fields(k);
    lemma_tagged(members, frame_fields(k), frame_names(), false, k);
    if only(members, frame_fields(k).push("type"@)) {
        assert(names_distinct(members));
        assert forall|i: int, value: JsonTree|
            #![trigger members.contains((frame_fields(k)[i], value))]
            0 <= i < frame_fields(k).len() implies (member_named(members, frame_fields(k)[i])
            == Some(value) <==> members.contains((frame_fields(k)[i], value))) by {
            lemma_found_is_held(members, frame_fields(k)[i]);
        }
    }
}

proof fn lemma_bytes_read(tree: JsonTree, bytes: Seq<u8>)
    ensures
        bytes_from(Some(tree)) == Some(bytes) <==> lists_bytes(tree, bytes) && bytes.len() <= 65536,
{
    if let JsonTree::Array(items) = tree {
        if bytes_from(Some(tree)) == Some(bytes) {
            assert forall|i: int| 0 <= i < items.len() implies #[trigger] items[i]
                == JsonTree::Number(bytes[i] as u64) by {
                assert(is_byte(items[i]));
            }
        } else if lists_bytes(tree, bytes) && bytes.len() <= 65536 {
            assert forall|i: int| 0 <= i < items.len() implies is_byte(#[trigger] items[i]) by {
                assert(items[i] == JsonTree::Number(bytes[i] as u64));
            }
            let read = Seq::new(items.len(), |i: int| items[i]->Number_0 as u8);
            assert(bytes_from(Some(tree)) == Some(read));
            assert forall|i: int| 0 <= i < items.len() implies read[i] == bytes[i] by {
                assert(items[i] == JsonTree::Number(bytes[i] as u64));
            }
            assert(read =~= bytes);
        }
    }
}

/// An object announces a session exactly where it holds the tag, a session name, a
/// command of at most 256 bytes and a size, and nothing else.
pub proof fn law_register_frames_are_read(
    members: Seq<(Seq<char>, JsonTree)>,
    session: Seq<char>,
    command_display: Seq<char>,
    size: SizeView,
)
    ensures
        frame_from(JsonTree::Object(members)) == Some(FrameView::RegisterSession { session, command_display, size }) <==> (only(members, seq!["session"@, "commandDisplay"@, "size"@, "type"@])
            && members.contains(("type"@, JsonTree::Text("registerSession"@)))
            && members.contains(("session"@, JsonTree::Text(session)))
            && 1 <= session.len() <= 64 && (forall|i: int|
            0 <= i < session.len() ==> ('A' <= #[trigger] session[i] <= 'Z' || 'a' <= session[i]
                <= 'z' || '0' <= session[i] <= '9' || session[i] == '_' || session[i] == '.'
                || session[i] == '-'))
            && members.contains(("commandDisplay"@, JsonTree::Text(command_display)))
            && encode_utf8(command_display).len() <= 256
            && (exists|value: JsonTree| #[trigger] members.contains(("size"@, value)) && size_from(Some(value)) == Some(size))),
{
    lemma_frame_object(members, 0);
    assert(is_session_name(session) <==> 1 <= session.len() <= 64 && forall|i: int|
        0 <= i < session.len() ==> is_session_char(#[trigger] session[i]));
    assert(frame_fields(0).push("type"@) =~= seq!["session"@, "commandDisplay"@, "size"@, "type"@]);
    if only(members, seq!["session"@, "commandDisplay"@, "size"@, "type"@]) {
        assert(frame_fields(0)[0] == "session"@);
        if let Some(value) = member_named(members, "session"@) {
            assert(members.contains((frame_fields(0)[0], value)));
        }
        assert(frame_fields(0)[1] == "commandDisplay"@);
        if let Some(value) = member_named(members, "commandDisplay"@) {
            assert(members.contains((frame_fields(0)[1], value)));
        }
        assert(frame_fields(0)[2] == "size"@);
        if let Some(value) = member_named(members, "size"@) {
            assert(members.contains((frame_fields(0)[2], value)));
        }
        assert(members.contains((frame_fields(0)[0], JsonTree::Text(session))) == members.contains(("session"@, JsonTree::Text(session))));
        assert(members.contains((frame_fields(0)[1], JsonTree::Text(command_display))) == members.contains(("commandDisplay"@, JsonTree::Text(command_display))));
    }
}

/// An object is an attach frame exactly where it holds the tag and the number of the client,
/// and nothing else.
pub proof fn law_attach_frames_are_read(
    members: Seq<(Seq<char>, JsonTree)>,
    client_id: u64,
)
    ensures
        frame_from(JsonTree::Object(members)) == Some(FrameView::AttachBrowser { client_id }) <==> (only(members, seq!["clientId"@, "type"@])
            && members.contains(("type"@, JsonTree::Text("attachBrowser"@)))
            && members.contains(("clientId"@, JsonTree::Number(client_id)))),
{
    lemma_frame_object(members, 1);
    assert(frame_fields(1).push("type"@) =~= seq!["clientId"@, "type"@]);
    if only(members, seq!["clientId"@, "type"@]) {
        assert(frame_fields(1)[0] == "clientId"@);
        if let Some(value) = member_named(members, "clientId"@) {
            assert(members.contains((frame_fields(1)[0], value)));
        }
        assert(members.contains((frame_fields(1)[0], JsonTree::Number(client_id))) == members.contains(("clientId"@, JsonTree::Number(client_id))));
    }
}

/// An object is a detach frame exactly where it holds the tag and the number of the client,
/// and nothing else.
pub proof fn law_detach_frames_are_read(
    members: Seq<(Seq<char>, JsonTree)>,
    client_id: u64,
)
    ensures
        frame_from(JsonTree::Object(members)) == Some(FrameView::DetachBrowser { client_id }) <==> (only(members, seq!["clientId"@, "type"@])
            && members.contains(("type"@, JsonTree::Text("detachBrowser"@)))
            && members.contains(("clientId"@, JsonTree::Number(client_id)))),
{
    lemma_frame_object(members, 2);
    assert(frame_fields(2).push("type"@) =~= seq!["clientId"@, "type"@]);
    if only(members, seq!["clientId"@, "type"@]) {
        assert(frame_fields(2)[0] == "clientId"@);
        if let Some(value) = member_named(members, "clientId"@) {
            assert(members.contains((frame_fields(2)[0], value)));
        }
        assert(members.contains((frame_fields(2)[0], JsonTree::Number(client_id))) == members.contains(("clientId"@, JsonTree::Number(client_id))));
    }
}

/// An object is an input frame exactly where it holds the tag, the number of the client and
/// an array of at most 65536 numbers of bytes, and nothing else: byte `i` of the frame is
/// item `i` of the array.
pub proof fn law_input_frames_are_read(
    members: Seq<(Seq<char>, JsonTree)>,
    client_id: u64,
    bytes: Seq<u8>,
)
    ensures
        frame_from(JsonTree::Object(members)) == Some(FrameView::BrowserInput { client_id, bytes }) <==> (only(members, seq!["clientId"@, "bytes"@, "type"@])
            && members.contains(("type"@, JsonTree::Text("browserInput"@)))
            && members.contains(("clientId"@, JsonTree::Number(client_id)))
            && bytes.len() <= 65536 && (exists|value: JsonTree| #[trigger] members.contains(("bytes"@, value)) && lists_bytes(value, bytes))),
{
    lemma_frame_object(members, 3);
    assert(frame_fields(3).push("type"@) =~= seq!["clientId"@, "bytes"@, "type"@]);
    if only(members, seq!["clientId"@, "bytes"@, "type"@]) {
        assert(frame_fields(3)[0] == "clientId"@);
        if let Some(value) = member_named(members, "clientId"@) {
            assert(members.contains((frame_fields(3)[0], value)));
        }
        assert(frame_fields(3)[1] == "bytes"@);
        if let Some(value) = member_named(members, "bytes"@) {
            assert(members.contains((frame_fields(3)[1], value)));
        }
        assert(members.contains((frame_fields(3)[0], JsonTree::Number(client_id))) == members.contains(("clientId"@, JsonTree::Number(client_id))));
        if let Some(value) = member_named(members, "bytes"@) {
            lemma_bytes_read(value, bytes);
        }
        if exists|value: JsonTree|
            #[trigger] members.contains(("bytes"@, value)) && lists_bytes(value, bytes) {
            let value = choose|value: JsonTree|
                #[trigger] members.contains(("bytes"@, value)) && lists_bytes(value, bytes);
            lemma_bytes_read(value, bytes);
        }
    }
}

/// An object is a resize frame exactly where it holds the tag, the number of the client and
/// a size, and nothing else.
pub proof fn law_resize_frames_are_read(
    members: Seq<(Seq<char>, JsonTree)>,
    client_id: u64,
    size: SizeView,
)
    ensures
        frame_from(JsonTree::Object(members)) == Some(FrameView::BrowserResize { client_id, size }) <==> (only(members, seq!["clientId"@, "size"@, "type"@])
            && members.contains(("type"@, JsonTree::Text("browserResize"@)))
            && members.contains(("clientId"@, JsonTree::Number(client_id)))
            && (exists|value: JsonTree| #[trigger] members.contains(("size"@, value)) && size_from(Some(value)) == Some(size))),
{
    lemma_frame_object(members, 4);
    assert(frame_fields(4).push("type"@) =~= seq!["clientId"@, "size"@, "type"@]);
    if only(members, seq!["clientId"@, "size"@, "type"@]) {
        assert(frame_fields(4)[0] == "clientId"@);
        if let Some(value) = member_named(members, "clientId"@) {
            assert(members.contains((frame_fields(4)[0], value)));
        }
        assert(frame_fields(4)[1] == "size"@);
        if let Some(value) = member_named(members, "size"@) {
            assert(members.contains((frame_fields(4)[1], value)));
        }
        assert(members.contains((frame_fields(4)[0], JsonTree::Number(client_id))) == members.contains(("clientId"@, JsonTree::Number(client_id))));
    }
}

/// An object is an output frame exactly where it holds the tag and an array of at most
/// 65536 numbers of bytes, and nothing else: byte `i` of the frame is item `i` of the
/// array.
pub proof fn law_output_frames_are_read(
    members: Seq<(Seq<char>, JsonTree)>,
    bytes: Seq<u8>,
)
    ensures
        frame_from(JsonTree::Object(members)) == Some(FrameView::PtyOutput { bytes }) <==> (only(members, seq!["bytes"@, "type"@])
            && members.contains(("type"@, JsonTree::Text("ptyOutput"@)))
            && bytes.len() <= 65536 && (exists|value: JsonTree| #[trigger] members.contains(("bytes"@, value)) && lists_bytes(value, bytes))),
{
    lemma_frame_object(members, 5);
    assert(frame_fields(5).push("type"@) =~= seq!["bytes"@, "type"@]);
    if only(members, seq!["bytes"@, "type"@]) {
        assert(frame_fields(5)[0] == "bytes"@);
        if let Some(value) = member_named(members, "bytes"@) {
            assert(members.contains((frame_fields(5)[0], value)));
        }
        if let Some(value) = member_named(members, "bytes"@) {
            lemma_bytes_read(value, bytes);
        }
        if exists|value: JsonTree|
            #[trigger] members.contains(("bytes"@, value)) && lists_bytes(value, bytes) {
            let value = choose|value: JsonTree|
                #[trigger] members.contains(("bytes"@, value)) && lists_bytes(value, bytes);
            lemma_bytes_read(value, bytes);
        }
    }
}

/// An object is a runtime control frame exactly where it holds the tag, a control and the
/// number of the client, null or no client at all, and nothing else.
pub proof fn law_control_frames_are_read(
    members: Seq<(Seq<char>, JsonTree)>,
    client_id: Option<u64>,
    control: ControlView,
)
    ensures
        frame_from(JsonTree::Object(members)) == Some(FrameView::RuntimeControl { client_id, control }) <==> (only(members, seq!["clientId"@, "control"@, "type"@])
            && members.contains(("type"@, JsonTree::Text("runtimeControl"@)))
            && (client_id matches Some(number) ==> members.contains(
            ("clientId"@, JsonTree::Number(number)),
        )) && (client_id is None ==> members.contains(("clientId"@, JsonTree::Null)) || forall|
            i: int,
        |
            0 <= i < members.len() ==> (#[trigger] members[i]).0 != "clientId"@)
            && (exists|value: JsonTree| #[trigger] members.contains(("control"@, value)) && control_from(Some(value)) == Some(control))),
{
    lemma_frame_object(members, 6);
    assert(frame_fields(6).push("type"@) =~= seq!["clientId"@, "control"@, "type"@]);
    if only(members, seq!["clientId"@, "control"@, "type"@]) {
        assert(frame_fields(6)[0] == "clientId"@);
        if let Some(value) = member_named(members, "clientId"@) {
            assert(members.contains((frame_fields(6)[0], value)));
        }
        assert(frame_fields(6)[1] == "control"@);
        if let Some(value) = member_named(members, "control"@) {
            assert(members.contains((frame_fields(6)[1], value)));
        }
        if only(members, frame_fields(6).push("type"@)) {
            assert(names_distinct(members));
            lemma_found_is_held(members, "clientId"@);
            if let Some(number) = client_id {
                assert(members.contains(("clientId"@, JsonTree::Number(number))) <==> member_named(
                    members,
                    "clientId"@,
                ) == Some(JsonTree::Number(number)));
            }
            assert(members.contains(("clientId"@, JsonTree::Null)) <==> member_named(
                members,
                "clientId"@,
            ) == Some(JsonTree::Null));
        }
    }
}

/// An object is a heartbeat exactly where it holds the tag and its number, and nothing
/// else.
pub proof fn law_heartbeat_frames_are_read(
    members: Seq<(Seq<char>, JsonTree)>,
    sequence: u64,
)
    ensures
        frame_from(JsonTree::Object(members)) == Some(FrameView::Heartbeat { sequence }) <==> (only(members, seq!["sequence"@, "type"@])
            && members.contains(("type"@, JsonTree::Text("heartbeat"@)))
            && members.contains(("sequence"@, JsonTree::Number(sequence)))),
{
    lemma_frame_object(members, 7);
    assert(frame_fields(7).push("type"@) =~= seq!["sequence"@, "type"@]);
    if only(members, seq!["sequence"@, "type"@]) {
        assert(frame_fields(7)[0] == "sequence"@);
        if let Some(value) = member_named(members, "sequence"@) {
            assert(members.contains((frame_fields(7)[0], value)));
        }
        assert(members.contains((frame_fields(7)[0], JsonTree::Number(sequence))) == members.contains(("sequence"@, JsonTree::Number(sequence))));
    }
}

/// An object is a size exactly where it holds the columns under `cols` and the rows under
/// `rows`, both above zero, and nothing else.
pub proof fn law_size_objects_are_read(members: Seq<(Seq<char>, JsonTree)>, cols: u16, rows: u16)
    ensures
        size_from(Some(JsonTree::Object(members))) == Some((SizeView { cols, rows })) <==> (only(
            members,
            seq!["cols"@, "rows"@],
        ) && members.contains(("cols"@, JsonTree::Number(cols as u64))) && members.contains(
            ("rows"@, JsonTree::Number(rows as u64)),
        ) && cols > 0 && rows > 0),
{
    reveal_strlit("cols");
    reveal_strlit("rows");
    let names = seq!["cols"@, "rows"@];
    assert(names[0][0] != names[1][0]);
    lemma_object(members, false, names);
    assert(expected(false, names) == names);
    if only(members, names) {
        assert(names_distinct(members));
        lemma_found_is_held(members, "cols"@);
        lemma_found_is_held(members, "rows"@);
        let wide = JsonTree::Number(cols as u64);
        let high = JsonTree::Number(rows as u64);
        assert(members.contains(("cols"@, wide)) <==> member_named(members, "cols"@) == Some(wide));
        assert(members.contains(("rows"@, high)) <==> member_named(members, "rows"@) == Some(high));
    }
}

/// An array is a size exactly where it holds the columns and then the rows, both above
/// zero. Nothing but objects and arrays is a size.
pub proof fn law_size_arrays_are_read(tree: JsonTree, cols: u16, rows: u16)
    ensures
        tree is Array ==> (size_from(Some(tree)) == Some((SizeView { cols, rows })) <==> (tree
            == JsonTree::Array(
            seq![JsonTree::Number(cols as u64), JsonTree::Number(rows as u64)],
        ) && cols > 0 && rows > 0)),
        !(tree is Array) && !(tree is Object) ==> size_from(Some(tree)) is None,
        size_from(None) is None,
{
    if let JsonTree::Array(items) = tree {
        let wanted = seq![JsonTree::Number(cols as u64), JsonTree::Number(rows as u64)];
        if size_from(Some(tree)) == Some((SizeView { cols, rows })) {
            assert(items =~= wanted);
        }
        assert(wanted[0] == JsonTree::Number(cols as u64));
        assert(wanted[1] == JsonTree::Number(rows as u64));
    }
}

proof fn lemma_owner_names()
    ensures
        texts_distinct(owner_names()),
{
    reveal_strlit("local");
    reveal_strlit("browser");
    assert("local"@.len() == 5 && "browser"@.len() == 7);
}

/// A value is a lease owner exactly where it names it.
pub proof fn law_owners_are_read(tree: JsonTree)
    ensures
        owner_from(Some(tree)) == Some(LeaseOwner::Local) <==> names_unit(tree, "local"@),
        owner_from(Some(tree)) == Some(LeaseOwner::Browser) <==> names_unit(tree, "browser"@),
        owner_from(None) is None,
{
    lemma_owner_names();
    lemma_unit(tree, owner_names(), 0);
    lemma_unit(tree, owner_names(), 1);
    match tree {
        JsonTree::Text(name) => lemma_place_names(owner_names(), name),
        JsonTree::Object(members) => {
            if members.len() == 1 {
                lemma_place_names(owner_names(), members[0].0);
            }
        },
        _ => {},
    }
}

proof fn lemma_control_names()
    ensures
        texts_distinct(control_names()),
{
    reveal_strlit("server");
    reveal_strlit("closed");
    assert("server"@[0] != "closed"@[0]);
}

/// A tag holds the name of a variant or its place.
proof fn lemma_variant_bound(tree: JsonTree, names: Seq<Seq<char>>)
    ensures
        tag_of(tree) matches Some(tag) ==> (variant_of(tag, names, true) matches Some(variant) ==> 0
            <= variant < names.len()),
{
    if let Some(JsonTree::Text(name)) = tag_of(tree) {
        lemma_place_names(names, name);
    }
}

/// An object is a control that carries a message exactly where it holds the tag and the
/// message, and nothing else.
pub proof fn law_server_controls_are_read(
    members: Seq<(Seq<char>, JsonTree)>,
    message: MessageView,
)
    ensures
        control_from(Some(JsonTree::Object(members))) == Some((ControlView::Server { message }))
            <==> (only(members, seq!["message"@, "type"@]) && (members.contains(
            ("type"@, JsonTree::Text("server"@)),
        ) || members.contains(("type"@, JsonTree::Number(0)))) && exists|value: JsonTree|
            #[trigger]
            members.contains(("message"@, value)) && message_from(Some(value)) == Some(message)),
{
    lemma_control_names();
    lemma_variant_bound(JsonTree::Object(members), control_names());
    let names = seq!["message"@];
    lemma_tagged(members, names, control_names(), true, 0);
    assert(names.push("type"@) =~= seq!["message"@, "type"@]);
    if only(members, seq!["message"@, "type"@]) {
        assert(names_distinct(members));
        lemma_found_is_held(members, "message"@);
        if let Some(value) = member_named(members, "message"@) {
            assert(members.contains(("message"@, value)));
        }
    }
}

/// An object is a control that closes the stream exactly where it holds the tag and the
/// reason, and nothing else.
pub proof fn law_closed_controls_are_read(members: Seq<(Seq<char>, JsonTree)>, reason: ReasonView)
    ensures
        control_from(Some(JsonTree::Object(members))) == Some((ControlView::Closed { reason }))
            <==> (only(members, seq!["reason"@, "type"@]) && (members.contains(
            ("type"@, JsonTree::Text("closed"@)),
        ) || members.contains(("type"@, JsonTree::Number(1)))) && exists|value: JsonTree|
            #[trigger]
            members.contains(("reason"@, value)) && reason_from(Some(value)) == Some(reason)),
{
    lemma_control_names();
    lemma_variant_bound(JsonTree::Object(members), control_names());
    let names = seq!["reason"@];
    lemma_tagged(members, names, control_names(), true, 1);
    assert(names.push("type"@) =~= seq!["reason"@, "type"@]);
    if only(members, seq!["reason"@, "type"@]) {
        assert(names_distinct(members));
        lemma_found_is_held(members, "reason"@);
        if let Some(value) = member_named(members, "reason"@) {
            assert(members.contains(("reason"@, value)));
        }
    }
}

/// Whether an object holds the tag of a control message, by its name or by its place.
pub open spec fn tagged_as(
    members: Seq<(Seq<char>, JsonTree)>,
    name: Seq<char>,
    place: u64,
) -> bool {
    ||| members.contains(("type"@, JsonTree::Text(name)))
    ||| members.contains(("type"@, JsonTree::Number(place)))
}

/// An object is a control message without parts exactly where it holds the tag alone.
pub proof fn law_bare_messages_are_read(members: Seq<(Seq<char>, JsonTree)>)
    ensures
        message_from(Some(JsonTree::Object(members))) == Some(MessageView::Ready) <==> (only(
            members,
            seq!["type"@],
        ) && tagged_as(members, "ready"@, 0)),
        message_from(Some(JsonTree::Object(members))) == Some(MessageView::ProcessExited) <==> (
        only(members, seq!["type"@]) && tagged_as(members, "processExited"@, 3)),
{
    lemma_message_names();
    lemma_variant_bound(JsonTree::Object(members), message_names());
    let names: Seq<Seq<char>> = seq![];
    lemma_tagged(members, names, message_names(), true, 0);
    lemma_tagged(members, names, message_names(), true, 3);
    assert(names.push("type"@) =~= seq!["type"@]);
}

/// An object says that the lease changed exactly where it holds the tag, the owner and the
/// number of the lease, and nothing else.
pub proof fn law_lease_messages_are_read(
    members: Seq<(Seq<char>, JsonTree)>,
    owner: LeaseOwner,
    epoch: u64,
)
    ensures
        message_from(Some(JsonTree::Object(members))) == Some(
            (MessageView::LeaseChanged { owner, epoch }),
        ) <==> (only(members, seq!["owner"@, "epoch"@, "type"@]) && tagged_as(
            members,
            "leaseChanged"@,
            1,
        ) && members.contains(("epoch"@, JsonTree::Number(epoch))) && exists|value: JsonTree|
            #[trigger]
            members.contains(("owner"@, value)) && owner_from(Some(value)) == Some(owner)),
{
    reveal_strlit("owner");
    reveal_strlit("epoch");
    lemma_message_names();
    lemma_variant_bound(JsonTree::Object(members), message_names());
    let names = seq!["owner"@, "epoch"@];
    assert(names[0][0] != names[1][0]);
    lemma_tagged(members, names, message_names(), true, 1);
    assert(names.push("type"@) =~= seq!["owner"@, "epoch"@, "type"@]);
    if only(members, seq!["owner"@, "epoch"@, "type"@]) {
        assert(names_distinct(members));
        lemma_found_is_held(members, "owner"@);
        lemma_found_is_held(members, "epoch"@);
        if let Some(value) = member_named(members, "owner"@) {
            assert(members.contains(("owner"@, value)));
        }
        assert(members.contains(("epoch"@, JsonTree::Number(epoch))) <==> member_named(
            members,
            "epoch"@,
        ) == Some(JsonTree::Number(epoch)));
    }
}

/// An object says that the size changed exactly where it holds the tag and the size, and
/// nothing else.
pub proof fn law_size_messages_are_read(members: Seq<(Seq<char>, JsonTree)>, size: SizeView)
    ensures
        message_from(Some(JsonTree::Object(members))) == Some((MessageView::SizeChanged { size }))
            <==> (only(members, seq!["size"@, "type"@]) && tagged_as(members, "sizeChanged"@, 2)
            && exists|value: JsonTree|
            #[trigger]
            members.contains(("size"@, value)) && size_from(Some(value)) == Some(size)),
{
    lemma_message_names();
    lemma_variant_bound(JsonTree::Object(members), message_names());
    let names = seq!["size"@];
    lemma_tagged(members, names, message_names(), true, 2);
    assert(names.push("type"@) =~= seq!["size"@, "type"@]);
    if only(members, seq!["size"@, "type"@]) {
        assert(names_distinct(members));
        lemma_found_is_held(members, "size"@);
        if let Some(value) = member_named(members, "size"@) {
            assert(members.contains(("size"@, value)));
        }
    }
}

/// An object is a warning or an error exactly where it holds the tag and a text of at most
/// 256 bytes, and nothing else.
pub proof fn law_text_messages_are_read(
    members: Seq<(Seq<char>, JsonTree)>,
    message: Seq<char>,
)
    ensures
        message_from(Some(JsonTree::Object(members))) == Some((MessageView::Warning { message }))
            <==> (only(members, seq!["message"@, "type"@]) && tagged_as(members, "warning"@, 4)
            && members.contains(("message"@, JsonTree::Text(message))) && encode_utf8(message).len()
            <= 256),
        message_from(Some(JsonTree::Object(members))) == Some((MessageView::Error { message }))
            <==> (only(members, seq!["message"@, "type"@]) && tagged_as(members, "error"@, 5)
            && members.contains(("message"@, JsonTree::Text(message))) && encode_utf8(message).len()
            <= 256),
{
    lemma_message_names();
    lemma_variant_bound(JsonTree::Object(members), message_names());
    let names = seq!["message"@];
    lemma_tagged(members, names, message_names(), true, 4);
    lemma_tagged(members, names, message_names(), true, 5);
    assert(names.push("type"@) =~= seq!["message"@, "type"@]);
    if only(members, seq!["message"@, "type"@]) {
        assert(names_distinct(members));
        lemma_found_is_held(members, "message"@);
        assert(members.contains(("message"@, JsonTree::Text(message))) <==> member_named(
            members,
            "message"@,
        ) == Some(JsonTree::Text(message)));
    }
}

/// Whether an object holds a reason by its name and nothing else but a null detail.
pub open spec fn holds_bare_reason(
    members: Seq<(Seq<char>, JsonTree)>,
    name: Seq<char>,
) -> bool {
    &&& only(members, seq!["reason"@, "detail"@])
    &&& exists|value: JsonTree| #[trigger]
        members.contains(("reason"@, value)) && names_unit(value, name)
    &&& members.contains(("detail"@, JsonTree::Null)) || forall|i: int|
        0 <= i < members.len() ==> (#[trigger] members[i]).0 != "detail"@
}

/// An object is a close reason exactly where it holds its name, with a text of at most 256
/// bytes where it is a failure and with nothing or null where it is not.
pub proof fn law_reason_objects_are_read(
    members: Seq<(Seq<char>, JsonTree)>,
    message: Seq<char>,
)
    ensures
        reason_from(Some(JsonTree::Object(members))) == Some(ReasonView::Supervisor)
            <==> holds_bare_reason(members, "supervisor"@),
        reason_from(Some(JsonTree::Object(members))) == Some(ReasonView::ClientDisconnect)
            <==> holds_bare_reason(members, "clientDisconnect"@),
        reason_from(Some(JsonTree::Object(members))) == Some(ReasonView::ControllerReplaced)
            <==> holds_bare_reason(members, "controllerReplaced"@),
        reason_from(Some(JsonTree::Object(members))) == Some(ReasonView::ChildExit)
            <==> holds_bare_reason(members, "childExit"@),
        reason_from(Some(JsonTree::Object(members))) == Some(ReasonView::RuntimeError(message))
            <==> (only(members, seq!["reason"@, "detail"@]) && members.contains(
            ("detail"@, JsonTree::Text(message)),
        ) && encode_utf8(message).len() <= 256 && exists|value: JsonTree|
            #[trigger]
            members.contains(("reason"@, value)) && names_unit(value, "runtimeError"@)),
{
    reveal_strlit("reason");
    reveal_strlit("detail");
    let names = seq!["reason"@, "detail"@];
    assert(names[0][0] != names[1][0]);
    lemma_reason_names();
    lemma_object(members, false, names);
    assert(expected(false, names) == names);
    assert(reason_fields() =~= names);
    if only(members, names) {
        assert(names_distinct(members));
        lemma_found_is_held(members, "reason"@);
        lemma_found_is_held(members, "detail"@);
        assert(members.contains(("detail"@, JsonTree::Text(message))) <==> member_named(
            members,
            "detail"@,
        ) == Some(JsonTree::Text(message)));
        assert(members.contains(("detail"@, JsonTree::Null)) <==> member_named(members, "detail"@)
            == Some(JsonTree::Null));
        if let Some(value) = member_named(members, "reason"@) {
            assert(members.contains(("reason"@, value)));
            lemma_reason_units(value);
        }
        assert forall|value: JsonTree| #[trigger]
            members.contains(("reason"@, value)) implies member_named(members, "reason"@) == Some(
            value,
        ) by {}
    }
}

proof fn lemma_reason_units(tree: JsonTree)
    ensures
        unit_variant_of(tree, reason_names()) == Some(0int) <==> names_unit(tree, "supervisor"@),
        unit_variant_of(tree, reason_names()) == Some(1int) <==> names_unit(
            tree,
            "clientDisconnect"@,
        ),
        unit_variant_of(tree, reason_names()) == Some(2int) <==> names_unit(
            tree,
            "controllerReplaced"@,
        ),
        unit_variant_of(tree, reason_names()) == Some(3int) <==> names_unit(tree, "childExit"@),
        unit_variant_of(tree, reason_names()) == Some(4int) <==> names_unit(tree, "runtimeError"@),
        unit_variant_of(tree, reason_names()) matches Some(variant) ==> 0 <= variant < 5,
{
    lemma_reason_names();
    lemma_unit(tree, reason_names(), 0);
    lemma_unit(tree, reason_names(), 1);
    lemma_unit(tree, reason_names(), 2);
    lemma_unit(tree, reason_names(), 3);
    lemma_unit(tree, reason_names(), 4);
    match tree {
        JsonTree::Text(name) => lemma_place_names(reason_names(), name),
        JsonTree::Object(members) => {
            if members.len() == 1 {
                lemma_place_names(reason_names(), members[0].0);
            }
        },
        _ => {},
    }
}

/// Whether an array holds a reason, by its name or by its place, and then a detail.
pub open spec fn lists_reason(
    items: Seq<JsonTree>,
    name: Seq<char>,
    place: u64,
    detail: JsonTree,
) -> bool {
    &&& items.len() == 2
    &&& items[0] == JsonTree::Text(name) || items[0] == JsonTree::Number(place)
    &&& items[1] == detail
}

/// An array is a close reason exactly where it holds the reason and then its text, or null
/// where it is no failure. Nothing but objects and arrays is a close reason.
pub proof fn law_reason_arrays_are_read(items: Seq<JsonTree>, message: Seq<char>)
    ensures
        reason_from(Some(JsonTree::Array(items))) == Some(ReasonView::Supervisor) <==> lists_reason(
            items,
            "supervisor"@,
            0,
            JsonTree::Null,
        ),
        reason_from(Some(JsonTree::Array(items))) == Some(ReasonView::ClientDisconnect)
            <==> lists_reason(items, "clientDisconnect"@, 1, JsonTree::Null),
        reason_from(Some(JsonTree::Array(items))) == Some(ReasonView::ControllerReplaced)
            <==> lists_reason(items, "controllerReplaced"@, 2, JsonTree::Null),
        reason_from(Some(JsonTree::Array(items))) == Some(ReasonView::ChildExit) <==> lists_reason(
            items,
            "childExit"@,
            3,
            JsonTree::Null,
        ),
        reason_from(Some(JsonTree::Array(items))) == Some(ReasonView::RuntimeError(message)) <==> (
        lists_reason(items, "runtimeError"@, 4, JsonTree::Text(message)) && encode_utf8(
            message,
        ).len() <= 256),
        reason_from(None) is None,
        forall|tree: JsonTree|
            !(tree is Object) && !(tree is Array) ==> #[trigger] reason_from(Some(tree)) is None,
{
    lemma_reason_names();
    if items.len() == 2 {
        let tag = items[0];
        lemma_variant(tag, reason_names(), true, 0);
        lemma_variant(tag, reason_names(), true, 1);
        lemma_variant(tag, reason_names(), true, 2);
        lemma_variant(tag, reason_names(), true, 3);
        lemma_variant(tag, reason_names(), true, 4);
        if let JsonTree::Text(name) = tag {
            lemma_place_names(reason_names(), name);
        }
    }
}

/// Reads an array as the object that names its items.
proof fn lemma_array_object(items: Seq<JsonTree>, names: Seq<Seq<char>>)
    requires
        items.len() == names.len() + 1,
        texts_distinct(names),
        forall|k: int| 0 <= k < names.len() ==> (#[trigger] names[k]) != "type"@,
    ensures
        ({
            let members = seq![("type"@, items[0])] + Seq::new(
                names.len(),
                |k: int| (names[k], items[1 + k]),
            );
            &&& tag_of(JsonTree::Object(members)) == tag_of(JsonTree::Array(items))
            &&& fields_of(JsonTree::Object(members), true, names) == fields_of(
                JsonTree::Array(items),
                true,
                names,
            )
        }),
{
    let members = seq![("type"@, items[0])] + Seq::new(
        names.len(),
        |k: int| (names[k], items[1 + k]),
    );
    assert forall|k: int| 0 <= k < names.len() implies (#[trigger] members[1 + k]).0
        == names[k] by {}
    lemma_object_fields(members, true, names, 1);
    assert(fields_of(JsonTree::Object(members), true, names)->0 =~= fields_of(
        JsonTree::Array(items),
        true,
        names,
    )->0);
}

/// An array is read as the object that holds the first item as the tag and the others
/// under the names of the fields, in the order of the fields.
pub proof fn law_frame_arrays_are_read(first: JsonTree, second: JsonTree, third: JsonTree)
    ensures
        frame_from(
            JsonTree::Array(seq![JsonTree::Text("registerSession"@), first, second, third]),
        ) == frame_from(
            JsonTree::Object(
                seq![
                    ("type"@, JsonTree::Text("registerSession"@)),
                    ("session"@, first),
                    ("commandDisplay"@, second),
                    ("size"@, third),
                ],
            ),
        ),
        frame_from(JsonTree::Array(seq![JsonTree::Text("attachBrowser"@), first])) == frame_from(
            JsonTree::Object(
                seq![
                    ("type"@, JsonTree::Text("attachBrowser"@)),
                    ("clientId"@, first),
                ],
            ),
        ),
        frame_from(JsonTree::Array(seq![JsonTree::Text("detachBrowser"@), first])) == frame_from(
            JsonTree::Object(
                seq![
                    ("type"@, JsonTree::Text("detachBrowser"@)),
                    ("clientId"@, first),
                ],
            ),
        ),
        frame_from(JsonTree::Array(seq![JsonTree::Text("browserInput"@), first, second])) == frame_from(
            JsonTree::Object(
                seq![
                    ("type"@, JsonTree::Text("browserInput"@)),
                    ("clientId"@, first),
                    ("bytes"@, second),
                ],
            ),
        ),
        frame_from(JsonTree::Array(seq![JsonTree::Text("browserResize"@), first, second])) == frame_from(
            JsonTree::Object(
                seq![
                    ("type"@, JsonTree::Text("browserResize"@)),
                    ("clientId"@, first),
                    ("size"@, second),
                ],
            ),
        ),
        frame_from(JsonTree::Array(seq![JsonTree::Text("ptyOutput"@), first])) == frame_from(
            JsonTree::Object(
                seq![
                    ("type"@, JsonTree::Text("ptyOutput"@)),
                    ("bytes"@, first),
                ],
            ),
        ),
        frame_from(JsonTree::Array(seq![JsonTree::Text("runtimeControl"@), first, second])) == frame_from(
            JsonTree::Object(
                seq![
                    ("type"@, JsonTree::Text("runtimeControl"@)),
                    ("clientId"@, first),
                    ("control"@, second),
                ],
            ),
        ),
        frame_from(JsonTree::Array(seq![JsonTree::Text("heartbeat"@), first])) == frame_from(
            JsonTree::Object(
                seq![
                    ("type"@, JsonTree::Text("heartbeat"@)),
                    ("sequence"@, first),
                ],
            ),
        ),
{
    lemma_frame_names();
    lemma_array_frame(seq![JsonTree::Text("registerSession"@), first, second, third], 0);
    assert(as_members(seq![JsonTree::Text("registerSession"@), first, second, third], 0) =~= seq![("type"@, JsonTree::Text("registerSession"@)), ("session"@, first), ("commandDisplay"@, second), ("size"@, third)]);
    lemma_array_frame(seq![JsonTree::Text("attachBrowser"@), first], 1);
    assert(as_members(seq![JsonTree::Text("attachBrowser"@), first], 1) =~= seq![("type"@, JsonTree::Text("attachBrowser"@)), ("clientId"@, first)]);
    lemma_array_frame(seq![JsonTree::Text("detachBrowser"@), first], 2);
    assert(as_members(seq![JsonTree::Text("detachBrowser"@), first], 2) =~= seq![("type"@, JsonTree::Text("detachBrowser"@)), ("clientId"@, first)]);
    lemma_array_frame(seq![JsonTree::Text("browserInput"@), first, second], 3);
    assert(as_members(seq![JsonTree::Text("browserInput"@), first, second], 3) =~= seq![("type"@, JsonTree::Text("browserInput"@)), ("clientId"@, first), ("bytes"@, second)]);
    lemma_array_frame(seq![JsonTree::Text("browserResize"@), first, second], 4);
    assert(as_members(seq![JsonTree::Text("browserResize"@), first, second], 4) =~= seq![("type"@, JsonTree::Text("browserResize"@)), ("clientId"@, first), ("size"@, second)]);
    lemma_array_frame(seq![JsonTree::Text("ptyOutput"@), first], 5);
    assert(as_members(seq![JsonTree::Text("ptyOutput"@), first], 5) =~= seq![("type"@, JsonTree::Text("ptyOutput"@)), ("bytes"@, first)]);
    lemma_array_frame(seq![JsonTree::Text("runtimeControl"@), first, second], 6);
    assert(as_members(seq![JsonTree::Text("runtimeControl"@), first, second], 6) =~= seq![("type"@, JsonTree::Text("runtimeControl"@)), ("clientId"@, first), ("control"@, second)]);
    lemma_array_frame(seq![JsonTree::Text("heartbeat"@), first], 7);
    assert(as_members(seq![JsonTree::Text("heartbeat"@), first], 7) =~= seq![("type"@, JsonTree::Text("heartbeat"@)), ("sequence"@, first)]);
}

/// The members of the object that an array stands for.
spec fn as_members(items: Seq<JsonTree>, k: int) -> Seq<(Seq<char>, JsonTree)> {
    seq![("type"@, items[0])] + Seq::new(
        frame_fields(k).len(),
        |i: int| (frame_fields(k)[i], items[1 + i]),
    )
}

proof fn lemma_array_frame(items: Seq<JsonTree>, k: int)
    requires
        0 <= k < 8,
        items.len() == frame_fields(k).len() + 1,
        items[0] == JsonTree::Text(frame_names()[k]),
    ensures
        frame_from(JsonTree::Array(items)) == frame_from(JsonTree::Object(as_members(items, k))),
{
    lemma_frame_names();
    lemma_frame_fields(k);
    lemma_place(frame_names(), k);
    lemma_array_object(items, frame_fields(k));
    assert(as_members(items, k) =~= seq![("type"@, items[0])] + Seq::new(
        frame_fields(k).len(),
        |i: int| (frame_fields(k)[i], items[1 + i]),
    ));
}

/// An array is a frame only where its first item names a frame and it holds as many
/// further items as that frame has fields. Nothing but objects and arrays is a frame.
pub proof fn law_frame_arrays_hold_all_fields(tree: JsonTree)
    ensures
        !(tree is Object) && !(tree is Array) ==> frame_from(tree) is None,
        (tree matches JsonTree::Array(items) && frame_from(tree) matches Some(frame)) ==> {
            let items = tree->Array_0;
            let frame = frame_from(tree)->0;
            match frame {
                FrameView::RegisterSession { .. } => items.len() == 4 && items[0]
                    == JsonTree::Text("registerSession"@),
                FrameView::AttachBrowser { .. } => items.len() == 2 && items[0] == JsonTree::Text(
                    "attachBrowser"@,
                ),
                FrameView::DetachBrowser { .. } => items.len() == 2 && items[0] == JsonTree::Text(
                    "detachBrowser"@,
                ),
                FrameView::BrowserInput { .. } => items.len() == 3 && items[0] == JsonTree::Text(
                    "browserInput"@,
                ),
                FrameView::BrowserResize { .. } => items.len() == 3 && items[0] == JsonTree::Text(
                    "browserResize"@,
                ),
                FrameView::PtyOutput { .. } => items.len() == 2 && items[0] == JsonTree::Text(
                    "ptyOutput"@,
                ),
                FrameView::RuntimeControl { .. } => items.len() == 3 && items[0] == JsonTree::Text(
                    "runtimeControl"@,
                ),
                FrameView::Heartbeat { .. } => items.len() == 2 && items[0] == JsonTree::Text(
                    "heartbeat"@,
                ),
            }
        },
{
    if let JsonTree::Array(items) = tree {
        if items.len() > 0 {
            if let JsonTree::Text(name) = items[0] {
                lemma_place_names(frame_names(), name);
            }
        }
    }
}

/// An array is read as a control as the object that names its items is.
pub proof fn law_control_arrays_are_read(tag: JsonTree, value: JsonTree, items: Seq<JsonTree>)
    ensures
        tag == JsonTree::Text("server"@) || tag == JsonTree::Number(0) ==> control_from(
            Some(JsonTree::Array(seq![tag, value])),
        ) == control_from(Some(JsonTree::Object(seq![("type"@, tag), ("message"@, value)]))),
        tag == JsonTree::Text("closed"@) || tag == JsonTree::Number(1) ==> control_from(
            Some(JsonTree::Array(seq![tag, value])),
        ) == control_from(Some(JsonTree::Object(seq![("type"@, tag), ("reason"@, value)]))),
        items.len() != 2 ==> control_from(Some(JsonTree::Array(items))) is None,
        control_from(None) is None,
        forall|tree: JsonTree|
            !(tree is Object) && !(tree is Array) ==> #[trigger] control_from(Some(tree)) is None,
{
    reveal_strlit("type");
    reveal_strlit("message");
    reveal_strlit("reason");
    assert("type"@.len() == 4 && "message"@.len() == 7 && "reason"@.len() == 6);
    lemma_control_names();
    let pair = seq![tag, value];
    lemma_variant(tag, control_names(), true, 0);
    lemma_variant(tag, control_names(), true, 1);
    lemma_array_object(pair, seq!["message"@]);
    lemma_array_object(pair, seq!["reason"@]);
    assert(seq![("type"@, pair[0])] + Seq::new(
        seq!["message"@].len(),
        |k: int| (seq!["message"@][k], pair[1 + k]),
    ) =~= seq![("type"@, tag), ("message"@, value)]);
    assert(seq![("type"@, pair[0])] + Seq::new(
        seq!["reason"@].len(),
        |k: int| (seq!["reason"@][k], pair[1 + k]),
    ) =~= seq![("type"@, tag), ("reason"@, value)]);
}

/// An array is read as a control message as the object that names its items is.
pub proof fn law_message_arrays_are_read(
    tag: JsonTree,
    first: JsonTree,
    second: JsonTree,
    items: Seq<JsonTree>,
)
    ensures
        tag == JsonTree::Text("ready"@) || tag == JsonTree::Number(0) || tag == JsonTree::Text(
            "processExited"@,
        ) || tag == JsonTree::Number(3) ==> message_from(Some(JsonTree::Array(seq![tag])))
            == message_from(Some(JsonTree::Object(seq![("type"@, tag)]))),
        tag == JsonTree::Text("leaseChanged"@) || tag == JsonTree::Number(1) ==> message_from(
            Some(JsonTree::Array(seq![tag, first, second])),
        ) == message_from(
            Some(JsonTree::Object(seq![("type"@, tag), ("owner"@, first), ("epoch"@, second)])),
        ),
        tag == JsonTree::Text("sizeChanged"@) || tag == JsonTree::Number(2) ==> message_from(
            Some(JsonTree::Array(seq![tag, first])),
        ) == message_from(Some(JsonTree::Object(seq![("type"@, tag), ("size"@, first)]))),
        tag == JsonTree::Text("warning"@) || tag == JsonTree::Number(4) || tag == JsonTree::Text(
            "error"@,
        ) || tag == JsonTree::Number(5) ==> message_from(Some(JsonTree::Array(seq![tag, first])))
            == message_from(Some(JsonTree::Object(seq![("type"@, tag), ("message"@, first)]))),
        message_from(Some(JsonTree::Array(items))) matches Some(message) ==> items.len() == (
        match message {
            MessageView::Ready => 1int,
            MessageView::ProcessExited => 1int,
            MessageView::LeaseChanged { .. } => 3int,
            _ => 2int,
        }),
        message_from(None) is None,
        forall|tree: JsonTree|
            !(tree is Object) && !(tree is Array) ==> #[trigger] message_from(Some(tree)) is None,
{
    reveal_strlit("type");
    reveal_strlit("owner");
    reveal_strlit("epoch");
    reveal_strlit("size");
    reveal_strlit("message");
    assert("type"@.len() == 4 && "message"@.len() == 7 && "owner"@.len() == 5 && "epoch"@.len()
        == 5);
    assert("owner"@[0] != "epoch"@[0] && "size"@[0] != "type"@[0]);
    lemma_message_names();
    let names = message_names();
    lemma_variant(tag, names, true, 0);
    lemma_variant(tag, names, true, 1);
    lemma_variant(tag, names, true, 2);
    lemma_variant(tag, names, true, 3);
    lemma_variant(tag, names, true, 4);
    lemma_variant(tag, names, true, 5);
    let none: Seq<Seq<char>> = seq![];
    lemma_array_object(seq![tag], none);
    lemma_array_object(seq![tag, first, second], seq!["owner"@, "epoch"@]);
    lemma_array_object(seq![tag, first], seq!["size"@]);
    lemma_array_object(seq![tag, first], seq!["message"@]);
    assert(seq![("type"@, seq![tag][0])] + Seq::new(
        none.len(),
        |k: int| (none[k], seq![tag][1 + k]),
    ) =~= seq![("type"@, tag)]);
    assert(seq![("type"@, seq![tag, first, second][0])] + Seq::new(
        seq!["owner"@, "epoch"@].len(),
        |k: int| (seq!["owner"@, "epoch"@][k], seq![tag, first, second][1 + k]),
    ) =~= seq![("type"@, tag), ("owner"@, first), ("epoch"@, second)]);
    assert(seq![("type"@, seq![tag, first][0])] + Seq::new(
        seq!["size"@].len(),
        |k: int| (seq!["size"@][k], seq![tag, first][1 + k]),
    ) =~= seq![("type"@, tag), ("size"@, first)]);
    assert(seq![("type"@, seq![tag, first][0])] + Seq::new(
        seq!["message"@].len(),
        |k: int| (seq!["message"@][k], seq![tag, first][1 + k]),
    ) =~= seq![("type"@, tag), ("message"@, first)]);
}

/// What a text is decoded as follows from its tree: exactly where every member of the text
/// is in the tree and the tree is a frame, and then as that frame. No binary payload is
/// decoded.
pub proof fn law_texts_are_decoded_by_their_trees(
    codec: JsonTunnelCodec,
    payload: TunnelPayload,
    result: Result<TunnelFrame, TunnelError>,
)
    requires
        call_ensures(<JsonTunnelCodec as TunnelCodec>::decode, (&codec, payload), result),
    ensures
        payload is Binary ==> (result matches Err(error) && error is UnsupportedPayload),
        payload matches TunnelPayload::Text(text) ==> {
            &&& result matches Err(error) ==> error is Json
            &&& result is Ok <==> (text_tree(text@) is Ok && separator_count(text@) == member_count(
                text_tree(text@)->Ok_0,
            ) && frame_from(text_tree(text@)->Ok_0) is Some)
            &&& result matches Ok(frame) ==> frame_from(text_tree(text@)->Ok_0) == Some(frame@)
        },
{
}

/// What a value is read as follows from its tree.
pub proof fn law_values_are_read_by_their_trees(json: Json, frame: Option<TunnelFrame>)
    requires
        call_ensures(TunnelFrame::from_json, (&json,), frame),
    ensures
        frame is Some <==> frame_from(json@) is Some,
        frame matches Some(frame) ==> frame_from(json@) == Some(frame@),
{
}

} // verus!
