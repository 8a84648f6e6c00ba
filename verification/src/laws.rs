//! What holds of the tunnel as a whole.
use crate::codec::{refusal_text, text_frame};
use crate::json::{parsed_tree, JsonTree};
use crate::members::{holds_only, occurrences, place_of, tag_of, variant_of};
use crate::protocol::is_safe_message;
use crate::round_trip::lemma_frame_round_trip;
use crate::runtime::{OutputView, ShutdownView};
use crate::tunnel::{
    close_reason, frame_action, lemma_fallback_is_safe, output_frame, FrameView, ReasonView,
    TUNNEL_TERMINAL_PAYLOAD_MAX_BYTES,
};
use crate::verdict::law_refused_values_are_no_frames;
use crate::wire::{
    control_from, control_names, frame_fields, frame_from, frame_names, frame_tree, message_from,
    message_names, owner_names, reason_fields, reason_from, reason_names, size_from,
};
use vstd::prelude::*;

verus! {

/// The frames that the web side sends, and no others, make the runtime act.
pub proof fn law_only_web_frames_act(frame: FrameView)
    ensures
        !(frame_action(frame) is NoAction) <==> (frame is AttachBrowser || frame is DetachBrowser
            || frame is BrowserInput || frame is BrowserResize),
{
}

/// A frame that carries runtime output is no command: sent back to the runtime side, it
/// has no effect.
pub proof fn law_output_is_no_command(client_id: Option<u64>, output: OutputView)
    ensures
        output_frame(client_id, output) matches Some(frame) ==> frame_action(frame) is NoAction,
{
}

/// Runtime output becomes a frame unless it is a chunk of bytes above the frame cap.
pub proof fn law_only_large_chunks_are_refused(client_id: Option<u64>, output: OutputView)
    ensures
        output_frame(client_id, output) is None <==> (output matches OutputView::Bytes(bytes)
            && bytes.len() > TUNNEL_TERMINAL_PAYLOAD_MAX_BYTES),
{
}

/// A frame made from runtime output keeps every bound of the protocol, whatever message
/// the runtime failed with.
pub proof fn law_output_frames_are_valid(client_id: Option<u64>, output: OutputView)
    requires
        output matches OutputView::Control(message) ==> message.valid(),
    ensures
        output_frame(client_id, output) matches Some(frame) ==> frame.valid(),
{
    lemma_fallback_is_safe();
}

/// A close reason is safe to show, and a message that is safe already is kept.
pub proof fn law_close_reasons_are_safe(reason: ShutdownView)
    ensures
        close_reason(reason).valid(),
        reason matches ShutdownView::RuntimeError(message) ==> is_safe_message(message)
            ==> close_reason(reason) == ReasonView::RuntimeError(message),
        reason is RuntimeError <==> close_reason(reason) is RuntimeError,
{
    lemma_fallback_is_safe();
}

/// Different shutdown reasons stay different, except for messages that are replaced.
pub proof fn law_close_reasons_stay_apart(left: ShutdownView, right: ShutdownView)
    requires
        left matches ShutdownView::RuntimeError(message) ==> is_safe_message(message),
        right matches ShutdownView::RuntimeError(message) ==> is_safe_message(message),
        close_reason(left) == close_reason(right),
    ensures
        left == right,
{
}

/// Whatever is read as a frame keeps every bound of the protocol: names, messages, sizes
/// and payloads that break one are refused.
pub proof fn law_read_frames_are_valid(tree: JsonTree)
    ensures
        frame_from(tree) matches Some(frame) ==> frame.valid(),
{
}

/// A frame that was decoded can be encoded, and comes out of that the same.
pub proof fn law_decoded_frames_round_trip(text: Seq<char>)
    ensures
        text_frame(text) matches Some(frame) ==> frame.valid() && frame_from(frame_tree(frame))
            == Some(frame),
{
    if let Some(frame) = text_frame(text) {
        law_read_frames_are_valid(parsed_tree(text)->Ok_0);
        lemma_frame_round_trip(frame);
    }
}

/// Of every text it is said what is wrong with it, unless it stands for a frame.
pub proof fn law_refused_texts_are_explained(text: Seq<char>)
    ensures
        text_frame(text) is None <==> refusal_text(text) is Some,
{
    if let Ok(tree) = parsed_tree(text) {
        law_refused_values_are_no_frames(tree);
    }
}

/// Different frames have different JSON forms.
pub proof fn law_frames_stay_apart(left: FrameView, right: FrameView)
    requires
        left.valid(),
        right.valid(),
        frame_tree(left) == frame_tree(right),
    ensures
        left == right,
{
    lemma_frame_round_trip(left);
    lemma_frame_round_trip(right);
}

/// An object with a member that its variant does not have is no frame.
pub proof fn law_unknown_members_are_refused(
    members: Seq<(Seq<char>, JsonTree)>,
    variant: int,
    i: int,
)
    requires
        tag_of(JsonTree::Object(members)) matches Some(tag) && variant_of(
            tag,
            frame_names(),
            false,
        ) == Some(variant),
        0 <= i < members.len(),
        members[i].0 != "type"@,
        !frame_fields(variant).contains(members[i].0),
    ensures
        frame_from(JsonTree::Object(members)) is None,
{
    lemma_place_is_contained(frame_fields(variant), members[i].0);
    assert(!holds_only(members, true, frame_fields(variant)));
}

/// A name that has a place in a list is in the list.
proof fn lemma_place_is_contained(names: Seq<Seq<char>>, name: Seq<char>)
    ensures
        place_of(names, name) is Some ==> names.contains(name),
    decreases names.len(),
{
    if names.len() > 0 {
        if names.last() != name {
            lemma_place_is_contained(names.drop_last(), name);
            if names.drop_last().contains(name) {
                let k = names.drop_last().index_of(name);
                assert(names[k] == name);
            }
        }
    }
}

/// An object without a member `type`, or with two of them, is no frame.
pub proof fn law_frames_have_one_tag(members: Seq<(Seq<char>, JsonTree)>)
    requires
        occurrences(members, "type"@) != 1,
    ensures
        frame_from(JsonTree::Object(members)) is None,
{
}

/// The JSON form of bytes above the frame cap is no frame.
pub proof fn law_large_payloads_are_refused(client_id: u64, bytes: Seq<u8>)
    requires
        bytes.len() > TUNNEL_TERMINAL_PAYLOAD_MAX_BYTES,
    ensures
        frame_from(frame_tree(FrameView::PtyOutput { bytes })) is None,
        frame_from(frame_tree(FrameView::BrowserInput { client_id, bytes })) is None,
{
    lemma_frame_round_trip(FrameView::PtyOutput { bytes });
    lemma_frame_round_trip(FrameView::BrowserInput { client_id, bytes });
}

/// Crossing the tunnel as JSON does not change what a frame asks of the runtime.
pub proof fn law_wire_keeps_actions(frame: FrameView)
    requires
        frame.valid(),
    ensures
        frame_from(frame_tree(frame)) matches Some(received) && frame_action(received)
            == frame_action(frame),
{
    lemma_frame_round_trip(frame);
}

/// Terminal bytes that the runtime puts out reach the web side unchanged.
pub proof fn law_wire_keeps_output(client_id: Option<u64>, bytes: Seq<u8>)
    requires
        bytes.len() <= TUNNEL_TERMINAL_PAYLOAD_MAX_BYTES,
    ensures
        output_frame(client_id, OutputView::Bytes(bytes)) matches Some(frame) && frame_from(
            frame_tree(frame),
        ) == Some(FrameView::PtyOutput { bytes }),
{
    lemma_frame_round_trip(FrameView::PtyOutput { bytes });
}

/// An object with a member that its variant does not have is no runtime control.
pub proof fn law_unknown_control_members_are_refused(
    members: Seq<(Seq<char>, JsonTree)>,
    i: int,
)
    requires
        0 <= i < members.len(),
        members[i].0 != "type"@,
        members[i].0 != "message"@,
        members[i].0 != "reason"@,
    ensures
        control_from(Some(JsonTree::Object(members))) is None,
{
    lemma_place_is_contained(seq!["message"@], members[i].0);
    lemma_place_is_contained(seq!["reason"@], members[i].0);
    assert(!holds_only(members, true, seq!["message"@]));
    assert(!holds_only(members, true, seq!["reason"@]));
}

/// An object with a member besides `reason` and `detail` is no close reason.
pub proof fn law_unknown_reason_members_are_refused(
    members: Seq<(Seq<char>, JsonTree)>,
    i: int,
)
    requires
        0 <= i < members.len(),
        members[i].0 != "reason"@,
        members[i].0 != "detail"@,
    ensures
        reason_from(Some(JsonTree::Object(members))) is None,
{
    lemma_place_is_contained(reason_fields(), members[i].0);
    assert(!holds_only(members, false, reason_fields()));
}

/// An object with a member that no control message has is no control message.
pub proof fn law_unknown_message_members_are_refused(
    members: Seq<(Seq<char>, JsonTree)>,
    i: int,
)
    requires
        0 <= i < members.len(),
        members[i].0 != "type"@,
        members[i].0 != "owner"@,
        members[i].0 != "epoch"@,
        members[i].0 != "size"@,
        members[i].0 != "message"@,
    ensures
        message_from(Some(JsonTree::Object(members))) is None,
{
    lemma_place_is_contained(seq![], members[i].0);
    lemma_place_is_contained(seq!["owner"@, "epoch"@], members[i].0);
    lemma_place_is_contained(seq!["size"@], members[i].0);
    lemma_place_is_contained(seq!["message"@], members[i].0);
    assert(!holds_only(members, true, seq![]));
    assert(!holds_only(members, true, seq!["owner"@, "epoch"@]));
    assert(!holds_only(members, true, seq!["size"@]));
    assert(!holds_only(members, true, seq!["message"@]));
}

/// An object with a member besides `cols` and `rows` is no terminal size.
pub proof fn law_unknown_size_members_are_refused(members: Seq<(Seq<char>, JsonTree)>, i: int)
    requires
        0 <= i < members.len(),
        members[i].0 != "cols"@,
        members[i].0 != "rows"@,
    ensures
        size_from(Some(JsonTree::Object(members))) is None,
{
    lemma_place_is_contained(seq!["cols"@, "rows"@], members[i].0);
    assert(!holds_only(members, false, seq!["cols"@, "rows"@]));
}

/// Whether a name starts with a small letter and holds nothing but letters.
pub open spec fn is_camel_case(name: Seq<char>) -> bool {
    &&& name.len() > 0
    &&& 'a' <= name[0] <= 'z'
    &&& forall|i: int|
        0 <= i < name.len() ==> 'a' <= #[trigger] name[i] <= 'z' || 'A' <= name[i] <= 'Z'
}

/// Whether the members of all the objects in a tree have camel case names.
pub open spec fn has_camel_case_names(tree: JsonTree) -> bool
    decreases tree,
{
    match tree {
        JsonTree::Array(items) => forall|i: int|
            0 <= i < items.len() ==> has_camel_case_names(#[trigger] items[i]),
        JsonTree::Object(members) => forall|i: int|
            0 <= i < members.len() ==> is_camel_case((#[trigger] members[i]).0)
                && has_camel_case_names(members[i].1),
        _ => true,
    }
}

/// The names of all the members that stand in the form of a frame.
proof fn lemma_member_names()
    ensures
        is_camel_case("type"@),
        is_camel_case("session"@),
        is_camel_case("commandDisplay"@),
        is_camel_case("size"@),
        is_camel_case("cols"@),
        is_camel_case("rows"@),
        is_camel_case("clientId"@),
        is_camel_case("bytes"@),
        is_camel_case("control"@),
        is_camel_case("message"@),
        is_camel_case("owner"@),
        is_camel_case("epoch"@),
        is_camel_case("reason"@),
        is_camel_case("detail"@),
        is_camel_case("sequence"@),
{
    reveal_strlit("type");
    reveal_strlit("session");
    reveal_strlit("commandDisplay");
    reveal_strlit("size");
    reveal_strlit("cols");
    reveal_strlit("rows");
    reveal_strlit("clientId");
    reveal_strlit("bytes");
    reveal_strlit("control");
    reveal_strlit("message");
    reveal_strlit("owner");
    reveal_strlit("epoch");
    reveal_strlit("reason");
    reveal_strlit("detail");
    reveal_strlit("sequence");
}

/// The members of a frame, and of everything in it, have camel case names.
pub proof fn law_member_names_are_camel_case(frame: FrameView)
    ensures
        has_camel_case_names(frame_tree(frame)),
{
    lemma_member_names();
    reveal_with_fuel(has_camel_case_names, 5);
}

/// A text that names a variant of a frame, or of anything in a frame, is in camel case.
pub proof fn law_variant_names_are_camel_case(name: Seq<char>)
    requires
        place_of(frame_names(), name) is Some || place_of(control_names(), name) is Some
            || place_of(message_names(), name) is Some || place_of(reason_names(), name) is Some
            || place_of(owner_names(), name) is Some,
    ensures
        is_camel_case(name),
{
    lemma_place_is_contained(frame_names(), name);
    lemma_place_is_contained(control_names(), name);
    lemma_place_is_contained(message_names(), name);
    lemma_place_is_contained(reason_names(), name);
    lemma_place_is_contained(owner_names(), name);
    reveal_strlit("registerSession");
    reveal_strlit("attachBrowser");
    reveal_strlit("detachBrowser");
    reveal_strlit("browserInput");
    reveal_strlit("browserResize");
    reveal_strlit("ptyOutput");
    reveal_strlit("runtimeControl");
    reveal_strlit("heartbeat");
    reveal_strlit("server");
    reveal_strlit("closed");
    reveal_strlit("supervisor");
    reveal_strlit("clientDisconnect");
    reveal_strlit("controllerReplaced");
    reveal_strlit("childExit");
    reveal_strlit("runtimeError");
    reveal_strlit("ready");
    reveal_strlit("leaseChanged");
    reveal_strlit("sizeChanged");
    reveal_strlit("processExited");
    reveal_strlit("warning");
    reveal_strlit("error");
    reveal_strlit("local");
    reveal_strlit("browser");
}

} // verus!
