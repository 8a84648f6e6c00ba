//! The JSON form of tunnel frames.
use crate::json::JsonTree;
use crate::members::{fields_of, tag_of, unit_variant_of, variant_of};
use crate::protocol::{is_safe_message, is_session_name, LeaseOwner, MessageView, SizeView};
use crate::tunnel::{ControlView, FrameView, ReasonView, TUNNEL_TERMINAL_PAYLOAD_MAX_BYTES};
use vstd::prelude::*;

verus! {

/// The variants of a [`TunnelFrame`](crate::tunnel::TunnelFrame).
pub open spec fn frame_names() -> Seq<Seq<char>> {
    seq![
        "registerSession"@,
        "attachBrowser"@,
        "detachBrowser"@,
        "browserInput"@,
        "browserResize"@,
        "ptyOutput"@,
        "runtimeControl"@,
        "heartbeat"@,
    ]
}

/// The variants of a [`TunnelRuntimeControl`](crate::tunnel::TunnelRuntimeControl).
pub open spec fn control_names() -> Seq<Seq<char>> {
    seq!["server"@, "closed"@]
}

/// The variants of a [`TunnelCloseReason`](crate::tunnel::TunnelCloseReason).
pub open spec fn reason_names() -> Seq<Seq<char>> {
    seq![
        "supervisor"@,
        "clientDisconnect"@,
        "controllerReplaced"@,
        "childExit"@,
        "runtimeError"@,
    ]
}

/// The variants of a [`ServerControlMessage`](crate::protocol::ServerControlMessage).
pub open spec fn message_names() -> Seq<Seq<char>> {
    seq!["ready"@, "leaseChanged"@, "sizeChanged"@, "processExited"@, "warning"@, "error"@]
}

/// The variants of a [`LeaseOwner`].
pub open spec fn owner_names() -> Seq<Seq<char>> {
    seq!["local"@, "browser"@]
}

/// The tree of a number.
pub open spec fn number_tree(number: u64) -> JsonTree {
    JsonTree::Number(number)
}

/// The tree of terminal bytes: an array of their numbers.
pub open spec fn bytes_tree(bytes: Seq<u8>) -> JsonTree {
    JsonTree::Array(Seq::new(bytes.len(), |i: int| number_tree(bytes[i] as u64)))
}

/// The tree of a client id that may be absent.
pub open spec fn client_tree(client_id: Option<u64>) -> JsonTree {
    match client_id {
        Some(client_id) => number_tree(client_id),
        None => JsonTree::Null,
    }
}

/// The tree of a terminal size.
pub open spec fn size_tree(size: SizeView) -> JsonTree {
    JsonTree::Object(
        seq![
            ("cols"@, number_tree(size.cols as u64)),
            ("rows"@, number_tree(size.rows as u64)),
        ],
    )
}

/// The tree of a lease owner.
pub open spec fn owner_tree(owner: LeaseOwner) -> JsonTree {
    match owner {
        LeaseOwner::Local => JsonTree::Text("local"@),
        LeaseOwner::Browser => JsonTree::Text("browser"@),
    }
}

/// The tag member of a tagged value.
pub open spec fn tag_member(name: Seq<char>) -> (Seq<char>, JsonTree) {
    ("type"@, JsonTree::Text(name))
}

/// The tree of a control message.
pub open spec fn message_tree(message: MessageView) -> JsonTree {
    match message {
        MessageView::Ready => JsonTree::Object(seq![tag_member("ready"@)]),
        MessageView::LeaseChanged { owner, epoch } => JsonTree::Object(
            seq![
                tag_member("leaseChanged"@),
                ("owner"@, owner_tree(owner)),
                ("epoch"@, number_tree(epoch)),
            ],
        ),
        MessageView::SizeChanged { size } => JsonTree::Object(
            seq![tag_member("sizeChanged"@), ("size"@, size_tree(size))],
        ),
        MessageView::ProcessExited => JsonTree::Object(seq![tag_member("processExited"@)]),
        MessageView::Warning { message } => JsonTree::Object(
            seq![tag_member("warning"@), ("message"@, JsonTree::Text(message))],
        ),
        MessageView::Error { message } => JsonTree::Object(
            seq![tag_member("error"@), ("message"@, JsonTree::Text(message))],
        ),
    }
}

/// The member that names a close reason.
pub open spec fn reason_member(name: Seq<char>) -> (Seq<char>, JsonTree) {
    ("reason"@, JsonTree::Text(name))
}

/// The tree of a close reason.
pub open spec fn reason_tree(reason: ReasonView) -> JsonTree {
    match reason {
        ReasonView::Supervisor => JsonTree::Object(seq![reason_member("supervisor"@)]),
        ReasonView::ClientDisconnect => JsonTree::Object(seq![reason_member("clientDisconnect"@)]),
        ReasonView::ControllerReplaced => JsonTree::Object(
            seq![reason_member("controllerReplaced"@)],
        ),
        ReasonView::ChildExit => JsonTree::Object(seq![reason_member("childExit"@)]),
        ReasonView::RuntimeError(message) => JsonTree::Object(
            seq![reason_member("runtimeError"@), ("detail"@, JsonTree::Text(message))],
        ),
    }
}

/// The tree of a runtime control.
pub open spec fn control_tree(control: ControlView) -> JsonTree {
    match control {
        ControlView::Server { message } => JsonTree::Object(
            seq![tag_member("server"@), ("message"@, message_tree(message))],
        ),
        ControlView::Closed { reason } => JsonTree::Object(
            seq![tag_member("closed"@), ("reason"@, reason_tree(reason))],
        ),
    }
}

/// The tree of a frame.
pub open spec fn frame_tree(frame: FrameView) -> JsonTree {
    match frame {
        FrameView::RegisterSession { session, command_display, size } => JsonTree::Object(
            seq![
                tag_member("registerSession"@),
                ("session"@, JsonTree::Text(session)),
                ("commandDisplay"@, JsonTree::Text(command_display)),
                ("size"@, size_tree(size)),
            ],
        ),
        FrameView::AttachBrowser { client_id } => JsonTree::Object(
            seq![tag_member("attachBrowser"@), ("clientId"@, number_tree(client_id))],
        ),
        FrameView::DetachBrowser { client_id } => JsonTree::Object(
            seq![tag_member("detachBrowser"@), ("clientId"@, number_tree(client_id))],
        ),
        FrameView::BrowserInput { client_id, bytes } => JsonTree::Object(
            seq![
                tag_member("browserInput"@),
                ("clientId"@, number_tree(client_id)),
                ("bytes"@, bytes_tree(bytes)),
            ],
        ),
        FrameView::BrowserResize { client_id, size } => JsonTree::Object(
            seq![
                tag_member("browserResize"@),
                ("clientId"@, number_tree(client_id)),
                ("size"@, size_tree(size)),
            ],
        ),
        FrameView::PtyOutput { bytes } => JsonTree::Object(
            seq![tag_member("ptyOutput"@), ("bytes"@, bytes_tree(bytes))],
        ),
        FrameView::RuntimeControl { client_id, control } => JsonTree::Object(
            seq![
                tag_member("runtimeControl"@),
                ("clientId"@, client_tree(client_id)),
                ("control"@, control_tree(control)),
            ],
        ),
        FrameView::Heartbeat { sequence } => JsonTree::Object(
            seq![tag_member("heartbeat"@), ("sequence"@, number_tree(sequence))],
        ),
    }
}

/// The number in a field.
pub open spec fn number_from(field: Option<JsonTree>) -> Option<u64> {
    match field {
        Some(JsonTree::Number(number)) => Some(number),
        _ => None,
    }
}

/// The number of 16 bits in a field.
pub open spec fn short_from(field: Option<JsonTree>) -> Option<u16> {
    match number_from(field) {
        Some(number) => if number <= u16::MAX {
            Some(number as u16)
        } else {
            None
        },
        None => None,
    }
}

/// The text in a field.
pub open spec fn text_from(field: Option<JsonTree>) -> Option<Seq<char>> {
    match field {
        Some(JsonTree::Text(text)) => Some(text),
        _ => None,
    }
}

/// The session name in a field.
pub open spec fn session_from(field: Option<JsonTree>) -> Option<Seq<char>> {
    match text_from(field) {
        Some(text) => if is_session_name(text) {
            Some(text)
        } else {
            None
        },
        None => None,
    }
}

/// The message text in a field.
pub open spec fn message_text_from(field: Option<JsonTree>) -> Option<Seq<char>> {
    match text_from(field) {
        Some(text) => if is_safe_message(text) {
            Some(text)
        } else {
            None
        },
        None => None,
    }
}

/// The client id in a field that may be absent or null: `None` where the field holds
/// anything else than a client id.
pub open spec fn client_from(field: Option<JsonTree>) -> Option<Option<u64>> {
    match field {
        None => Some(None),
        Some(JsonTree::Null) => Some(None),
        Some(JsonTree::Number(number)) => Some(Some(number)),
        _ => None,
    }
}

/// Whether a tree is the number of a byte.
pub open spec fn is_byte(tree: JsonTree) -> bool {
    tree matches JsonTree::Number(number) && number <= u8::MAX
}

/// The terminal bytes in a field.
pub open spec fn bytes_from(field: Option<JsonTree>) -> Option<Seq<u8>> {
    match field {
        Some(JsonTree::Array(items)) => if items.len() <= TUNNEL_TERMINAL_PAYLOAD_MAX_BYTES && (
        forall|i: int| 0 <= i < items.len() ==> is_byte(#[trigger] items[i])) {
            Some(Seq::new(items.len(), |i: int| items[i]->Number_0 as u8))
        } else {
            None
        },
        _ => None,
    }
}

/// The terminal size in a field.
pub open spec fn size_from(field: Option<JsonTree>) -> Option<SizeView> {
    match field {
        Some(tree) => match fields_of(tree, false, seq!["cols"@, "rows"@]) {
            Some(fields) => match (short_from(fields[0]), short_from(fields[1])) {
                (Some(cols), Some(rows)) => if cols > 0 && rows > 0 {
                    Some(SizeView { cols, rows })
                } else {
                    None
                },
                _ => None,
            },
            None => None,
        },
        None => None,
    }
}

/// The lease owner in a field.
pub open spec fn owner_from(field: Option<JsonTree>) -> Option<LeaseOwner> {
    match field {
        Some(tree) => match unit_variant_of(tree, owner_names()) {
            Some(place) => if place == 0 {
                Some(LeaseOwner::Local)
            } else {
                Some(LeaseOwner::Browser)
            },
            None => None,
        },
        None => None,
    }
}

/// The control message of a variant in a tree.
pub open spec fn message_of(variant: int, tree: JsonTree) -> Option<MessageView> {
    if variant == 0 {
        match fields_of(tree, true, seq![]) {
            Some(_) => Some(MessageView::Ready),
            None => None,
        }
    } else if variant == 1 {
        match fields_of(tree, true, seq!["owner"@, "epoch"@]) {
            Some(fields) => match (owner_from(fields[0]), number_from(fields[1])) {
                (Some(owner), Some(epoch)) => Some(MessageView::LeaseChanged { owner, epoch }),
                _ => None,
            },
            None => None,
        }
    } else if variant == 2 {
        match fields_of(tree, true, seq!["size"@]) {
            Some(fields) => match size_from(fields[0]) {
                Some(size) => Some(MessageView::SizeChanged { size }),
                None => None,
            },
            None => None,
        }
    } else if variant == 3 {
        match fields_of(tree, true, seq![]) {
            Some(_) => Some(MessageView::ProcessExited),
            None => None,
        }
    } else {
        match fields_of(tree, true, seq!["message"@]) {
            Some(fields) => match message_text_from(fields[0]) {
                Some(message) => if variant == 4 {
                    Some(MessageView::Warning { message })
                } else {
                    Some(MessageView::Error { message })
                },
                None => None,
            },
            None => None,
        }
    }
}

/// The control message in a field.
pub open spec fn message_from(field: Option<JsonTree>) -> Option<MessageView> {
    match field {
        Some(tree) => match tag_of(tree) {
            Some(tag) => match variant_of(tag, message_names(), true) {
                Some(variant) => message_of(variant, tree),
                None => None,
            },
            None => None,
        },
        None => None,
    }
}

/// The close reason of a variant with its detail, which only a runtime error has.
pub open spec fn reason_of(variant: int, detail: Option<JsonTree>) -> Option<ReasonView> {
    if variant == 4 {
        match message_text_from(detail) {
            Some(message) => Some(ReasonView::RuntimeError(message)),
            None => None,
        }
    } else if detail is Some && !(detail->0 is Null) {
        None
    } else if variant == 0 {
        Some(ReasonView::Supervisor)
    } else if variant == 1 {
        Some(ReasonView::ClientDisconnect)
    } else if variant == 2 {
        Some(ReasonView::ControllerReplaced)
    } else {
        Some(ReasonView::ChildExit)
    }
}

/// The names of the fields of a close reason.
pub open spec fn reason_fields() -> Seq<Seq<char>> {
    seq!["reason"@, "detail"@]
}

/// The close reason in a field: an object with the members `reason` and `detail`, or an
/// array of the two, in which the variant may also stand by its place.
pub open spec fn reason_from(field: Option<JsonTree>) -> Option<ReasonView> {
    match field {
        Some(tree) => match fields_of(tree, false, reason_fields()) {
            Some(fields) => match fields[0] {
                Some(tag) => {
                    let variant = if tree is Array {
                        variant_of(tag, reason_names(), true)
                    } else {
                        unit_variant_of(tag, reason_names())
                    };
                    match variant {
                        Some(variant) => reason_of(variant, fields[1]),
                        None => None,
                    }
                },
                None => None,
            },
            None => None,
        },
        None => None,
    }
}

/// The runtime control of a variant in a tree.
pub open spec fn control_of(variant: int, tree: JsonTree) -> Option<ControlView> {
    if variant == 0 {
        match fields_of(tree, true, seq!["message"@]) {
            Some(fields) => match message_from(fields[0]) {
                Some(message) => Some(ControlView::Server { message }),
                None => None,
            },
            None => None,
        }
    } else {
        match fields_of(tree, true, seq!["reason"@]) {
            Some(fields) => match reason_from(fields[0]) {
                Some(reason) => Some(ControlView::Closed { reason }),
                None => None,
            },
            None => None,
        }
    }
}

/// The runtime control in a field.
pub open spec fn control_from(field: Option<JsonTree>) -> Option<ControlView> {
    match field {
        Some(tree) => match tag_of(tree) {
            Some(tag) => match variant_of(tag, control_names(), true) {
                Some(variant) => control_of(variant, tree),
                None => None,
            },
            None => None,
        },
        None => None,
    }
}

/// The names of the fields of a variant of a frame.
pub open spec fn frame_fields(variant: int) -> Seq<Seq<char>> {
    if variant == 0 {
        seq!["session"@, "commandDisplay"@, "size"@]
    } else if variant == 1 {
        seq!["clientId"@]
    } else if variant == 2 {
        seq!["clientId"@]
    } else if variant == 3 {
        seq!["clientId"@, "bytes"@]
    } else if variant == 4 {
        seq!["clientId"@, "size"@]
    } else if variant == 5 {
        seq!["bytes"@]
    } else if variant == 6 {
        seq!["clientId"@, "control"@]
    } else {
        seq!["sequence"@]
    }
}

/// The frame of a variant with the given fields.
pub open spec fn frame_of(variant: int, fields: Seq<Option<JsonTree>>) -> Option<FrameView> {
    if variant == 0 {
        match (session_from(fields[0]), message_text_from(fields[1]), size_from(fields[2])) {
            (Some(session), Some(command_display), Some(size)) => Some(
                FrameView::RegisterSession { session, command_display, size },
            ),
            _ => None,
        }
    } else if variant == 1 {
        match number_from(fields[0]) {
            Some(client_id) => Some(FrameView::AttachBrowser { client_id }),
            None => None,
        }
    } else if variant == 2 {
        match number_from(fields[0]) {
            Some(client_id) => Some(FrameView::DetachBrowser { client_id }),
            None => None,
        }
    } else if variant == 3 {
        match (number_from(fields[0]), bytes_from(fields[1])) {
            (Some(client_id), Some(bytes)) => Some(FrameView::BrowserInput { client_id, bytes }),
            _ => None,
        }
    } else if variant == 4 {
        match (number_from(fields[0]), size_from(fields[1])) {
            (Some(client_id), Some(size)) => Some(FrameView::BrowserResize { client_id, size }),
            _ => None,
        }
    } else if variant == 5 {
        match bytes_from(fields[0]) {
            Some(bytes) => Some(FrameView::PtyOutput { bytes }),
            None => None,
        }
    } else if variant == 6 {
        match (client_from(fields[0]), control_from(fields[1])) {
            (Some(client_id), Some(control)) => Some(
                FrameView::RuntimeControl { client_id, control },
            ),
            _ => None,
        }
    } else {
        match number_from(fields[0]) {
            Some(sequence) => Some(FrameView::Heartbeat { sequence }),
            None => None,
        }
    }
}

/// The frame that a tree stands for.
pub open spec fn frame_from(tree: JsonTree) -> Option<FrameView> {
    match tag_of(tree) {
        Some(tag) => match variant_of(tag, frame_names(), false) {
            Some(variant) => match fields_of(tree, true, frame_fields(variant)) {
                Some(fields) => frame_of(variant, fields),
                None => None,
            },
            None => None,
        },
        None => None,
    }
}

} // verus!
