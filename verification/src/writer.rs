//! Writing tunnel frames as JSON values.
use crate::json::{items_tree, lemma_tree_of_parts, members_tree, Json, JsonTree};
use crate::protocol::{LeaseOwner, ServerControlMessage, TerminalSize};
use crate::runtime::ClientId;
use crate::tunnel::{
    client_number, fits_in_frame, TunnelCloseReason, TunnelFrame, TunnelRuntimeControl,
    TunnelTerminalPayload,
};
use crate::wire::{
    bytes_tree, client_tree, control_tree, frame_tree, message_tree, number_tree, owner_tree,
    reason_tree, size_tree,
};
use vstd::prelude::*;
use vstd::string::*;

verus! {

/// Makes a string.
fn text(chars: &str) -> (json: Json)
    ensures
        json@ == JsonTree::Text(chars@),
{
    Json::Text(chars.to_owned())
}

/// Makes an object that holds one member.
fn object(name: &str, value: Json) -> (members: Vec<(String, Json)>)
    ensures
        members_tree(members@) == seq![(name@, value@)],
{
    let mut members: Vec<(String, Json)> = Vec::new();
    push(&mut members, name, value);
    proof {
        assert(members_tree(members@) =~= seq![(name@, value@)]);
    }
    members
}

/// Adds a member to an object.
fn push(members: &mut Vec<(String, Json)>, name: &str, value: Json)
    ensures
        members_tree(final(members)@) == members_tree(old(members)@).push((name@, value@)),
{
    let ghost before = members@;
    members.push((name.to_owned(), value));
    proof {
        assert(members_tree(members@) =~= members_tree(before).push((name@, value@)));
    }
}

/// Closes an object.
fn close(members: Vec<(String, Json)>) -> (json: Json)
    ensures
        json@ == JsonTree::Object(members_tree(members@)),
{
    let json = Json::Object(members);
    proof {
        lemma_tree_of_parts(json);
    }
    json
}

/// Writes terminal bytes.
fn write_bytes(payload: &TunnelTerminalPayload) -> (json: Json)
    ensures
        json@ == bytes_tree(payload@),
        fits_in_frame(payload@),
{
    let bytes = payload.as_bytes();
    let mut items: Vec<Json> = Vec::new();
    for i in 0..bytes.len()
        invariant
            items@.len() == i,
            forall|j: int| 0 <= j < i ==> (#[trigger] items@[j])@ == number_tree(bytes@[j] as u64),
    {
        items.push(Json::Number(bytes[i] as u64));
    }
    let json = Json::Array(items);
    proof {
        lemma_tree_of_parts(json);
        assert(items_tree(items@) =~= bytes_tree(payload@)->Array_0);
    }
    json
}

/// Writes a client id that may be absent.
fn write_client(client_id: &Option<ClientId>) -> (json: Json)
    ensures
        json@ == client_tree(client_number(*client_id)),
{
    match client_id {
        Some(client_id) => Json::Number(client_id.get()),
        None => Json::Null,
    }
}

/// Writes a terminal size.
fn write_size(size: &TerminalSize) -> (json: Json)
    ensures
        json@ == size_tree(size@),
        size@.valid(),
{
    let mut members = object("cols", Json::Number(size.cols() as u64));
    push(&mut members, "rows", Json::Number(size.rows() as u64));
    proof {
        assert(members_tree(members@) =~= size_tree(size@)->Object_0);
    }
    close(members)
}

/// Writes a lease owner.
fn write_owner(owner: &LeaseOwner) -> (json: Json)
    ensures
        json@ == owner_tree(*owner),
{
    match owner {
        LeaseOwner::Local => text("local"),
        LeaseOwner::Browser => text("browser"),
    }
}

/// Writes a control message.
fn write_message(message: &ServerControlMessage) -> (json: Json)
    ensures
        json@ == message_tree(message@),
        message@.valid(),
{
    let members = match message {
        ServerControlMessage::Ready => object("type", text("ready")),
        ServerControlMessage::LeaseChanged { owner, epoch } => {
            let mut members = object("type", text("leaseChanged"));
            push(&mut members, "owner", write_owner(owner));
            push(&mut members, "epoch", Json::Number(*epoch));
            members
        },
        ServerControlMessage::SizeChanged { size } => {
            let mut members = object("type", text("sizeChanged"));
            push(&mut members, "size", write_size(size));
            members
        },
        ServerControlMessage::ProcessExited => object("type", text("processExited")),
        ServerControlMessage::Warning { message } => {
            let mut members = object("type", text("warning"));
            push(&mut members, "message", text(message.as_str()));
            members
        },
        ServerControlMessage::Error { message } => {
            let mut members = object("type", text("error"));
            push(&mut members, "message", text(message.as_str()));
            members
        },
    };
    proof {
        assert(members_tree(members@) =~= message_tree(message@)->Object_0);
    }
    close(members)
}

/// Writes a close reason.
fn write_reason(reason: &TunnelCloseReason) -> (json: Json)
    ensures
        json@ == reason_tree(reason@),
        reason@.valid(),
{
    let members = match reason {
        TunnelCloseReason::Supervisor => object("reason", text("supervisor")),
        TunnelCloseReason::ClientDisconnect => object("reason", text("clientDisconnect")),
        TunnelCloseReason::ControllerReplaced => object("reason", text("controllerReplaced")),
        TunnelCloseReason::ChildExit => object("reason", text("childExit")),
        TunnelCloseReason::RuntimeError(message) => {
            let mut members = object("reason", text("runtimeError"));
            push(&mut members, "detail", text(message.as_str()));
            members
        },
    };
    proof {
        assert(members_tree(members@) =~= reason_tree(reason@)->Object_0);
    }
    close(members)
}

/// Writes a runtime control.
fn write_control(control: &TunnelRuntimeControl) -> (json: Json)
    ensures
        json@ == control_tree(control@),
        control@.valid(),
{
    let members = match control {
        TunnelRuntimeControl::Server { message } => {
            let mut members = object("type", text("server"));
            push(&mut members, "message", write_message(message));
            members
        },
        TunnelRuntimeControl::Closed { reason } => {
            let mut members = object("type", text("closed"));
            push(&mut members, "reason", write_reason(reason));
            members
        },
    };
    proof {
        assert(members_tree(members@) =~= control_tree(control@)->Object_0);
    }
    close(members)
}

impl TunnelFrame {
    /// Writes the frame as a JSON value.
    pub fn to_json(&self) -> (json: Json)
        ensures
            json@ == frame_tree(self@),
            self@.valid(),
    {
        let members = match self {
            TunnelFrame::RegisterSession { session, command_display, size } => {
                let mut members = object("type", text("registerSession"));
                push(&mut members, "session", text(session.as_str()));
                push(&mut members, "commandDisplay", text(command_display.as_str()));
                push(&mut members, "size", write_size(size));
                members
            },
            TunnelFrame::AttachBrowser { client_id } => {
                let mut members = object("type", text("attachBrowser"));
                push(&mut members, "clientId", Json::Number(client_id.get()));
                members
            },
            TunnelFrame::DetachBrowser { client_id } => {
                let mut members = object("type", text("detachBrowser"));
                push(&mut members, "clientId", Json::Number(client_id.get()));
                members
            },
            TunnelFrame::BrowserInput { client_id, bytes } => {
                let mut members = object("type", text("browserInput"));
                push(&mut members, "clientId", Json::Number(client_id.get()));
                push(&mut members, "bytes", write_bytes(bytes));
                members
            },
            TunnelFrame::BrowserResize { client_id, size } => {
                let mut members = object("type", text("browserResize"));
                push(&mut members, "clientId", Json::Number(client_id.get()));
                push(&mut members, "size", write_size(size));
                members
            },
            TunnelFrame::PtyOutput { bytes } => {
                let mut members = object("type", text("ptyOutput"));
                push(&mut members, "bytes", write_bytes(bytes));
                members
            },
            TunnelFrame::RuntimeControl { client_id, control } => {
                let mut members = object("type", text("runtimeControl"));
                push(&mut members, "clientId", write_client(client_id));
                push(&mut members, "control", write_control(control));
                members
            },
            TunnelFrame::Heartbeat { sequence } => {
                let mut members = object("type", text("heartbeat"));
                push(&mut members, "sequence", Json::Number(sequence.get()));
                members
            },
        };
        proof {
            assert(members_tree(members@) =~= frame_tree(self@)->Object_0);
        }
        close(members)
    }
}

} // verus!
