//! Reading tunnel frames out of JSON values.
use crate::json::{items_tree, lemma_tree_of_parts, Json, JsonTree};
use crate::members::{
    field_tree, find_fields, find_tag, find_unit_variant, find_variant, texts,
};
use crate::octets::from_vec;
use crate::protocol::{
    HeartbeatSequence, LeaseOwner, SafeMessage, ServerControlMessage, SessionName, TerminalSize,
};
use crate::runtime::ClientId;
use crate::tunnel::{
    client_number, TunnelCloseReason, TunnelFrame, TunnelRuntimeControl, TunnelTerminalPayload,
    TUNNEL_TERMINAL_PAYLOAD_MAX_BYTES,
};
use crate::wire::{
    bytes_from, client_from, control_from, control_names, frame_fields, frame_from, frame_names,
    is_byte, message_from, message_names, message_text_from, number_from, owner_from, owner_names,
    reason_fields, reason_from, reason_names, reason_of, session_from, short_from, size_from,
};
use vstd::prelude::*;
use vstd::string::*;

verus! {

/// Reads a number.
fn read_number(field: Option<&Json>) -> (number: Option<u64>)
    ensures
        number == number_from(field_tree(field)),
{
    match field {
        Some(Json::Number(number)) => Some(*number),
        _ => None,
    }
}

/// Reads a number of 16 bits.
fn read_short(field: Option<&Json>) -> (number: Option<u16>)
    ensures
        number == short_from(field_tree(field)),
{
    match read_number(field) {
        Some(number) => if number <= u16::MAX as u64 {
            Some(number as u16)
        } else {
            None
        },
        None => None,
    }
}

/// Reads a session name.
fn read_session(field: Option<&Json>) -> (session: Option<SessionName>)
    ensures
        match session {
            Some(session) => session_from(field_tree(field)) == Some(session@),
            None => session_from(field_tree(field)) is None,
        },
{
    match field {
        Some(Json::Text(text)) => match SessionName::new(text.clone()) {
            Ok(session) => Some(session),
            Err(_) => None,
        },
        _ => None,
    }
}

/// Reads a message text.
fn read_text(field: Option<&Json>) -> (message: Option<SafeMessage>)
    ensures
        match message {
            Some(message) => message_text_from(field_tree(field)) == Some(message@),
            None => message_text_from(field_tree(field)) is None,
        },
{
    match field {
        Some(Json::Text(text)) => match SafeMessage::new(text.clone()) {
            Ok(message) => Some(message),
            Err(_) => None,
        },
        _ => None,
    }
}

/// Reads a terminal size.
pub(crate) fn read_size(field: Option<&Json>) -> (size: Option<TerminalSize>)
    ensures
        match size {
            Some(size) => size_from(field_tree(field)) == Some(size@),
            None => size_from(field_tree(field)) is None,
        },
{
    let names = ["cols", "rows"];
    proof {
        assert(texts(names@) =~= seq!["cols"@, "rows"@]);
    }
    let json = field?;
    let fields = find_fields(json, false, &names)?;
    let cols = read_short(fields[0])?;
    let rows = read_short(fields[1])?;
    match TerminalSize::new(cols, rows) {
        Ok(size) => Some(size),
        Err(_) => None,
    }
}

/// Reads a lease owner.
fn read_owner(field: Option<&Json>) -> (owner: Option<LeaseOwner>)
    ensures
        owner == owner_from(field_tree(field)),
{
    let names = ["local", "browser"];
    proof {
        assert(texts(names@) =~= owner_names());
    }
    let place = find_unit_variant(field?, &names)?;
    if place == 0 {
        Some(LeaseOwner::Local)
    } else {
        Some(LeaseOwner::Browser)
    }
}

/// Reads a client id that may be absent or null.
fn read_client(field: Option<&Json>) -> (client_id: Option<Option<ClientId>>)
    ensures
        match client_id {
            Some(client_id) => client_from(field_tree(field)) == Some(client_number(client_id)),
            None => client_from(field_tree(field)) is None,
        },
{
    match field {
        None => Some(None),
        Some(Json::Null) => Some(None),
        Some(Json::Number(number)) => Some(Some(ClientId::new(*number))),
        _ => None,
    }
}

/// Reads terminal bytes.
fn read_bytes(field: Option<&Json>) -> (payload: Option<TunnelTerminalPayload>)
    ensures
        match payload {
            Some(payload) => bytes_from(field_tree(field)) == Some(payload@),
            None => bytes_from(field_tree(field)) is None,
        },
{
    match field {
        Some(Json::Array(items)) => {
            proof {
                lemma_tree_of_parts(*field->0);
            }
            let ghost trees = items_tree(items@);
            let mut bytes: Vec<u8> = Vec::new();
            for i in 0..items.len()
                invariant
                    trees == items_tree(items@),
                    field_tree(field) == Some(JsonTree::Array(trees)),
                    bytes@.len() == i,
                    forall|j: int|
                        0 <= j < i ==> is_byte(#[trigger] trees[j]) && trees[j]->Number_0
                            == bytes@[j],
            {
                proof {
                    assert(trees[i as int] == items@[i as int]@);
                }
                match &items[i] {
                    Json::Number(number) if *number <= u8::MAX as u64 => {
                        bytes.push(*number as u8);
                    },
                    _ => {
                        return None;
                    },
                }
            }
            proof {
                assert(items@.len() <= TUNNEL_TERMINAL_PAYLOAD_MAX_BYTES ==> bytes_from(
                    field_tree(field),
                )->0 =~= bytes@);
            }
            match TunnelTerminalPayload::new(from_vec(bytes)) {
                Ok(payload) => Some(payload),
                Err(_) => None,
            }
        },
        _ => None,
    }
}

/// Reads a control message.
fn read_message(field: Option<&Json>) -> (message: Option<ServerControlMessage>)
    ensures
        match message {
            Some(message) => message_from(field_tree(field)) == Some(message@),
            None => message_from(field_tree(field)) is None,
        },
{
    let names = ["ready", "leaseChanged", "sizeChanged", "processExited", "warning", "error"];
    proof {
        assert(texts(names@) =~= message_names());
    }
    let json = field?;
    let tag = find_tag(json)?;
    let variant = find_variant(tag, &names, true)?;
    match variant {
        0 | 3 => {
            let none: [&str; 0] = [];
            proof {
                assert(texts(none@) =~= seq![]);
            }
            let _ = find_fields(json, true, &none)?;
            if variant == 0 {
                Some(ServerControlMessage::Ready)
            } else {
                Some(ServerControlMessage::ProcessExited)
            }
        },
        1 => {
            let parts = ["owner", "epoch"];
            proof {
                assert(texts(parts@) =~= seq!["owner"@, "epoch"@]);
            }
            let fields = find_fields(json, true, &parts)?;
            let owner = read_owner(fields[0])?;
            let epoch = read_number(fields[1])?;
            Some(ServerControlMessage::LeaseChanged { owner, epoch })
        },
        2 => {
            let parts = ["size"];
            proof {
                assert(texts(parts@) =~= seq!["size"@]);
            }
            let fields = find_fields(json, true, &parts)?;
            let size = read_size(fields[0])?;
            Some(ServerControlMessage::SizeChanged { size })
        },
        _ => {
            let parts = ["message"];
            proof {
                assert(texts(parts@) =~= seq!["message"@]);
            }
            let fields = find_fields(json, true, &parts)?;
            let message = read_text(fields[0])?;
            if variant == 4 {
                Some(ServerControlMessage::Warning { message })
            } else {
                Some(ServerControlMessage::Error { message })
            }
        },
    }
}

/// Reads a close reason of a known variant.
fn read_reason_of(variant: usize, detail: Option<&Json>) -> (reason: Option<TunnelCloseReason>)
    ensures
        match reason {
            Some(reason) => reason_of(variant as int, field_tree(detail)) == Some(reason@),
            None => reason_of(variant as int, field_tree(detail)) is None,
        },
{
    if variant == 4 {
        let message = read_text(detail)?;
        return Some(TunnelCloseReason::RuntimeError(message));
    }
    match detail {
        None => {},
        Some(Json::Null) => {},
        _ => {
            return None;
        },
    }
    match variant {
        0 => Some(TunnelCloseReason::Supervisor),
        1 => Some(TunnelCloseReason::ClientDisconnect),
        2 => Some(TunnelCloseReason::ControllerReplaced),
        _ => Some(TunnelCloseReason::ChildExit),
    }
}

/// Reads a close reason.
fn read_reason(field: Option<&Json>) -> (reason: Option<TunnelCloseReason>)
    ensures
        match reason {
            Some(reason) => reason_from(field_tree(field)) == Some(reason@),
            None => reason_from(field_tree(field)) is None,
        },
{
    let names = [
        "supervisor",
        "clientDisconnect",
        "controllerReplaced",
        "childExit",
        "runtimeError",
    ];
    let parts = ["reason", "detail"];
    proof {
        assert(texts(names@) =~= reason_names());
        assert(texts(parts@) =~= reason_fields());
    }
    let json = field?;
    let fields = find_fields(json, false, &parts)?;
    let tag = fields[0]?;
    let variant = match json {
        Json::Array(_) => find_variant(tag, &names, true)?,
        _ => find_unit_variant(tag, &names)?,
    };
    read_reason_of(variant, fields[1])
}

/// Reads a runtime control.
fn read_control(field: Option<&Json>) -> (control: Option<TunnelRuntimeControl>)
    ensures
        match control {
            Some(control) => control_from(field_tree(field)) == Some(control@),
            None => control_from(field_tree(field)) is None,
        },
{
    let names = ["server", "closed"];
    proof {
        assert(texts(names@) =~= control_names());
    }
    let json = field?;
    let tag = find_tag(json)?;
    let variant = find_variant(tag, &names, true)?;
    if variant == 0 {
        let parts = ["message"];
        proof {
            assert(texts(parts@) =~= seq!["message"@]);
        }
        let fields = find_fields(json, true, &parts)?;
        let message = read_message(fields[0])?;
        Some(TunnelRuntimeControl::Server { message })
    } else {
        let parts = ["reason"];
        proof {
            assert(texts(parts@) =~= seq!["reason"@]);
        }
        let fields = find_fields(json, true, &parts)?;
        let reason = read_reason(fields[0])?;
        Some(TunnelRuntimeControl::Closed { reason })
    }
}

impl TunnelFrame {
    /// Reads a frame out of a JSON value, or returns `None` where the value is no frame.
    pub fn from_json(json: &Json) -> (frame: Option<TunnelFrame>)
        ensures
            match frame {
                Some(frame) => frame_from(json@) == Some(frame@),
                None => frame_from(json@) is None,
            },
    {
        let names = [
            "registerSession",
            "attachBrowser",
            "detachBrowser",
            "browserInput",
            "browserResize",
            "ptyOutput",
            "runtimeControl",
            "heartbeat",
        ];
        proof {
            assert(texts(names@) =~= frame_names());
        }
        let tag = find_tag(json)?;
        let variant = find_variant(tag, &names, false)?;
        match variant {
            0 => {
                let parts = ["session", "commandDisplay", "size"];
                proof {
                    assert(texts(parts@) =~= frame_fields(0));
                }
                let fields = find_fields(json, true, &parts)?;
                let session = read_session(fields[0])?;
                let command_display = read_text(fields[1])?;
                let size = read_size(fields[2])?;
                Some(TunnelFrame::RegisterSession { session, command_display, size })
            },
            1 => {
                let parts = ["clientId"];
                proof {
                    assert(texts(parts@) =~= frame_fields(1));
                }
                let fields = find_fields(json, true, &parts)?;
                let client_id = ClientId::new(read_number(fields[0])?);
                Some(TunnelFrame::AttachBrowser { client_id })
            },
            2 => {
                let parts = ["clientId"];
                proof {
                    assert(texts(parts@) =~= frame_fields(2));
                }
                let fields = find_fields(json, true, &parts)?;
                let client_id = ClientId::new(read_number(fields[0])?);
                Some(TunnelFrame::DetachBrowser { client_id })
            },
            3 => {
                let parts = ["clientId", "bytes"];
                proof {
                    assert(texts(parts@) =~= frame_fields(3));
                }
                let fields = find_fields(json, true, &parts)?;
                let client_id = ClientId::new(read_number(fields[0])?);
                let bytes = read_bytes(fields[1])?;
                Some(TunnelFrame::BrowserInput { client_id, bytes })
            },
            4 => {
                let parts = ["clientId", "size"];
                proof {
                    assert(texts(parts@) =~= frame_fields(4));
                }
                let fields = find_fields(json, true, &parts)?;
                let client_id = ClientId::new(read_number(fields[0])?);
                let size = read_size(fields[1])?;
                Some(TunnelFrame::BrowserResize { client_id, size })
            },
            5 => {
                let parts = ["bytes"];
                proof {
                    assert(texts(parts@) =~= frame_fields(5));
                }
                let fields = find_fields(json, true, &parts)?;
                let bytes = read_bytes(fields[0])?;
                Some(TunnelFrame::PtyOutput { bytes })
            },
            6 => {
                let parts = ["clientId", "control"];
                proof {
                    assert(texts(parts@) =~= frame_fields(6));
                }
                let fields = find_fields(json, true, &parts)?;
                let client_id = read_client(fields[0])?;
                let control = read_control(fields[1])?;
                Some(TunnelFrame::RuntimeControl { client_id, control })
            },
            _ => {
                let parts = ["sequence"];
                proof {
                    assert(texts(parts@) =~= frame_fields(variant as int));
                }
                let fields = find_fields(json, true, &parts)?;
                let sequence = HeartbeatSequence::new(read_number(fields[0])?);
                Some(TunnelFrame::Heartbeat { sequence })
            },
        }
    }
}

} // verus!
