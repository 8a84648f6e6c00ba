//! What stands in the JSON form of each frame, stated of what goes into a call and what
//! comes out of it.
use crate::codec::JsonTunnelCodec;
use crate::json::{text_tree, Json, JsonTree};
use crate::octets::octets;
use crate::protocol::{
    HeartbeatSequence, LeaseOwner, MessageView, SafeMessage, ServerControlMessage, SessionName,
    SizeView, TerminalSize,
};
use crate::runtime::{
    ClientId, ClientOutput, CommandView, OutputView, RuntimeCommand, ShutdownReason, ShutdownView,
};
use crate::tunnel::{
    ActionView, ControlView, FrameView, PayloadView, ReasonView, RuntimeTunnelAction,
    TunnelCloseReason, TunnelCodec, TunnelError, TunnelFrame, TunnelPayload, TunnelRuntimeControl,
    TunnelTerminalPayload,
};
use crate::wire::{control_tree, frame_tree, message_tree, reason_tree, size_tree};
use vstd::prelude::*;

verus! {

/// The view of a frame is of the same kind and carries what the frame carries.
pub proof fn law_frame_views_carry_everything(frame: TunnelFrame)
    ensures
        frame matches TunnelFrame::RegisterSession { session, command_display, size } ==> frame@
            == (FrameView::RegisterSession {
            session: session@,
            command_display: command_display@,
            size: size@,
        }),
        frame matches TunnelFrame::AttachBrowser { client_id } ==> frame@ == (
        FrameView::AttachBrowser { client_id: client_id@ }),
        frame matches TunnelFrame::DetachBrowser { client_id } ==> frame@ == (
        FrameView::DetachBrowser { client_id: client_id@ }),
        frame matches TunnelFrame::BrowserInput { client_id, bytes } ==> frame@ == (
        FrameView::BrowserInput { client_id: client_id@, bytes: bytes@ }),
        frame matches TunnelFrame::BrowserResize { client_id, size } ==> frame@ == (
        FrameView::BrowserResize { client_id: client_id@, size: size@ }),
        frame matches TunnelFrame::PtyOutput { bytes } ==> frame@ == (FrameView::PtyOutput {
            bytes: bytes@,
        }),
        frame matches TunnelFrame::RuntimeControl { client_id: Some(client_id), control } ==> frame@
            == (FrameView::RuntimeControl { client_id: Some(client_id@), control: control@ }),
        frame matches TunnelFrame::RuntimeControl { client_id: None, control } ==> frame@ == (
        FrameView::RuntimeControl { client_id: None, control: control@ }),
        frame matches TunnelFrame::Heartbeat { sequence } ==> frame@ == (FrameView::Heartbeat {
            sequence: sequence@,
        }),
{
}

/// The view of a runtime control carries what the control carries.
pub proof fn law_control_views_carry_everything(control: TunnelRuntimeControl)
    ensures
        control matches TunnelRuntimeControl::Server { message } ==> control@ == (
        ControlView::Server { message: message@ }),
        control matches TunnelRuntimeControl::Closed { reason } ==> control@ == (
        ControlView::Closed { reason: reason@ }),
{
}

/// The view of a close reason carries what the reason carries.
pub proof fn law_reason_views_carry_everything(reason: TunnelCloseReason, cause: ShutdownReason)
    ensures
        reason is Supervisor <==> reason@ is Supervisor,
        reason is ClientDisconnect <==> reason@ is ClientDisconnect,
        reason is ControllerReplaced <==> reason@ is ControllerReplaced,
        reason is ChildExit <==> reason@ is ChildExit,
        reason matches TunnelCloseReason::RuntimeError(message) ==> reason@
            == ReasonView::RuntimeError(message@),
        cause is Supervisor <==> cause@ is Supervisor,
        cause is ClientDisconnect <==> cause@ is ClientDisconnect,
        cause is ControllerReplaced <==> cause@ is ControllerReplaced,
        cause is ChildExit <==> cause@ is ChildExit,
        cause matches ShutdownReason::RuntimeError(message) ==> cause@
            == ShutdownView::RuntimeError(message@),
{
}

/// The view of a control message carries what the message carries.
pub proof fn law_message_views_carry_everything(message: ServerControlMessage)
    ensures
        message is Ready <==> message@ is Ready,
        message is ProcessExited <==> message@ is ProcessExited,
        message matches ServerControlMessage::LeaseChanged { owner, epoch } ==> message@ == (
        MessageView::LeaseChanged { owner, epoch }),
        message matches ServerControlMessage::SizeChanged { size } ==> message@ == (
        MessageView::SizeChanged { size: size@ }),
        message matches ServerControlMessage::Warning { message: text } ==> message@ == (
        MessageView::Warning { message: text@ }),
        message matches ServerControlMessage::Error { message: text } ==> message@ == (
        MessageView::Error { message: text@ }),
{
}

/// The views of outputs, commands and actions carry what these carry.
pub proof fn law_runtime_views_carry_everything(
    output: ClientOutput,
    command: RuntimeCommand,
    action: RuntimeTunnelAction,
)
    ensures
        output matches ClientOutput::Bytes(bytes) ==> output@ == OutputView::Bytes(octets(bytes)),
        output matches ClientOutput::Control(message) ==> output@ == OutputView::Control(message@),
        output matches ClientOutput::Closed(reason) ==> output@ == OutputView::Closed(reason@),
        command matches RuntimeCommand::AttachClient { client_id, output } ==> command@ == (
        CommandView::AttachClient { client_id: client_id@, output }),
        command matches RuntimeCommand::DetachClient { client_id } ==> command@ == (
        CommandView::DetachClient { client_id: client_id@ }),
        command matches RuntimeCommand::Input { client_id, bytes } ==> command@ == (
        CommandView::Input { client_id: client_id@, bytes: octets(bytes) }),
        command matches RuntimeCommand::BrowserResize { client_id, size } ==> command@ == (
        CommandView::BrowserResize { client_id: client_id@, size: size@ }),
        action matches RuntimeTunnelAction::AttachBrowser { client_id } ==> action@ == (
        ActionView::AttachBrowser { client_id: client_id@ }),
        action matches RuntimeTunnelAction::Command(command) ==> action@ == ActionView::Command(
            command@,
        ),
        action is NoAction <==> action@ is NoAction,
{
}

/// The view of a transport payload carries what the payload carries.
pub proof fn law_payload_views_carry_everything(payload: TunnelPayload)
    ensures
        payload matches TunnelPayload::Text(text) ==> payload@ == PayloadView::Text(text@),
        payload matches TunnelPayload::Binary(bytes) ==> payload@ == PayloadView::Binary(
            octets(bytes),
        ),
{
}

/// A session is announced by its name, its command and its size, each under its own name.
pub proof fn law_register_frames_are_written(
    session: SessionName,
    command_display: SafeMessage,
    size: TerminalSize,
    json: Json,
)
    requires
        call_ensures(
            TunnelFrame::to_json,
            (&TunnelFrame::RegisterSession { session, command_display, size },),
            json,
        ),
    ensures
        json@ == JsonTree::Object(
            seq![
                ("type"@, JsonTree::Text("registerSession"@)),
                ("session"@, JsonTree::Text(session@)),
                ("commandDisplay"@, JsonTree::Text(command_display@)),
                (
                    "size"@,
                    JsonTree::Object(
                        seq![
                            ("cols"@, JsonTree::Number(size@.cols as u64)),
                            ("rows"@, JsonTree::Number(size@.rows as u64)),
                        ],
                    ),
                ),
            ],
        ),
{
}

/// An attach frame is written with the number of its client.
pub proof fn law_attach_frames_are_written(client_id: ClientId, json: Json)
    requires
        call_ensures(TunnelFrame::to_json, (&TunnelFrame::AttachBrowser { client_id },), json),
    ensures
        json@ == JsonTree::Object(
            seq![
                ("type"@, JsonTree::Text("attachBrowser"@)),
                ("clientId"@, JsonTree::Number(client_id@)),
            ],
        ),
{
}

/// A detach frame is written with the number of its client.
pub proof fn law_detach_frames_are_written(client_id: ClientId, json: Json)
    requires
        call_ensures(TunnelFrame::to_json, (&TunnelFrame::DetachBrowser { client_id },), json),
    ensures
        json@ == JsonTree::Object(
            seq![
                ("type"@, JsonTree::Text("detachBrowser"@)),
                ("clientId"@, JsonTree::Number(client_id@)),
            ],
        ),
{
}

/// Input is written with the number of its client and with its bytes in order: item `i`
/// of the array is byte `i` of the payload.
pub proof fn law_input_frames_are_written(
    client_id: ClientId,
    payload: TunnelTerminalPayload,
    json: Json,
)
    requires
        call_ensures(
            TunnelFrame::to_json,
            (&TunnelFrame::BrowserInput { client_id, bytes: payload },),
            json,
        ),
    ensures
        ({
            &&& json@ matches JsonTree::Object(members)
            &&& members.len() == 3
            &&& members[0] == ("type"@, JsonTree::Text("browserInput"@))
            &&& members[1] == ("clientId"@, JsonTree::Number(client_id@))
            &&& members[2].0 == "bytes"@
            &&& members[2].1 matches JsonTree::Array(items)
            &&& items.len() == payload@.len()
            &&& forall|i: int|
                0 <= i < items.len() ==> #[trigger] items[i] == JsonTree::Number(
                    payload@[i] as u64,
                )
        }),
{
}

/// A proposed size is written with the number of its client, its columns under `cols` and
/// its rows under `rows`.
pub proof fn law_resize_frames_are_written(client_id: ClientId, size: TerminalSize, json: Json)
    requires
        call_ensures(
            TunnelFrame::to_json,
            (&TunnelFrame::BrowserResize { client_id, size },),
            json,
        ),
    ensures
        json@ == JsonTree::Object(
            seq![
                ("type"@, JsonTree::Text("browserResize"@)),
                ("clientId"@, JsonTree::Number(client_id@)),
                (
                    "size"@,
                    JsonTree::Object(
                        seq![
                            ("cols"@, JsonTree::Number(size@.cols as u64)),
                            ("rows"@, JsonTree::Number(size@.rows as u64)),
                        ],
                    ),
                ),
            ],
        ),
{
}

/// Output is written with its bytes in order: item `i` of the array is byte `i` of the
/// payload.
pub proof fn law_output_frames_are_written(payload: TunnelTerminalPayload, json: Json)
    requires
        call_ensures(TunnelFrame::to_json, (&TunnelFrame::PtyOutput { bytes: payload },), json),
    ensures
        ({
            &&& json@ matches JsonTree::Object(members)
            &&& members.len() == 2
            &&& members[0] == ("type"@, JsonTree::Text("ptyOutput"@))
            &&& members[1].0 == "bytes"@
            &&& members[1].1 matches JsonTree::Array(items)
            &&& items.len() == payload@.len()
            &&& forall|i: int|
                0 <= i < items.len() ==> #[trigger] items[i] == JsonTree::Number(
                    payload@[i] as u64,
                )
        }),
{
}

/// A runtime control is written with the number of its client, or null where it concerns
/// no single one.
pub proof fn law_control_frames_are_written(
    client_id: Option<ClientId>,
    control: TunnelRuntimeControl,
    json: Json,
)
    requires
        call_ensures(
            TunnelFrame::to_json,
            (&TunnelFrame::RuntimeControl { client_id, control },),
            json,
        ),
    ensures
        ({
            &&& json@ matches JsonTree::Object(members)
            &&& members.len() == 3
            &&& members[0] == ("type"@, JsonTree::Text("runtimeControl"@))
            &&& members[1].0 == "clientId"@
            &&& client_id is None ==> members[1].1 == JsonTree::Null
            &&& client_id matches Some(client_id) ==> members[1].1 == JsonTree::Number(client_id@)
            &&& members[2] == ("control"@, control_tree(control@))
        }),
{
}

/// A heartbeat is written with its number.
pub proof fn law_heartbeat_frames_are_written(sequence: HeartbeatSequence, json: Json)
    requires
        call_ensures(TunnelFrame::to_json, (&TunnelFrame::Heartbeat { sequence },), json),
    ensures
        json@ == JsonTree::Object(
            seq![
                ("type"@, JsonTree::Text("heartbeat"@)),
                ("sequence"@, JsonTree::Number(sequence@)),
            ],
        ),
{
}

/// A runtime control is written with its message or its reason.
pub proof fn law_controls_are_written(message: MessageView, reason: ReasonView)
    ensures
        control_tree(ControlView::Server { message }) == JsonTree::Object(
            seq![("type"@, JsonTree::Text("server"@)), ("message"@, message_tree(message))],
        ),
        control_tree(ControlView::Closed { reason }) == JsonTree::Object(
            seq![("type"@, JsonTree::Text("closed"@)), ("reason"@, reason_tree(reason))],
        ),
{
}

/// Each close reason is written under its own name, and a failure with its message.
pub proof fn law_reasons_are_written(message: Seq<char>)
    ensures
        reason_tree(ReasonView::Supervisor) == JsonTree::Object(
            seq![("reason"@, JsonTree::Text("supervisor"@))],
        ),
        reason_tree(ReasonView::ClientDisconnect) == JsonTree::Object(
            seq![("reason"@, JsonTree::Text("clientDisconnect"@))],
        ),
        reason_tree(ReasonView::ControllerReplaced) == JsonTree::Object(
            seq![("reason"@, JsonTree::Text("controllerReplaced"@))],
        ),
        reason_tree(ReasonView::ChildExit) == JsonTree::Object(
            seq![("reason"@, JsonTree::Text("childExit"@))],
        ),
        reason_tree(ReasonView::RuntimeError(message)) == JsonTree::Object(
            seq![
                ("reason"@, JsonTree::Text("runtimeError"@)),
                ("detail"@, JsonTree::Text(message)),
            ],
        ),
{
}

/// Each control message is written under its own name, with its parts under theirs.
pub proof fn law_messages_are_written(
    owner: LeaseOwner,
    epoch: u64,
    size: SizeView,
    message: Seq<char>,
)
    ensures
        message_tree(MessageView::Ready) == JsonTree::Object(
            seq![("type"@, JsonTree::Text("ready"@))],
        ),
        message_tree(MessageView::ProcessExited) == JsonTree::Object(
            seq![("type"@, JsonTree::Text("processExited"@))],
        ),
        message_tree(MessageView::LeaseChanged { owner, epoch }) == JsonTree::Object(
            seq![
                ("type"@, JsonTree::Text("leaseChanged"@)),
                (
                    "owner"@,
                    JsonTree::Text(
                        if owner == LeaseOwner::Local {
                            "local"@
                        } else {
                            "browser"@
                        },
                    ),
                ),
                ("epoch"@, JsonTree::Number(epoch)),
            ],
        ),
        message_tree(MessageView::SizeChanged { size }) == JsonTree::Object(
            seq![
                ("type"@, JsonTree::Text("sizeChanged"@)),
                (
                    "size"@,
                    JsonTree::Object(
                        seq![
                            ("cols"@, JsonTree::Number(size.cols as u64)),
                            ("rows"@, JsonTree::Number(size.rows as u64)),
                        ],
                    ),
                ),
            ],
        ),
        message_tree(MessageView::Warning { message }) == JsonTree::Object(
            seq![("type"@, JsonTree::Text("warning"@)), ("message"@, JsonTree::Text(message))],
        ),
        message_tree(MessageView::Error { message }) == JsonTree::Object(
            seq![("type"@, JsonTree::Text("error"@)), ("message"@, JsonTree::Text(message))],
        ),
{
}

/// A terminal size is written with its columns under `cols` and its rows under `rows`.
pub proof fn law_sizes_are_written(size: SizeView)
    ensures
        size_tree(size) == JsonTree::Object(
            seq![
                ("cols"@, JsonTree::Number(size.cols as u64)),
                ("rows"@, JsonTree::Number(size.rows as u64)),
            ],
        ),
{
}

/// Encoding gives a text that is read as the JSON form of the frame, the one that the
/// frame is written as.
pub proof fn law_encoded_texts_hold_the_written_form(
    codec: JsonTunnelCodec,
    frame: TunnelFrame,
    json: Json,
    result: Result<TunnelPayload, TunnelError>,
)
    requires
        call_ensures(TunnelFrame::to_json, (&frame,), json),
        call_ensures(<JsonTunnelCodec as TunnelCodec>::encode, (&codec, &frame), result),
    ensures
        ({
            &&& result matches Ok(payload)
            &&& payload matches TunnelPayload::Text(text)
            &&& text_tree(text@) matches Ok(tree)
            &&& tree == json@
            &&& tree == frame_tree(frame@)
        }),
{
}

} // verus!
