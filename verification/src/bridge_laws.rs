//! What holds of the operations on payloads, protocol values and the bridge, stated of
//! what goes into a call and what comes out of it.
use crate::errors::decimal_digits;
use crate::octets::octets;
use crate::protocol::{
    HeartbeatSequence, ProtocolError, SafeMessage, ServerControlMessage,
    SessionName, TerminalSize,
};
use crate::runtime::{ClientId, ClientOutput, ClientOutputTx, RuntimeCommand, ShutdownReason};
use crate::tunnel::{
    RuntimeTunnelAction, RuntimeTunnelBridge, TunnelCloseReason, TunnelError, TunnelFrame, TunnelPayload,
    TunnelRuntimeControl, TunnelTerminalPayload,
};
use bytes::Bytes;
use vstd::prelude::*;
use vstd::utf8::*;

verus! {

/// A browser that attaches is attached under its own client id.
pub proof fn law_attach_frames_attach(client_id: ClientId, action: RuntimeTunnelAction)
    requires
        call_ensures(
            RuntimeTunnelBridge::action_from_frame,
            (TunnelFrame::AttachBrowser { client_id },),
            action,
        ),
    ensures
        action == (RuntimeTunnelAction::AttachBrowser { client_id }),
{
}

/// A browser that detaches is detached under its own client id.
pub proof fn law_detach_frames_detach(client_id: ClientId, action: RuntimeTunnelAction)
    requires
        call_ensures(
            RuntimeTunnelBridge::action_from_frame,
            (TunnelFrame::DetachBrowser { client_id },),
            action,
        ),
    ensures
        action == RuntimeTunnelAction::Command((RuntimeCommand::DetachClient { client_id })),
{
}

/// Input of a browser, whatever its length, is fed to the terminal for the same client,
/// with the bytes that the frame carries.
pub proof fn law_input_frames_feed_input(
    client_id: ClientId,
    payload: TunnelTerminalPayload,
    action: RuntimeTunnelAction,
    handed: Bytes,
)
    requires
        call_ensures(
            RuntimeTunnelBridge::action_from_frame,
            (TunnelFrame::BrowserInput { client_id, bytes: payload },),
            action,
        ),
        call_ensures(TunnelTerminalPayload::into_bytes, (payload,), handed),
    ensures
        action == RuntimeTunnelAction::Command(
            (RuntimeCommand::Input { client_id, bytes: handed }),
        ),
        octets(handed) == payload@,
{
}

/// The size that a browser proposes reaches the runtime for the same client, with the
/// same columns and rows.
pub proof fn law_resize_frames_resize(
    client_id: ClientId,
    size: TerminalSize,
    action: RuntimeTunnelAction,
)
    requires
        call_ensures(
            RuntimeTunnelBridge::action_from_frame,
            (TunnelFrame::BrowserResize { client_id, size },),
            action,
        ),
    ensures
        ({
            &&& action matches RuntimeTunnelAction::Command(command)
            &&& command matches RuntimeCommand::BrowserResize { client_id: scope, size: proposed }
            &&& scope == client_id
            &&& proposed == size
            &&& proposed@.cols == size@.cols
            &&& proposed@.rows == size@.rows
        }),
{
}

/// A command comes from the frame that asks for it, and from no other: a detach from a
/// detach frame, input from an input frame, a size from a resize frame. No frame attaches
/// a client by a command.
pub proof fn law_commands_come_from_their_frames(frame: TunnelFrame, command: RuntimeCommand)
    requires
        call_ensures(
            RuntimeTunnelBridge::action_from_frame,
            (frame,),
            RuntimeTunnelAction::Command(command),
        ),
    ensures
        command matches RuntimeCommand::DetachClient { client_id } ==> frame == (
        TunnelFrame::DetachBrowser { client_id }),
        command matches RuntimeCommand::BrowserResize { client_id, size } ==> frame == (
        TunnelFrame::BrowserResize { client_id, size }),
        command matches RuntimeCommand::Input { client_id, bytes } ==> (frame
            matches TunnelFrame::BrowserInput { client_id: scope, bytes: payload } && scope
            == client_id && payload@ == octets(bytes)),
        !(command is AttachClient),
{
}

/// Frames from the runtime side ask for nothing, and all others ask for something.
pub proof fn law_runtime_frames_ask_for_nothing(frame: TunnelFrame, action: RuntimeTunnelAction)
    requires
        call_ensures(RuntimeTunnelBridge::action_from_frame, (frame,), action),
    ensures
        (action is NoAction) == (frame is RegisterSession || frame is PtyOutput || frame
            is RuntimeControl || frame is Heartbeat),
        action matches RuntimeTunnelAction::AttachBrowser { client_id } ==> frame == (
        TunnelFrame::AttachBrowser { client_id }),
{
}

/// An attach command holds the client and the mailbox that were given.
pub proof fn law_attach_command_holds_its_parts(
    client_id: ClientId,
    output: ClientOutputTx,
    command: RuntimeCommand,
)
    requires
        call_ensures(RuntimeTunnelBridge::attach_command, (client_id, output), command),
    ensures
        ({
            &&& command matches RuntimeCommand::AttachClient { client_id: scope, output: mailbox }
            &&& scope == client_id
            &&& mailbox.mailbox == output.mailbox
        }),
{
}

/// Bytes that the runtime puts out become a frame with those bytes, in the buffer that was
/// given, exactly where there are no more than 65536 of them. More of them are refused.
pub proof fn law_output_bytes_become_output_frames(
    client_id: Option<ClientId>,
    bytes: Bytes,
    result: Result<TunnelFrame, TunnelError>,
)
    requires
        call_ensures(
            RuntimeTunnelBridge::frame_from_output,
            (client_id, ClientOutput::Bytes(bytes)),
            result,
        ),
    ensures
        result is Ok <==> octets(bytes).len() <= 65536,
        result matches Ok(frame) ==> (frame matches TunnelFrame::PtyOutput { bytes: payload }
            && payload@ == octets(bytes) && payload.buffer() == bytes),
        result matches Err(error) ==> error is TerminalPayloadTooLarge,
{
}

/// A control message goes out as it is, to the client that was given.
pub proof fn law_control_output_keeps_its_client(
    client_id: Option<ClientId>,
    message: ServerControlMessage,
    result: Result<TunnelFrame, TunnelError>,
)
    requires
        call_ensures(
            RuntimeTunnelBridge::frame_from_output,
            (client_id, ClientOutput::Control(message)),
            result,
        ),
    ensures
        ({
            &&& result matches Ok(frame)
            &&& frame matches TunnelFrame::RuntimeControl { client_id: scope, control }
            &&& scope == client_id
            &&& control == (TunnelRuntimeControl::Server { message })
        }),
{
}

/// A close goes out to the client that was given, with the reason for which the stream
/// was closed.
pub proof fn law_close_output_keeps_its_client(
    client_id: Option<ClientId>,
    reason: ShutdownReason,
    result: Result<TunnelFrame, TunnelError>,
)
    requires
        call_ensures(
            RuntimeTunnelBridge::frame_from_output,
            (client_id, ClientOutput::Closed(reason)),
            result,
        ),
    ensures
        ({
            &&& result matches Ok(frame)
            &&& frame matches TunnelFrame::RuntimeControl { client_id: scope, control }
            &&& scope == client_id
            &&& control matches TunnelRuntimeControl::Closed { reason: close }
            &&& says_the_same(reason, close)
        }),
{
}

/// Whether a close reason says what a shutdown reason says: the same reason, with the same
/// message where that has at most 256 bytes and `runtime error` where it has more.
pub open spec fn says_the_same(reason: ShutdownReason, close: TunnelCloseReason) -> bool {
    match reason {
        ShutdownReason::Supervisor => close is Supervisor,
        ShutdownReason::ClientDisconnect => close is ClientDisconnect,
        ShutdownReason::ControllerReplaced => close is ControllerReplaced,
        ShutdownReason::ChildExit => close is ChildExit,
        ShutdownReason::RuntimeError(message) => {
            &&& close matches TunnelCloseReason::RuntimeError(shown)
            &&& encode_utf8(message@).len() <= 256 ==> shown@ == message@
            &&& encode_utf8(message@).len() > 256 ==> shown@ == "runtime error"@
        },
    }
}

/// A close reason says what the shutdown reason says.
pub proof fn law_close_reasons_say_the_same(reason: ShutdownReason, close: TunnelCloseReason)
    requires
        call_ensures(TunnelCloseReason::from_shutdown_reason, (reason,), close),
    ensures
        reason is Supervisor <==> close is Supervisor,
        reason is ClientDisconnect <==> close is ClientDisconnect,
        reason is ControllerReplaced <==> close is ControllerReplaced,
        reason is ChildExit <==> close is ChildExit,
        reason is RuntimeError <==> close is RuntimeError,
        says_the_same(reason, close),
{
}

/// A payload is made exactly of at most 65536 bytes, and gives back what it was made of.
pub proof fn law_payloads_hold_what_they_were_made_of(
    bytes: Bytes,
    result: Result<TunnelTerminalPayload, TunnelError>,
)
    requires
        call_ensures(TunnelTerminalPayload::new, (bytes,), result),
    ensures
        result is Ok <==> octets(bytes).len() <= 65536,
        result matches Err(error) ==> error is TerminalPayloadTooLarge,
        result matches Ok(payload) ==> {
            &&& forall|handed: Bytes|
                #[trigger]
                call_ensures(TunnelTerminalPayload::into_bytes, (payload,), handed) ==> handed
                    == bytes
            &&& forall|shown: &[u8]|
                #[trigger]
                call_ensures(TunnelTerminalPayload::as_bytes, (&payload,), shown) ==> shown@
                    == octets(bytes)
            &&& forall|len: usize|
                #[trigger]
                call_ensures(TunnelTerminalPayload::len, (&payload,), len) ==> len == octets(
                    bytes,
                ).len()
            &&& forall|empty: bool|
                #[trigger]
                call_ensures(TunnelTerminalPayload::is_empty, (&payload,), empty) ==> (empty
                    <==> octets(bytes).len() == 0)
        },
{
}

/// A payload that can be had at all is within the cap.
pub proof fn law_payloads_are_capped(payload: TunnelTerminalPayload, len: usize)
    requires
        call_ensures(TunnelTerminalPayload::len, (&payload,), len),
    ensures
        len <= 65536,
        len == payload@.len(),
{
}

/// The number that decimal digits stand for.
pub open spec fn digits_value(digits: Seq<char>) -> nat
    decreases digits.len(),
{
    if digits.len() == 0 {
        0
    } else {
        (digits_value(digits.drop_last()) * 10 + (digits.last() as u32 - '0' as u32)) as nat
    }
}

/// Whether a text is a number in decimal, without needless zeros.
pub open spec fn is_decimal(digits: Seq<char>) -> bool {
    &&& digits.len() > 0
    &&& digits.len() > 1 ==> digits[0] != '0'
    &&& forall|i: int| 0 <= i < digits.len() ==> '0' <= #[trigger] digits[i] <= '9'
}

proof fn lemma_decimal_digits(number: nat)
    ensures
        is_decimal(decimal_digits(number)),
        digits_value(decimal_digits(number)) == number,
        number > 0 ==> decimal_digits(number)[0] != '0',
    decreases number,
{
    let digits = decimal_digits(number);
    let last = ('0' as u32 + number % 10) as char;
    assert(last as u32 == '0' as u32 + number % 10);
    if number < 10 {
        assert(digits =~= seq![last]);
        assert(digits.drop_last() =~= seq![]);
        assert(digits_value(digits.drop_last()) == 0);
    } else {
        lemma_decimal_digits(number / 10);
        assert(digits =~= decimal_digits(number / 10).push(last));
        assert(digits.drop_last() =~= decimal_digits(number / 10));
    }
}

/// The text for logs is the name of the type with the length in decimal: two payloads of
/// one length have one text, whatever their bytes.
pub proof fn law_debug_text_tells_the_length(payload: TunnelTerminalPayload, text: String)
    requires
        call_ensures(TunnelTerminalPayload::debug_text, (&payload,), text),
    ensures
        exists|digits: Seq<char>|
            #![trigger is_decimal(digits)]
            is_decimal(digits) && digits_value(digits) == payload@.len() && text@
                == "TunnelTerminalPayload { len: "@ + digits + " }"@,
{
    lemma_decimal_digits(payload@.len());
}

/// Each failure is reported by its own message.
pub proof fn law_failures_have_their_messages(error: TunnelError, message: &'static str)
    requires
        call_ensures(TunnelError::message, (&error,), message),
    ensures
        error is TerminalPayloadTooLarge ==> message@
            == "tunnel terminal payload exceeds 65536 bytes"@,
        error is Json ==> message@ == "failed to encode or decode tunnel JSON frame"@,
        error is UnsupportedPayload ==> message@ == "unsupported tunnel payload for codec"@,
{
}

/// A message is made exactly of at most 256 bytes, and shows the text it was made of.
pub proof fn law_messages_show_their_text(
    text: String,
    result: Result<SafeMessage, ProtocolError>,
)
    requires
        call_ensures(SafeMessage::new, (text,), result),
    ensures
        result is Ok <==> encode_utf8(text@).len() <= 256,
        result matches Err(error) ==> error is MessageTooLong,
        result matches Ok(message) ==> forall|shown: &str|
            #[trigger]
            call_ensures(SafeMessage::as_str, (&message,), shown) ==> shown@ == text@,
{
}

/// A fixed message shows the text it was made of.
pub proof fn law_fixed_messages_show_their_text(text: &'static str, message: SafeMessage)
    requires
        call_ensures(SafeMessage::from_static, (text,), message),
    ensures
        forall|shown: &str|
            #[trigger]
            call_ensures(SafeMessage::as_str, (&message,), shown) ==> shown@ == text@,
{
}

/// A session name is made exactly of 1 to 64 letters, digits, underscores, dots and
/// hyphens, and shows the text it was made of.
pub proof fn law_session_names_show_their_text(
    text: String,
    result: Result<SessionName, ProtocolError>,
)
    requires
        call_ensures(SessionName::new, (text,), result),
    ensures
        result is Ok <==> (1 <= text@.len() <= 64 && forall|i: int|
            0 <= i < text@.len() ==> ('A' <= #[trigger] text@[i] <= 'Z' || 'a' <= text@[i] <= 'z'
                || '0' <= text@[i] <= '9' || text@[i] == '_' || text@[i] == '.' || text@[i]
                == '-')),
        result matches Err(error) ==> error is InvalidSessionName,
        result matches Ok(name) ==> forall|shown: &str|
            #[trigger]
            call_ensures(SessionName::as_str, (&name,), shown) ==> shown@ == text@,
{
    if result is Ok {
        assert forall|i: int| 0 <= i < text@.len() implies ('A' <= #[trigger] text@[i] <= 'Z'
            || 'a' <= text@[i] <= 'z' || '0' <= text@[i] <= '9' || text@[i] == '_' || text@[i]
            == '.' || text@[i] == '-') by {
            assert(crate::protocol::is_session_char(text@[i]));
        }
    }
}

/// A terminal size is made exactly of at least one column and one row, and gives both
/// back.
pub proof fn law_sizes_give_back_columns_and_rows(
    cols: u16,
    rows: u16,
    result: Result<TerminalSize, ProtocolError>,
)
    requires
        call_ensures(TerminalSize::new, (cols, rows), result),
    ensures
        result is Ok <==> cols > 0 && rows > 0,
        result matches Err(error) ==> error is InvalidTerminalSize,
        result matches Ok(size) ==> {
            &&& size@.cols == cols
            &&& size@.rows == rows
            &&& forall|wide: u16|
                #[trigger]
                call_ensures(TerminalSize::cols, (&size,), wide) ==> wide == cols
            &&& forall|high: u16|
                #[trigger]
                call_ensures(TerminalSize::rows, (&size,), high) ==> high == rows
        },
{
}

/// A copy of a payload, of a frame or of a transport payload carries the same.
pub proof fn law_copies_carry_the_same(
    payload: TunnelTerminalPayload,
    payload_copy: TunnelTerminalPayload,
    frame: TunnelFrame,
    frame_copy: TunnelFrame,
    carried: TunnelPayload,
    carried_copy: TunnelPayload,
)
    requires
        call_ensures(<TunnelTerminalPayload as Clone>::clone, (&payload,), payload_copy),
        call_ensures(<TunnelFrame as Clone>::clone, (&frame,), frame_copy),
        call_ensures(<TunnelPayload as Clone>::clone, (&carried,), carried_copy),
    ensures
        payload_copy@ == payload@,
        frame_copy@ == frame@,
        carried_copy@ == carried@,
{
}

/// A client id and a heartbeat give back the numbers they were made of.
pub proof fn law_ids_give_back_their_numbers(
    value: u64,
    client_id: ClientId,
    sequence: HeartbeatSequence,
)
    requires
        call_ensures(ClientId::new, (value,), client_id),
        call_ensures(HeartbeatSequence::new, (value,), sequence),
    ensures
        client_id@ == value,
        sequence@ == value,
        forall|number: u64|
            #[trigger]
            call_ensures(ClientId::get, (&client_id,), number) ==> number == value,
        forall|number: u64|
            #[trigger]
            call_ensures(HeartbeatSequence::get, (&sequence,), number) ==> number == value,
{
}

} // verus!
