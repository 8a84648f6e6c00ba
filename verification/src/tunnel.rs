//! Runtime tunnel protocol and transport boundaries.
//!
//! The tunnel layer sits between browser routing and the terminal runtime. It defines
//! stable semantic frames without making the runtime depend on a concrete transport.
use crate::errors::decimal_digits;
use crate::octets::{as_slice, octets};
use crate::protocol::{
    is_safe_message, is_session_name, HeartbeatSequence, MessageView, SafeMessage,
    ServerControlMessage, SessionName, SizeView, TerminalSize,
};
use crate::runtime::{
    ClientId, ClientOutput, ClientOutputTx, CommandView, OutputView, RuntimeCommand,
    ShutdownReason, ShutdownView,
};
use bytes::Bytes;
use std::fmt::Debug;
use vstd::prelude::*;
use vstd::string::*;
use vstd::utf8::*;

verus! {

/// Longest terminal payload of a frame, in bytes.
pub const TUNNEL_TERMINAL_PAYLOAD_MAX_BYTES: usize = 64 * 1024;

/// Tunnel protocol failure.
#[derive(Debug)]
pub enum TunnelError {
    /// A terminal payload exceeded the frame cap.
    TerminalPayloadTooLarge,
    /// JSON tunnel frame encoding or decoding failed.
    Json(serde_json::Error),
    /// The payload kind is not supported by this codec.
    UnsupportedPayload,
}

/// What a tunnel failure is reported as.
pub open spec fn error_message(error: TunnelError) -> Seq<char> {
    match error {
        TunnelError::TerminalPayloadTooLarge => "tunnel terminal payload exceeds 65536 bytes"@,
        TunnelError::Json(_) => "failed to encode or decode tunnel JSON frame"@,
        TunnelError::UnsupportedPayload => "unsupported tunnel payload for codec"@,
    }
}

impl TunnelError {
    /// Returns the message that reports the failure.
    #[must_use]
    pub fn message(&self) -> (message: &'static str)
        ensures
            message@ == error_message(*self),
    {
        match self {
            TunnelError::TerminalPayloadTooLarge => "tunnel terminal payload exceeds 65536 bytes",
            TunnelError::Json(_) => "failed to encode or decode tunnel JSON frame",
            TunnelError::UnsupportedPayload => "unsupported tunnel payload for codec",
        }
    }
}

/// Whether bytes fit in one frame.
pub open spec fn fits_in_frame(bytes: Seq<u8>) -> bool {
    bytes.len() <= TUNNEL_TERMINAL_PAYLOAD_MAX_BYTES
}

/// Bounded terminal bytes carried by tunnel frames.
#[derive(PartialEq, Eq)]
pub struct TunnelTerminalPayload(Bytes);

impl View for TunnelTerminalPayload {
    type V = Seq<u8>;

    closed spec fn view(&self) -> Seq<u8> {
        octets(self.0)
    }
}

impl TunnelTerminalPayload {
    #[verifier::type_invariant]
    closed spec fn bounded(self) -> bool {
        fits_in_frame(octets(self.0))
    }

    /// The buffer that the payload holds. It is the one that was handed in: its bytes are
    /// not copied.
    pub closed spec fn buffer(&self) -> Bytes {
        self.0
    }

    /// Creates a bounded terminal payload.
    ///
    /// # Errors
    ///
    /// Returns [`TunnelError::TerminalPayloadTooLarge`] when the payload exceeds
    /// 64 KiB.
    pub fn new(bytes: Bytes) -> (result: Result<TunnelTerminalPayload, TunnelError>)
        ensures
            match result {
                Ok(payload) => {
                    &&& fits_in_frame(octets(bytes))
                    &&& payload@ == octets(bytes)
                    &&& payload.buffer() == bytes
                },
                Err(error) => !fits_in_frame(octets(bytes)) && error
                    is TerminalPayloadTooLarge,
            },
    {
        if bytes.len() <= TUNNEL_TERMINAL_PAYLOAD_MAX_BYTES {
            Ok(TunnelTerminalPayload(bytes))
        } else {
            Err(TunnelError::TerminalPayloadTooLarge)
        }
    }

    /// Returns the payload length in bytes.
    #[must_use]
    pub fn len(&self) -> (len: usize)
        ensures
            len == self@.len(),
            fits_in_frame(self@),
    {
        proof {
            use_type_invariant(self);
        }
        self.0.len()
    }

    /// Returns whether the payload is empty.
    #[must_use]
    pub fn is_empty(&self) -> (empty: bool)
        ensures
            empty == (self@.len() == 0),
    {
        self.0.is_empty()
    }

    /// Returns the payload bytes.
    #[must_use]
    pub fn as_bytes(&self) -> (bytes: &[u8])
        ensures
            bytes@ == self@,
            fits_in_frame(self@),
    {
        proof {
            use_type_invariant(self);
        }
        as_slice(&self.0)
    }

    /// Consumes the payload and returns the underlying bytes.
    #[must_use]
    pub fn into_bytes(self) -> (bytes: Bytes)
        ensures
            octets(bytes) == self@,
            bytes == self.buffer(),
            fits_in_frame(self@),
    {
        proof {
            use_type_invariant(&self);
        }
        self.0
    }

    /// Returns the text for logs, which tells the length and nothing of the bytes.
    #[must_use]
    pub fn debug_text(&self) -> (text: String)
        ensures
            text@ == payload_debug_text(self@.len()),
    {
        let mut text = "TunnelTerminalPayload { len: ".to_owned();
        text.append(decimal(self.0.len()).as_str());
        text.append(" }");
        text
    }
}

/// The text for logs of a payload of a given length.
pub open spec fn payload_debug_text(len: nat) -> Seq<char> {
    "TunnelTerminalPayload { len: "@ + decimal_digits(len) + " }"@
}

/// Writes a number in decimal.
fn decimal(number: usize) -> (text: String)
    ensures
        text@ == decimal_digits(number as nat),
    decreases number,
{
    let mut text = if number < 10 {
        String::new()
    } else {
        decimal(number / 10)
    };
    text.append(digit(number % 10));
    text
}

/// Writes one decimal digit.
fn digit(number: usize) -> (text: &'static str)
    requires
        number < 10,
    ensures
        text@ == seq![('0' as u32 + number) as char],
{
    proof {
        reveal_strlit("0");
        reveal_strlit("1");
        reveal_strlit("2");
        reveal_strlit("3");
        reveal_strlit("4");
        reveal_strlit("5");
        reveal_strlit("6");
        reveal_strlit("7");
        reveal_strlit("8");
        reveal_strlit("9");
    }
    match number {
        0 => "0",
        1 => "1",
        2 => "2",
        3 => "3",
        4 => "4",
        5 => "5",
        6 => "6",
        7 => "7",
        8 => "8",
        _ => "9",
    }
}

impl Clone for TunnelTerminalPayload {
    fn clone(&self) -> (copy: TunnelTerminalPayload)
        ensures
            copy@ == self@,
    {
        proof {
            use_type_invariant(self);
        }
        TunnelTerminalPayload(self.0.clone())
    }
}

/// Transport-level payload passed to codecs.
#[derive(Debug, PartialEq, Eq)]
pub enum TunnelPayload {
    /// Text transport payload, usually JSON control data.
    Text(String),
    /// Binary transport payload, usually raw terminal bytes with an envelope.
    Binary(Bytes),
}

/// What a [`TunnelPayload`] holds.
pub enum PayloadView {
    Text(Seq<char>),
    Binary(Seq<u8>),
}

impl View for TunnelPayload {
    type V = PayloadView;

    open spec fn view(&self) -> PayloadView {
        match *self {
            TunnelPayload::Text(text) => PayloadView::Text(text@),
            TunnelPayload::Binary(bytes) => PayloadView::Binary(octets(bytes)),
        }
    }
}

impl Clone for TunnelPayload {
    fn clone(&self) -> (copy: TunnelPayload)
        ensures
            copy@ == self@,
    {
        match self {
            TunnelPayload::Text(text) => TunnelPayload::Text(text.clone()),
            TunnelPayload::Binary(bytes) => TunnelPayload::Binary(bytes.clone()),
        }
    }
}

/// Stable close reason carried through the runtime tunnel.
#[derive(Debug, PartialEq, Eq)]
pub enum TunnelCloseReason {
    /// Server supervisor requested shutdown.
    Supervisor,
    /// The browser/client disconnected.
    ClientDisconnect,
    /// A newer browser/client took over the controller role.
    ControllerReplaced,
    /// The child process exited or the PTY reached EOF.
    ChildExit,
    /// Runtime error.
    RuntimeError(SafeMessage),
}

/// What a [`TunnelCloseReason`] says.
pub enum ReasonView {
    Supervisor,
    ClientDisconnect,
    ControllerReplaced,
    ChildExit,
    RuntimeError(Seq<char>),
}

impl View for TunnelCloseReason {
    type V = ReasonView;

    open spec fn view(&self) -> ReasonView {
        match *self {
            TunnelCloseReason::Supervisor => ReasonView::Supervisor,
            TunnelCloseReason::ClientDisconnect => ReasonView::ClientDisconnect,
            TunnelCloseReason::ControllerReplaced => ReasonView::ControllerReplaced,
            TunnelCloseReason::ChildExit => ReasonView::ChildExit,
            TunnelCloseReason::RuntimeError(message) => ReasonView::RuntimeError(message@),
        }
    }
}

impl ReasonView {
    /// Whether the text in the reason is admitted.
    pub open spec fn valid(self) -> bool {
        self matches ReasonView::RuntimeError(message) ==> is_safe_message(message)
    }
}

/// The close reason that stands for a shutdown reason. A message that is too long is
/// replaced.
pub open spec fn close_reason(reason: ShutdownView) -> ReasonView {
    match reason {
        ShutdownView::Supervisor => ReasonView::Supervisor,
        ShutdownView::ClientDisconnect => ReasonView::ClientDisconnect,
        ShutdownView::ControllerReplaced => ReasonView::ControllerReplaced,
        ShutdownView::ChildExit => ReasonView::ChildExit,
        ShutdownView::RuntimeError(message) => ReasonView::RuntimeError(
            if is_safe_message(message) {
                message
            } else {
                "runtime error"@
            },
        ),
    }
}

impl TunnelCloseReason {
    /// Converts a shutdown reason of the runtime into a reason that may cross the tunnel.
    pub fn from_shutdown_reason(reason: ShutdownReason) -> (close: TunnelCloseReason)
        ensures
            close@ == close_reason(reason@),
    {
        match reason {
            ShutdownReason::Supervisor => TunnelCloseReason::Supervisor,
            ShutdownReason::ClientDisconnect => TunnelCloseReason::ClientDisconnect,
            ShutdownReason::ControllerReplaced => TunnelCloseReason::ControllerReplaced,
            ShutdownReason::ChildExit => TunnelCloseReason::ChildExit,
            ShutdownReason::RuntimeError(message) => {
                proof {
                    lemma_fallback_is_safe();
                }
                match SafeMessage::new(message) {
                    Ok(message) => TunnelCloseReason::RuntimeError(message),
                    Err(_) => {
                        TunnelCloseReason::RuntimeError(SafeMessage::from_static("runtime error"))
                    },
                }
            },
        }
    }
}

/// The text that replaces a message that is too long is itself short enough.
pub proof fn lemma_fallback_is_safe()
    ensures
        is_safe_message("runtime error"@),
{
    reveal_strlit("runtime error");
    is_ascii_chars_encode_utf8("runtime error"@);
}

impl Clone for TunnelCloseReason {
    fn clone(&self) -> (copy: TunnelCloseReason)
        ensures
            copy@ == self@,
    {
        match self {
            TunnelCloseReason::Supervisor => TunnelCloseReason::Supervisor,
            TunnelCloseReason::ClientDisconnect => TunnelCloseReason::ClientDisconnect,
            TunnelCloseReason::ControllerReplaced => TunnelCloseReason::ControllerReplaced,
            TunnelCloseReason::ChildExit => TunnelCloseReason::ChildExit,
            TunnelCloseReason::RuntimeError(message) => {
                TunnelCloseReason::RuntimeError(message.clone())
            },
        }
    }
}

/// Runtime-side control frame.
#[derive(Debug, PartialEq, Eq)]
pub enum TunnelRuntimeControl {
    /// Server-to-browser runtime control message.
    Server {
        /// Runtime control message.
        message: ServerControlMessage,
    },
    /// Runtime closed the client stream.
    Closed {
        /// Stable close reason.
        reason: TunnelCloseReason,
    },
}

/// What a [`TunnelRuntimeControl`] says.
pub enum ControlView {
    Server { message: MessageView },
    Closed { reason: ReasonView },
}

impl View for TunnelRuntimeControl {
    type V = ControlView;

    open spec fn view(&self) -> ControlView {
        match *self {
            TunnelRuntimeControl::Server { message } => ControlView::Server { message: message@ },
            TunnelRuntimeControl::Closed { reason } => ControlView::Closed { reason: reason@ },
        }
    }
}

impl ControlView {
    /// Whether the texts and sizes in the control are admitted.
    pub open spec fn valid(self) -> bool {
        match self {
            ControlView::Server { message } => message.valid(),
            ControlView::Closed { reason } => reason.valid(),
        }
    }
}

impl Clone for TunnelRuntimeControl {
    fn clone(&self) -> (copy: TunnelRuntimeControl)
        ensures
            copy@ == self@,
    {
        match self {
            TunnelRuntimeControl::Server { message } => {
                TunnelRuntimeControl::Server { message: message.clone() }
            },
            TunnelRuntimeControl::Closed { reason } => {
                TunnelRuntimeControl::Closed { reason: reason.clone() }
            },
        }
    }
}

/// Stable semantic frame exchanged between web side and runtime side.
#[derive(PartialEq, Eq)]
#[allow(inconsistent_fields)]
pub enum TunnelFrame {
    /// Runtime side announces a session.
    RegisterSession {
        /// Runtime session id.
        session: SessionName,
        /// Command or shell display text.
        command_display: SafeMessage,
        /// Initial runtime terminal size.
        size: TerminalSize,
    },
    /// Web side attaches a browser client to the runtime side.
    AttachBrowser {
        /// Browser client id.
        client_id: ClientId,
    },
    /// Web side detaches a browser client from the runtime side.
    DetachBrowser {
        /// Browser client id.
        client_id: ClientId,
    },
    /// Web side forwards browser terminal input bytes to the runtime side.
    BrowserInput {
        /// Browser client id.
        client_id: ClientId,
        /// Terminal bytes.
        bytes: TunnelTerminalPayload,
    },
    /// Web side forwards browser terminal dimensions to the runtime side.
    BrowserResize {
        /// Browser client id.
        client_id: ClientId,
        /// Proposed terminal size.
        size: TerminalSize,
    },
    /// Runtime side forwards PTY output bytes to the web side.
    PtyOutput {
        /// Terminal bytes.
        bytes: TunnelTerminalPayload,
    },
    /// Runtime side forwards runtime control to the web side.
    RuntimeControl {
        /// Browser client id when the control is scoped to one client.
        client_id: Option<ClientId>,
        /// Runtime control message.
        control: TunnelRuntimeControl,
    },
    /// Liveness heartbeat.
    Heartbeat {
        /// Heartbeat sequence.
        sequence: HeartbeatSequence,
    },
}

/// What a [`TunnelFrame`] carries.
#[allow(inconsistent_fields)]
pub enum FrameView {
    RegisterSession { session: Seq<char>, command_display: Seq<char>, size: SizeView },
    AttachBrowser { client_id: u64 },
    DetachBrowser { client_id: u64 },
    BrowserInput { client_id: u64, bytes: Seq<u8> },
    BrowserResize { client_id: u64, size: SizeView },
    PtyOutput { bytes: Seq<u8> },
    RuntimeControl { client_id: Option<u64>, control: ControlView },
    Heartbeat { sequence: u64 },
}

/// The number of a client, where there is one.
pub open spec fn client_number(client_id: Option<ClientId>) -> Option<u64> {
    match client_id {
        Some(client_id) => Some(client_id@),
        None => None,
    }
}

impl View for TunnelFrame {
    type V = FrameView;

    open spec fn view(&self) -> FrameView {
        match *self {
            TunnelFrame::RegisterSession { session, command_display, size } => {
                FrameView::RegisterSession {
                    session: session@,
                    command_display: command_display@,
                    size: size@,
                }
            },
            TunnelFrame::AttachBrowser { client_id } => FrameView::AttachBrowser {
                client_id: client_id@,
            },
            TunnelFrame::DetachBrowser { client_id } => FrameView::DetachBrowser {
                client_id: client_id@,
            },
            TunnelFrame::BrowserInput { client_id, bytes } => FrameView::BrowserInput {
                client_id: client_id@,
                bytes: bytes@,
            },
            TunnelFrame::BrowserResize { client_id, size } => FrameView::BrowserResize {
                client_id: client_id@,
                size: size@,
            },
            TunnelFrame::PtyOutput { bytes } => FrameView::PtyOutput { bytes: bytes@ },
            TunnelFrame::RuntimeControl { client_id, control } => FrameView::RuntimeControl {
                client_id: client_number(client_id),
                control: control@,
            },
            TunnelFrame::Heartbeat { sequence } => FrameView::Heartbeat { sequence: sequence@ },
        }
    }
}

impl FrameView {
    /// Whether the names, texts, sizes and bytes in the frame are admitted.
    pub open spec fn valid(self) -> bool {
        match self {
            FrameView::RegisterSession { session, command_display, size } => {
                &&& is_session_name(session)
                &&& is_safe_message(command_display)
                &&& size.valid()
            },
            FrameView::BrowserInput { client_id, bytes } => fits_in_frame(bytes),
            FrameView::BrowserResize { client_id, size } => size.valid(),
            FrameView::PtyOutput { bytes } => fits_in_frame(bytes),
            FrameView::RuntimeControl { client_id, control } => control.valid(),
            _ => true,
        }
    }
}

impl Clone for TunnelFrame {
    fn clone(&self) -> (copy: TunnelFrame)
        ensures
            copy@ == self@,
    {
        match self {
            TunnelFrame::RegisterSession { session, command_display, size } => {
                TunnelFrame::RegisterSession {
                    session: session.clone(),
                    command_display: command_display.clone(),
                    size: *size,
                }
            },
            TunnelFrame::AttachBrowser { client_id } => {
                TunnelFrame::AttachBrowser { client_id: *client_id }
            },
            TunnelFrame::DetachBrowser { client_id } => {
                TunnelFrame::DetachBrowser { client_id: *client_id }
            },
            TunnelFrame::BrowserInput { client_id, bytes } => {
                TunnelFrame::BrowserInput { client_id: *client_id, bytes: bytes.clone() }
            },
            TunnelFrame::BrowserResize { client_id, size } => {
                TunnelFrame::BrowserResize { client_id: *client_id, size: *size }
            },
            TunnelFrame::PtyOutput { bytes } => TunnelFrame::PtyOutput { bytes: bytes.clone() },
            TunnelFrame::RuntimeControl { client_id, control } => {
                TunnelFrame::RuntimeControl { client_id: *client_id, control: control.clone() }
            },
            TunnelFrame::Heartbeat { sequence } => TunnelFrame::Heartbeat { sequence: *sequence },
        }
    }
}

/// Codec for converting semantic tunnel frames to transport payloads.
pub trait TunnelCodec: Debug + Send + Sync {
    /// Encodes a semantic tunnel frame.
    ///
    /// # Errors
    ///
    /// Returns [`TunnelError`] when the frame cannot be encoded.
    fn encode(&self, frame: &TunnelFrame) -> (result: Result<TunnelPayload, TunnelError>);

    /// Decodes a semantic tunnel frame.
    ///
    /// # Errors
    ///
    /// Returns [`TunnelError`] when the payload cannot be decoded.
    fn decode(&self, payload: TunnelPayload) -> (result: Result<TunnelFrame, TunnelError>);
}

/// Synchronous boundary for concrete tunnel transports.
///
/// Async transports can implement this boundary with internal tasks and bounded
/// channels while keeping runtime code independent from socket implementations.
pub trait TunnelTransport: Debug + Send {
    /// Sends one semantic frame through the transport.
    ///
    /// # Errors
    ///
    /// Returns [`TunnelError`] when the transport cannot send the frame.
    fn send_frame(&mut self, frame: TunnelFrame) -> (result: Result<(), TunnelError>);

    /// Receives one semantic frame from the transport.
    ///
    /// # Errors
    ///
    /// Returns [`TunnelError`] when the transport cannot decode or receive a
    /// frame.
    fn receive_frame(&mut self) -> (result: Result<Option<TunnelFrame>, TunnelError>);
}

/// Runtime-side action produced from a tunnel frame.
pub enum RuntimeTunnelAction {
    /// Attach a browser. The caller must create the runtime output mailbox.
    AttachBrowser {
        /// Browser client id.
        client_id: ClientId,
    },
    /// Send a runtime command directly.
    Command(RuntimeCommand),
    /// No runtime command is needed.
    NoAction,
}

/// What a [`RuntimeTunnelAction`] asks for.
pub enum ActionView {
    AttachBrowser { client_id: u64 },
    Command(CommandView),
    NoAction,
}

impl View for RuntimeTunnelAction {
    type V = ActionView;

    open spec fn view(&self) -> ActionView {
        match *self {
            RuntimeTunnelAction::AttachBrowser { client_id } => ActionView::AttachBrowser {
                client_id: client_id@,
            },
            RuntimeTunnelAction::Command(command) => ActionView::Command(command@),
            RuntimeTunnelAction::NoAction => ActionView::NoAction,
        }
    }
}

/// The action that a frame asks of the runtime side.
pub open spec fn frame_action(frame: FrameView) -> ActionView {
    match frame {
        FrameView::AttachBrowser { client_id } => ActionView::AttachBrowser { client_id },
        FrameView::DetachBrowser { client_id } => ActionView::Command(
            CommandView::DetachClient { client_id },
        ),
        FrameView::BrowserInput { client_id, bytes } => ActionView::Command(
            CommandView::Input { client_id, bytes },
        ),
        FrameView::BrowserResize { client_id, size } => ActionView::Command(
            CommandView::BrowserResize { client_id, size },
        ),
        _ => ActionView::NoAction,
    }
}

/// The frame that carries an output of the runtime, or `None` where a chunk of bytes
/// does not fit in one.
pub open spec fn output_frame(client_id: Option<u64>, output: OutputView) -> Option<FrameView> {
    match output {
        OutputView::Bytes(bytes) => if fits_in_frame(bytes) {
            Some(FrameView::PtyOutput { bytes })
        } else {
            None
        },
        OutputView::Control(message) => Some(
            FrameView::RuntimeControl { client_id, control: ControlView::Server { message } },
        ),
        OutputView::Closed(reason) => Some(
            FrameView::RuntimeControl {
                client_id,
                control: ControlView::Closed { reason: close_reason(reason) },
            },
        ),
    }
}

/// Whether an action that feeds the input of a frame holds the very buffer of the frame.
pub open spec fn hands_on_input(frame: TunnelFrame, action: RuntimeTunnelAction) -> bool {
    match (frame, action) {
        (
            TunnelFrame::BrowserInput { bytes: payload, .. },
            RuntimeTunnelAction::Command(RuntimeCommand::Input { bytes, .. }),
        ) => bytes == payload.buffer(),
        _ => true,
    }
}

/// Whether a frame that carries the bytes of an output holds the very buffer of the output.
pub open spec fn hands_on_output(
    output: ClientOutput,
    result: Result<TunnelFrame, TunnelError>,
) -> bool {
    match (output, result) {
        (ClientOutput::Bytes(bytes), Ok(TunnelFrame::PtyOutput { bytes: payload })) => {
            payload.buffer() == bytes
        },
        _ => true,
    }
}

/// Bridge mapping between tunnel frames and runtime commands/output.
#[derive(Debug, Clone, Copy, Default)]
pub struct RuntimeTunnelBridge;

impl RuntimeTunnelBridge {
    /// Converts a tunnel frame into a runtime-side action.
    #[must_use]
    pub fn action_from_frame(frame: TunnelFrame) -> (action: RuntimeTunnelAction)
        ensures
            action@ == frame_action(frame@),
            hands_on_input(frame, action),
            match frame {
                TunnelFrame::AttachBrowser { client_id } => action == (
                RuntimeTunnelAction::AttachBrowser { client_id }),
                TunnelFrame::DetachBrowser { client_id } => action
                    == RuntimeTunnelAction::Command((RuntimeCommand::DetachClient { client_id })),
                TunnelFrame::BrowserInput { client_id, bytes } => action
                    == RuntimeTunnelAction::Command(
                    (RuntimeCommand::Input { client_id, bytes: bytes.buffer() }),
                ),
                TunnelFrame::BrowserResize { client_id, size } => action
                    == RuntimeTunnelAction::Command(
                    (RuntimeCommand::BrowserResize { client_id, size }),
                ),
                _ => action == RuntimeTunnelAction::NoAction,
            },
    {
        match frame {
            TunnelFrame::AttachBrowser { client_id } => {
                RuntimeTunnelAction::AttachBrowser { client_id }
            },
            TunnelFrame::DetachBrowser { client_id } => {
                RuntimeTunnelAction::Command(RuntimeCommand::DetachClient { client_id })
            },
            TunnelFrame::BrowserInput { client_id, bytes } => {
                RuntimeTunnelAction::Command(
                    RuntimeCommand::Input { client_id, bytes: bytes.into_bytes() },
                )
            },
            TunnelFrame::BrowserResize { client_id, size } => {
                RuntimeTunnelAction::Command(RuntimeCommand::BrowserResize { client_id, size })
            },
            TunnelFrame::RegisterSession { .. }
            | TunnelFrame::PtyOutput { .. }
            | TunnelFrame::RuntimeControl { .. }
            | TunnelFrame::Heartbeat { .. } => RuntimeTunnelAction::NoAction,
        }
    }

    /// Creates an attach command once the bridge has allocated an output
    /// mailbox.
    #[must_use]
    pub fn attach_command(client_id: ClientId, output: ClientOutputTx) -> (command: RuntimeCommand)
        ensures
            command == (RuntimeCommand::AttachClient { client_id, output }),
    {
        RuntimeCommand::AttachClient { client_id, output }
    }

    /// Converts runtime output into a tunnel frame.
    ///
    /// # Errors
    ///
    /// Returns [`TunnelError::TerminalPayloadTooLarge`] if a runtime byte chunk
    /// exceeds the tunnel frame cap.
    pub fn frame_from_output(client_id: Option<ClientId>, output: ClientOutput) -> (result: Result<
        TunnelFrame,
        TunnelError,
    >)
        ensures
            match result {
                Ok(frame) => output_frame(client_number(client_id), output@) == Some(frame@),
                Err(error) => output_frame(client_number(client_id), output@) is None && error
                    is TerminalPayloadTooLarge,
            },
            hands_on_output(output, result),
            match (output, result) {
                (ClientOutput::Bytes(bytes), Ok(frame)) => {
                    &&& octets(bytes).len() <= 65536
                    &&& frame matches TunnelFrame::PtyOutput { bytes: payload }
                    &&& payload.buffer() == bytes
                    &&& payload@ == octets(bytes)
                },
                (ClientOutput::Bytes(bytes), Err(_)) => octets(bytes).len() > 65536,
                (ClientOutput::Control(message), Ok(frame)) => frame == (
                TunnelFrame::RuntimeControl {
                    client_id,
                    control: TunnelRuntimeControl::Server { message },
                }),
                (ClientOutput::Closed(reason), Ok(frame)) => {
                    &&& frame matches TunnelFrame::RuntimeControl { client_id: scope, control }
                    &&& scope == client_id
                    &&& control matches TunnelRuntimeControl::Closed { reason: close }
                    &&& close@ == close_reason(reason@)
                },
                (_, Err(_)) => false,
            },
    {
        match output {
            ClientOutput::Bytes(bytes) => match TunnelTerminalPayload::new(bytes) {
                Ok(bytes) => Ok(TunnelFrame::PtyOutput { bytes }),
                Err(error) => Err(error),
            },
            ClientOutput::Control(message) => Ok(
                TunnelFrame::RuntimeControl {
                    client_id,
                    control: TunnelRuntimeControl::Server { message },
                },
            ),
            ClientOutput::Closed(reason) => Ok(
                TunnelFrame::RuntimeControl {
                    client_id,
                    control: TunnelRuntimeControl::Closed {
                        reason: TunnelCloseReason::from_shutdown_reason(reason),
                    },
                },
            ),
        }
    }
}

} // verus!
