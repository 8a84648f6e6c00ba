//! Commands to the terminal runtime and what comes out of it.
use crate::octets::octets;
use crate::protocol::{MessageView, ServerControlMessage, SizeView, TerminalSize};
use bytes::Bytes;
use vstd::prelude::*;

verus! {

/// Identity of an attached client.
#[derive(Debug, Clone, Copy, PartialEq, Eq)]
pub struct ClientId {
    value: u64,
}

impl View for ClientId {
    type V = u64;

    closed spec fn view(&self) -> u64 {
        self.value
    }
}

impl ClientId {
    /// Creates a client id.
    pub fn new(value: u64) -> (id: ClientId)
        ensures
            id@ == value,
    {
        ClientId { value }
    }

    /// Returns the number of the client.
    pub fn get(&self) -> (value: u64)
        ensures
            value == self@,
    {
        self.value
    }
}

/// Handle of the mailbox that takes the output for one client.
#[derive(Debug, Clone, Copy, PartialEq, Eq)]
pub struct ClientOutputTx {
    /// Number under which the owner of the mailboxes finds this one.
    pub mailbox: u64,
}

/// Why the runtime closed a client stream.
#[derive(Debug, PartialEq, Eq)]
pub enum ShutdownReason {
    /// Server supervisor requested shutdown.
    Supervisor,
    /// The client disconnected.
    ClientDisconnect,
    /// A newer client took over the controller role.
    ControllerReplaced,
    /// The child process exited.
    ChildExit,
    /// The runtime failed, with a message of any length.
    RuntimeError(String),
}

/// What a [`ShutdownReason`] says.
pub enum ShutdownView {
    Supervisor,
    ClientDisconnect,
    ControllerReplaced,
    ChildExit,
    RuntimeError(Seq<char>),
}

impl View for ShutdownReason {
    type V = ShutdownView;

    open spec fn view(&self) -> ShutdownView {
        match *self {
            ShutdownReason::Supervisor => ShutdownView::Supervisor,
            ShutdownReason::ClientDisconnect => ShutdownView::ClientDisconnect,
            ShutdownReason::ControllerReplaced => ShutdownView::ControllerReplaced,
            ShutdownReason::ChildExit => ShutdownView::ChildExit,
            ShutdownReason::RuntimeError(message) => ShutdownView::RuntimeError(message@),
        }
    }
}

/// Output of the runtime for one client.
pub enum ClientOutput {
    /// Terminal bytes.
    Bytes(Bytes),
    /// A control message.
    Control(ServerControlMessage),
    /// The stream is closed.
    Closed(ShutdownReason),
}

/// What a [`ClientOutput`] carries.
pub enum OutputView {
    Bytes(Seq<u8>),
    Control(MessageView),
    Closed(ShutdownView),
}

impl View for ClientOutput {
    type V = OutputView;

    open spec fn view(&self) -> OutputView {
        match *self {
            ClientOutput::Bytes(bytes) => OutputView::Bytes(octets(bytes)),
            ClientOutput::Control(message) => OutputView::Control(message@),
            ClientOutput::Closed(reason) => OutputView::Closed(reason@),
        }
    }
}

/// Command to the runtime.
pub enum RuntimeCommand {
    /// Attach a client.
    AttachClient {
        /// Client id.
        client_id: ClientId,
        /// Mailbox for the client's output.
        output: ClientOutputTx,
    },
    /// Detach a client.
    DetachClient {
        /// Client id.
        client_id: ClientId,
    },
    /// Feed terminal input.
    Input {
        /// Client id.
        client_id: ClientId,
        /// Terminal bytes.
        bytes: Bytes,
    },
    /// Propose a terminal size.
    BrowserResize {
        /// Client id.
        client_id: ClientId,
        /// Proposed size.
        size: TerminalSize,
    },
}

/// What a [`RuntimeCommand`] asks for.
pub enum CommandView {
    AttachClient { client_id: u64, output: ClientOutputTx },
    DetachClient { client_id: u64 },
    Input { client_id: u64, bytes: Seq<u8> },
    BrowserResize { client_id: u64, size: SizeView },
}

impl View for RuntimeCommand {
    type V = CommandView;

    open spec fn view(&self) -> CommandView {
        match *self {
            RuntimeCommand::AttachClient { client_id, output } => CommandView::AttachClient {
                client_id: client_id@,
                output,
            },
            RuntimeCommand::DetachClient { client_id } => CommandView::DetachClient {
                client_id: client_id@,
            },
            RuntimeCommand::Input { client_id, bytes } => CommandView::Input {
                client_id: client_id@,
                bytes: octets(bytes),
            },
            RuntimeCommand::BrowserResize { client_id, size } => CommandView::BrowserResize {
                client_id: client_id@,
                size: size@,
            },
        }
    }
}

} // verus!
