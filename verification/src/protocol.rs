//! Values that both sides of the tunnel exchange.
use vstd::prelude::*;
use vstd::string::*;
use vstd::utf8::*;

verus! {

/// Longest text of a [`SafeMessage`], in bytes.
pub const SAFE_MESSAGE_MAX_BYTES: usize = 256;

/// Longest [`SessionName`], in bytes.
pub const SESSION_NAME_MAX_BYTES: usize = 64;

/// A value that the protocol does not admit.
#[derive(Debug, Clone, Copy, PartialEq, Eq)]
pub enum ProtocolError {
    /// A message text exceeds [`SAFE_MESSAGE_MAX_BYTES`].
    MessageTooLong,
    /// A session name is empty, too long, or holds a character that names lack.
    InvalidSessionName,
    /// A terminal size has no columns or no rows.
    InvalidTerminalSize,
}

/// Whether a text is short enough for a [`SafeMessage`].
pub open spec fn is_safe_message(text: Seq<char>) -> bool {
    encode_utf8(text).len() <= SAFE_MESSAGE_MAX_BYTES
}

/// Whether a character may stand in a [`SessionName`].
pub open spec fn is_session_char(c: char) -> bool {
    ||| 'A' <= c <= 'Z'
    ||| 'a' <= c <= 'z'
    ||| '0' <= c <= '9'
    ||| c == '_'
    ||| c == '.'
    ||| c == '-'
}

/// Whether a text names a session.
pub open spec fn is_session_name(text: Seq<char>) -> bool {
    &&& 1 <= text.len() <= SESSION_NAME_MAX_BYTES
    &&& forall|i: int| 0 <= i < text.len() ==> is_session_char(#[trigger] text[i])
}

/// Display text of bounded length.
#[derive(Debug, PartialEq, Eq)]
pub struct SafeMessage {
    text: String,
}

impl View for SafeMessage {
    type V = Seq<char>;

    closed spec fn view(&self) -> Seq<char> {
        self.text@
    }
}

impl SafeMessage {
    #[verifier::type_invariant]
    closed spec fn bounded(self) -> bool {
        is_safe_message(self.text@)
    }

    /// Creates a message.
    ///
    /// # Errors
    ///
    /// Returns [`ProtocolError::MessageTooLong`] when the text exceeds
    /// [`SAFE_MESSAGE_MAX_BYTES`].
    pub fn new(text: String) -> (result: Result<SafeMessage, ProtocolError>)
        ensures
            match result {
                Ok(message) => is_safe_message(text@) && message@ == text@,
                Err(error) => !is_safe_message(text@) && error == ProtocolError::MessageTooLong,
            },
    {
        if text.as_str().as_bytes().len() <= SAFE_MESSAGE_MAX_BYTES {
            Ok(SafeMessage { text })
        } else {
            Err(ProtocolError::MessageTooLong)
        }
    }

    /// Creates a message from a text that is known to be short enough.
    pub fn from_static(text: &'static str) -> (message: SafeMessage)
        requires
            is_safe_message(text@),
        ensures
            message@ == text@,
    {
        SafeMessage { text: text.to_owned() }
    }

    /// Returns the text.
    pub fn as_str(&self) -> (text: &str)
        ensures
            text@ == self@,
            is_safe_message(self@),
    {
        proof {
            use_type_invariant(self);
        }
        self.text.as_str()
    }
}

impl Clone for SafeMessage {
    fn clone(&self) -> (copy: SafeMessage)
        ensures
            copy@ == self@,
    {
        proof {
            use_type_invariant(self);
        }
        SafeMessage { text: self.text.clone() }
    }
}

/// Name of a runtime session.
#[derive(Debug, PartialEq, Eq)]
pub struct SessionName {
    text: String,
}

impl View for SessionName {
    type V = Seq<char>;

    closed spec fn view(&self) -> Seq<char> {
        self.text@
    }
}

impl SessionName {
    #[verifier::type_invariant]
    closed spec fn admitted(self) -> bool {
        is_session_name(self.text@)
    }

    /// Creates a session name.
    ///
    /// # Errors
    ///
    /// Returns [`ProtocolError::InvalidSessionName`] unless the text is 1 to
    /// [`SESSION_NAME_MAX_BYTES`] bytes of `[A-Za-z0-9_.-]`.
    pub fn new(text: String) -> (result: Result<SessionName, ProtocolError>)
        ensures
            match result {
                Ok(name) => is_session_name(text@) && name@ == text@,
                Err(error) => !is_session_name(text@) && error
                    == ProtocolError::InvalidSessionName,
            },
    {
        let mut count: usize = 0;
        for c in it: text.as_str().chars()
            invariant
                it.seq() == text@,
                count == it.index(),
                count <= SESSION_NAME_MAX_BYTES,
                forall|i: int| 0 <= i < count ==> is_session_char(#[trigger] text@[i]),
        {
            if count >= SESSION_NAME_MAX_BYTES || !session_char(c) {
                return Err(ProtocolError::InvalidSessionName);
            }
            count = count + 1;
        }
        if count == 0 {
            return Err(ProtocolError::InvalidSessionName);
        }
        Ok(SessionName { text })
    }

    /// Returns the name.
    pub fn as_str(&self) -> (text: &str)
        ensures
            text@ == self@,
            is_session_name(self@),
    {
        proof {
            use_type_invariant(self);
        }
        self.text.as_str()
    }
}

impl Clone for SessionName {
    fn clone(&self) -> (copy: SessionName)
        ensures
            copy@ == self@,
    {
        proof {
            use_type_invariant(self);
        }
        SessionName { text: self.text.clone() }
    }
}

/// Decides [`is_session_char`].
fn session_char(c: char) -> (admitted: bool)
    ensures
        admitted == is_session_char(c),
{
    ('A' <= c && c <= 'Z') || ('a' <= c && c <= 'z') || ('0' <= c && c <= '9') || c == '_' || c
        == '.' || c == '-'
}

/// The columns and rows of a [`TerminalSize`].
pub struct SizeView {
    pub cols: u16,
    pub rows: u16,
}

impl SizeView {
    /// Whether the terminal has at least one cell.
    pub open spec fn valid(self) -> bool {
        self.cols > 0 && self.rows > 0
    }
}

/// Size of a terminal in character cells.
#[derive(Debug, Clone, Copy, PartialEq, Eq)]
pub struct TerminalSize {
    cols: u16,
    rows: u16,
}

impl View for TerminalSize {
    type V = SizeView;

    closed spec fn view(&self) -> SizeView {
        SizeView { cols: self.cols, rows: self.rows }
    }
}

impl TerminalSize {
    #[verifier::type_invariant]
    closed spec fn nonempty(self) -> bool {
        self.cols > 0 && self.rows > 0
    }

    /// Creates a terminal size.
    ///
    /// # Errors
    ///
    /// Returns [`ProtocolError::InvalidTerminalSize`] when there are no columns
    /// or no rows.
    pub fn new(cols: u16, rows: u16) -> (result: Result<TerminalSize, ProtocolError>)
        ensures
            match result {
                Ok(size) => cols > 0 && rows > 0 && size@ == (SizeView { cols, rows }),
                Err(error) => (cols == 0 || rows == 0) && error
                    == ProtocolError::InvalidTerminalSize,
            },
    {
        if cols > 0 && rows > 0 {
            Ok(TerminalSize { cols, rows })
        } else {
            Err(ProtocolError::InvalidTerminalSize)
        }
    }

    /// Returns the number of columns.
    pub fn cols(&self) -> (cols: u16)
        ensures
            cols == self@.cols,
            self@.valid(),
    {
        proof {
            use_type_invariant(self);
        }
        self.cols
    }

    /// Returns the number of rows.
    pub fn rows(&self) -> (rows: u16)
        ensures
            rows == self@.rows,
            self@.valid(),
    {
        proof {
            use_type_invariant(self);
        }
        self.rows
    }
}

/// Position of a heartbeat in the sequence of heartbeats.
#[derive(Debug, Clone, Copy, PartialEq, Eq)]
pub struct HeartbeatSequence {
    value: u64,
}

impl View for HeartbeatSequence {
    type V = u64;

    closed spec fn view(&self) -> u64 {
        self.value
    }
}

impl HeartbeatSequence {
    /// Creates a heartbeat sequence number.
    pub fn new(value: u64) -> (sequence: HeartbeatSequence)
        ensures
            sequence@ == value,
    {
        HeartbeatSequence { value }
    }

    /// Returns the number.
    pub fn get(&self) -> (value: u64)
        ensures
            value == self@,
    {
        self.value
    }
}

/// Holder of the command lease.
#[derive(Debug, Clone, Copy, PartialEq, Eq)]
pub enum LeaseOwner {
    /// The local terminal.
    Local,
    /// The browser.
    Browser,
}

/// Control message from the runtime to a browser.
#[derive(Debug, PartialEq, Eq)]
pub enum ServerControlMessage {
    /// The session is ready.
    Ready,
    /// The command lease changed hands.
    LeaseChanged {
        /// New holder of the lease.
        owner: LeaseOwner,
        /// Number of the lease.
        epoch: u64,
    },
    /// The terminal size changed.
    SizeChanged {
        /// New size.
        size: TerminalSize,
    },
    /// The child process exited.
    ProcessExited,
    /// A warning for the user.
    Warning {
        /// Text of the warning.
        message: SafeMessage,
    },
    /// An error for the user.
    Error {
        /// Text of the error.
        message: SafeMessage,
    },
}

/// What a [`ServerControlMessage`] says.
pub enum MessageView {
    Ready,
    LeaseChanged { owner: LeaseOwner, epoch: u64 },
    SizeChanged { size: SizeView },
    ProcessExited,
    Warning { message: Seq<char> },
    Error { message: Seq<char> },
}

impl View for ServerControlMessage {
    type V = MessageView;

    open spec fn view(&self) -> MessageView {
        match *self {
            ServerControlMessage::Ready => MessageView::Ready,
            ServerControlMessage::LeaseChanged { owner, epoch } => MessageView::LeaseChanged {
                owner,
                epoch,
            },
            ServerControlMessage::SizeChanged { size } => MessageView::SizeChanged { size: size@ },
            ServerControlMessage::ProcessExited => MessageView::ProcessExited,
            ServerControlMessage::Warning { message } => MessageView::Warning {
                message: message@,
            },
            ServerControlMessage::Error { message } => MessageView::Error { message: message@ },
        }
    }
}

impl Clone for ServerControlMessage {
    fn clone(&self) -> (copy: ServerControlMessage)
        ensures
            copy@ == self@,
    {
        match self {
            ServerControlMessage::Ready => ServerControlMessage::Ready,
            ServerControlMessage::LeaseChanged { owner, epoch } => {
                ServerControlMessage::LeaseChanged { owner: *owner, epoch: *epoch }
            },
            ServerControlMessage::SizeChanged { size } => {
                ServerControlMessage::SizeChanged { size: *size }
            },
            ServerControlMessage::ProcessExited => ServerControlMessage::ProcessExited,
            ServerControlMessage::Warning { message } => {
                ServerControlMessage::Warning { message: message.clone() }
            },
            ServerControlMessage::Error { message } => {
                ServerControlMessage::Error { message: message.clone() }
            },
        }
    }
}

impl MessageView {
    /// Whether the texts and sizes in the message are admitted.
    pub open spec fn valid(self) -> bool {
        match self {
            MessageView::SizeChanged { size } => size.valid(),
            MessageView::Warning { message } => is_safe_message(message),
            MessageView::Error { message } => is_safe_message(message),
            _ => true,
        }
    }
}

} // verus!
