use bytes::Bytes;
use termstage_core::codec::JsonTunnelCodec;
use termstage_core::json::{parse, print, Json};
use termstage_core::protocol::{
    HeartbeatSequence, ProtocolError, SafeMessage, ServerControlMessage, SessionName, TerminalSize,
};
use termstage_core::runtime::{
    ClientId, ClientOutput, ClientOutputTx, RuntimeCommand, ShutdownReason,
};
use termstage_core::tunnel::{
    RuntimeTunnelAction, RuntimeTunnelBridge, TunnelCloseReason, TunnelCodec, TunnelError,
    TunnelFrame, TunnelPayload, TunnelRuntimeControl, TunnelTerminalPayload,
    TUNNEL_TERMINAL_PAYLOAD_MAX_BYTES,
};

fn payload(bytes: &'static [u8]) -> TunnelTerminalPayload {
    TunnelTerminalPayload::new(Bytes::from_static(bytes)).unwrap()
}

#[test]
fn payload_holds_its_bytes() {
    let full = payload(b"pwd\n");
    assert_eq!(full.len(), 4);
    assert!(!full.is_empty());
    assert_eq!(full.as_bytes(), b"pwd\n");
    assert!(full.clone() == full);
    assert_eq!(full.into_bytes(), Bytes::from_static(b"pwd\n"));

    let empty = payload(b"");
    assert_eq!(empty.len(), 0);
    assert!(empty.is_empty());
    assert_eq!(empty.as_bytes(), b"");
}

#[test]
fn terminal_bytes_are_not_copied() {
    let bytes = Bytes::from(b"pwd\n".to_vec());
    let place = bytes.as_ptr();
    let frame =
        RuntimeTunnelBridge::frame_from_output(None, ClientOutput::Bytes(bytes)).unwrap();
    let TunnelFrame::PtyOutput { bytes } = frame else {
        panic!("expected terminal output");
    };
    assert_eq!(bytes.as_bytes().as_ptr(), place);
    let input = TunnelFrame::BrowserInput { client_id: ClientId::new(3), bytes };
    let RuntimeTunnelAction::Command(RuntimeCommand::Input { bytes, .. }) =
        RuntimeTunnelBridge::action_from_frame(input)
    else {
        panic!("expected runtime input command");
    };
    assert_eq!(bytes.as_ptr(), place);
}

#[test]
fn payload_cap_is_64_kib() {
    assert_eq!(TUNNEL_TERMINAL_PAYLOAD_MAX_BYTES, 65536);
    let largest = Bytes::from(vec![0u8; 65536]);
    assert_eq!(TunnelTerminalPayload::new(largest).unwrap().len(), 65536);
}

#[test]
fn payload_debug_text_tells_only_the_length() {
    assert_eq!(payload(b"pwd\n").debug_text(), "TunnelTerminalPayload { len: 4 }");
    assert_eq!(payload(b"ls -").debug_text(), "TunnelTerminalPayload { len: 4 }");
    assert_eq!(payload(b"").debug_text(), "TunnelTerminalPayload { len: 0 }");
    let largest = TunnelTerminalPayload::new(Bytes::from(vec![7u8; 65536])).unwrap();
    assert_eq!(largest.debug_text(), "TunnelTerminalPayload { len: 65536 }");
}

#[test]
fn errors_have_their_messages() {
    assert_eq!(
        TunnelError::TerminalPayloadTooLarge.message(),
        "tunnel terminal payload exceeds 65536 bytes"
    );
    assert_eq!(
        TunnelError::UnsupportedPayload.message(),
        "unsupported tunnel payload for codec"
    );
    let Err(error) = JsonTunnelCodec.decode(TunnelPayload::Text("{".to_string())) else {
        panic!("expected a failure");
    };
    assert_eq!(error.message(), "failed to encode or decode tunnel JSON frame");
}

#[test]
fn messages_are_bounded() {
    assert_eq!(SafeMessage::new("x".repeat(256)).unwrap().as_str(), "x".repeat(256));
    assert_eq!(SafeMessage::new("x".repeat(257)), Err(ProtocolError::MessageTooLong));
    assert!(SafeMessage::new("\u{e9}".repeat(128)).is_ok());
    assert!(SafeMessage::new("\u{e9}".repeat(129)).is_err());
    assert_eq!(SafeMessage::new(String::new()).unwrap().as_str(), "");
}

#[test]
fn session_names_are_checked() {
    assert_eq!(SessionName::new("Az09_.-".to_string()).unwrap().as_str(), "Az09_.-");
    assert!(SessionName::new("a".repeat(64)).is_ok());
    for text in ["".to_string(), "a".repeat(65), "a b".to_string(), "\u{e9}".to_string()] {
        assert_eq!(SessionName::new(text), Err(ProtocolError::InvalidSessionName));
    }
}

#[test]
fn terminal_sizes_are_checked() {
    let size = TerminalSize::new(120, 40).unwrap();
    assert_eq!((size.cols(), size.rows()), (120, 40));
    assert_eq!(TerminalSize::new(0, 40), Err(ProtocolError::InvalidTerminalSize));
    assert_eq!(TerminalSize::new(120, 0), Err(ProtocolError::InvalidTerminalSize));
}

#[test]
fn ids_hold_their_numbers() {
    assert_eq!(ClientId::new(9).get(), 9);
    assert_eq!(HeartbeatSequence::new(10).get(), 10);
}

#[test]
fn shutdown_reasons_become_close_reasons() {
    let cases = vec![
        (ShutdownReason::Supervisor, TunnelCloseReason::Supervisor),
        (ShutdownReason::ClientDisconnect, TunnelCloseReason::ClientDisconnect),
        (ShutdownReason::ControllerReplaced, TunnelCloseReason::ControllerReplaced),
        (ShutdownReason::ChildExit, TunnelCloseReason::ChildExit),
        (
            ShutdownReason::RuntimeError("pty lost".to_string()),
            TunnelCloseReason::RuntimeError(SafeMessage::from_static("pty lost")),
        ),
        (
            ShutdownReason::RuntimeError("x".repeat(257)),
            TunnelCloseReason::RuntimeError(SafeMessage::from_static("runtime error")),
        ),
    ];
    for (shutdown, close) in cases {
        assert_eq!(TunnelCloseReason::from_shutdown_reason(shutdown), close);
    }
}

#[test]
fn browser_frames_become_actions() {
    let client_id = ClientId::new(3);
    let size = TerminalSize::new(120, 40).unwrap();
    assert!(matches!(
        RuntimeTunnelBridge::action_from_frame(TunnelFrame::AttachBrowser { client_id }),
        RuntimeTunnelAction::AttachBrowser { client_id: id } if id == client_id
    ));
    assert!(matches!(
        RuntimeTunnelBridge::action_from_frame(TunnelFrame::DetachBrowser { client_id }),
        RuntimeTunnelAction::Command(RuntimeCommand::DetachClient { client_id: id })
            if id == client_id
    ));
    assert!(matches!(
        RuntimeTunnelBridge::action_from_frame(TunnelFrame::BrowserResize { client_id, size }),
        RuntimeTunnelAction::Command(RuntimeCommand::BrowserResize { client_id: id, size: proposed })
            if id == client_id && proposed == size
    ));
}

#[test]
fn runtime_frames_ask_for_nothing() {
    let frames = vec![
        TunnelFrame::RegisterSession {
            session: SessionName::new("sess-a".to_string()).unwrap(),
            command_display: SafeMessage::from_static("bash"),
            size: TerminalSize::new(80, 24).unwrap(),
        },
        TunnelFrame::PtyOutput { bytes: payload(b"$ ") },
        TunnelFrame::RuntimeControl {
            client_id: None,
            control: TunnelRuntimeControl::Server { message: ServerControlMessage::Ready },
        },
        TunnelFrame::Heartbeat { sequence: HeartbeatSequence::new(1) },
    ];
    for frame in frames {
        assert!(frame.clone() == frame);
        assert!(matches!(
            RuntimeTunnelBridge::action_from_frame(frame),
            RuntimeTunnelAction::NoAction
        ));
    }
}

#[test]
fn attach_command_hands_over_the_mailbox() {
    let output = ClientOutputTx { mailbox: 12 };
    assert!(matches!(
        RuntimeTunnelBridge::attach_command(ClientId::new(3), output),
        RuntimeCommand::AttachClient { client_id, output: handed }
            if client_id == ClientId::new(3) && handed == output
    ));
}

#[test]
fn output_bytes_become_a_frame() {
    let frame = RuntimeTunnelBridge::frame_from_output(
        Some(ClientId::new(9)),
        ClientOutput::Bytes(Bytes::from_static(b"$ ")),
    )
    .unwrap();
    assert!(frame == TunnelFrame::PtyOutput { bytes: payload(b"$ ") });
    assert!(matches!(
        RuntimeTunnelBridge::action_from_frame(frame),
        RuntimeTunnelAction::NoAction
    ));
}

#[test]
fn oversized_output_is_refused() {
    assert!(matches!(
        RuntimeTunnelBridge::frame_from_output(
            None,
            ClientOutput::Bytes(Bytes::from(vec![0u8; 65537])),
        ),
        Err(TunnelError::TerminalPayloadTooLarge)
    ));
}

#[test]
fn json_values_have_their_text() {
    let json = Json::Object(vec![
        ("b".to_string(), Json::Array(vec![Json::Null, Json::Bool(true), Json::Bool(false)])),
        ("a".to_string(), Json::Text("x".to_string())),
        ("c".to_string(), Json::Number(5)),
    ]);
    let text = print(&json).unwrap();
    assert_eq!(text, "{\"b\":[null,true,false],\"a\":\"x\",\"c\":5}");
    assert_eq!(parse(&text).unwrap(), json);
    assert_eq!(parse("-1").unwrap(), Json::Negative(-1));
    assert!(matches!(parse("2.5").unwrap(), Json::Float(number) if number.to_string() == "2.5"));
    assert!(parse("{\"a\":{\"b\":1,\"b\":2}}").is_err());
    assert!(parse("{\"a\":1,\"b\":{\"a\":1}}").is_ok());
}

#[test]
fn frames_are_read_from_json_values() {
    let json = Json::Object(vec![
        ("sequence".to_string(), Json::Number(5)),
        ("type".to_string(), Json::Text("heartbeat".to_string())),
    ]);
    let frame = TunnelFrame::from_json(&json).unwrap();
    assert!(frame == TunnelFrame::Heartbeat { sequence: HeartbeatSequence::new(5) });
    assert_eq!(
        frame.to_json(),
        Json::Object(vec![
            ("type".to_string(), Json::Text("heartbeat".to_string())),
            ("sequence".to_string(), Json::Number(5)),
        ])
    );
    assert!(TunnelFrame::from_json(&Json::Null).is_none());
}
