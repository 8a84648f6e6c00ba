use bytes::Bytes;
use termstage_core::codec::JsonTunnelCodec;
use termstage_core::protocol::{LeaseOwner, SafeMessage, ServerControlMessage, TerminalSize};
use termstage_core::runtime::{ClientId, ClientOutput, RuntimeCommand, ShutdownReason};
use termstage_core::tunnel::{
    RuntimeTunnelAction, RuntimeTunnelBridge, TunnelCloseReason, TunnelCodec, TunnelError,
    TunnelFrame, TunnelRuntimeControl, TunnelTerminalPayload, TUNNEL_TERMINAL_PAYLOAD_MAX_BYTES,
};

#[test]
fn test_should_round_trip_json_tunnel_frame() {
    let codec = JsonTunnelCodec;
    let frame = TunnelFrame::BrowserResize {
        client_id: ClientId::new(7),
        size: TerminalSize::new(120, 40).unwrap(),
    };

    let payload = codec.encode(&frame).unwrap();
    let decoded = codec.decode(payload).unwrap();

    assert!(decoded == frame);
}

#[test]
fn test_should_reject_oversized_terminal_payload() {
    let bytes = Bytes::from(vec![b'x'; TUNNEL_TERMINAL_PAYLOAD_MAX_BYTES + 1]);

    assert!(matches!(
        TunnelTerminalPayload::new(bytes),
        Err(TunnelError::TerminalPayloadTooLarge)
    ));
}

#[test]
fn test_should_map_browser_input_to_runtime_command() {
    let client_id = ClientId::new(3);
    let frame = TunnelFrame::BrowserInput {
        client_id,
        bytes: TunnelTerminalPayload::new(Bytes::from_static(b"pwd\n")).unwrap(),
    };

    let RuntimeTunnelAction::Command(RuntimeCommand::Input {
        client_id: id,
        bytes,
    }) = RuntimeTunnelBridge::action_from_frame(frame)
    else {
        panic!("expected runtime input command");
    };

    assert_eq!(id, client_id);
    assert_eq!(bytes, Bytes::from_static(b"pwd\n"));
}

#[test]
fn test_should_map_runtime_control_to_tunnel_frame() {
    let frame = RuntimeTunnelBridge::frame_from_output(
        Some(ClientId::new(9)),
        ClientOutput::Control(ServerControlMessage::LeaseChanged {
            owner: LeaseOwner::Browser,
            epoch: 4,
        }),
    )
    .unwrap();

    assert!(
        frame
            == TunnelFrame::RuntimeControl {
                client_id: Some(ClientId::new(9)),
                control: TunnelRuntimeControl::Server {
                    message: ServerControlMessage::LeaseChanged {
                        owner: LeaseOwner::Browser,
                        epoch: 4,
                    },
                },
            }
    );
}

#[test]
fn test_should_map_runtime_close_to_safe_tunnel_reason() {
    let frame = RuntimeTunnelBridge::frame_from_output(
        None,
        ClientOutput::Closed(ShutdownReason::RuntimeError("x".repeat(600))),
    )
    .unwrap();

    assert!(
        frame
            == TunnelFrame::RuntimeControl {
                client_id: None,
                control: TunnelRuntimeControl::Closed {
                    reason: TunnelCloseReason::RuntimeError(SafeMessage::from_static(
                        "runtime error"
                    )),
                },
            }
    );
}
