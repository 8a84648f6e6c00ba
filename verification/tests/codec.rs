use bytes::Bytes;
use termstage_core::codec::JsonTunnelCodec;
use termstage_core::protocol::{
    HeartbeatSequence, LeaseOwner, SafeMessage, ServerControlMessage, SessionName, TerminalSize,
};
use termstage_core::runtime::ClientId;
use termstage_core::tunnel::{
    TunnelCloseReason, TunnelCodec, TunnelError, TunnelFrame, TunnelPayload, TunnelRuntimeControl,
    TunnelTerminalPayload, TUNNEL_TERMINAL_PAYLOAD_MAX_BYTES,
};

fn payload(bytes: &[u8]) -> TunnelTerminalPayload {
    TunnelTerminalPayload::new(Bytes::from(bytes.to_vec())).unwrap()
}

fn size(cols: u16, rows: u16) -> TerminalSize {
    TerminalSize::new(cols, rows).unwrap()
}

fn message(text: &str) -> SafeMessage {
    SafeMessage::new(text.to_string()).unwrap()
}

fn server(message: ServerControlMessage) -> TunnelFrame {
    TunnelFrame::RuntimeControl {
        client_id: None,
        control: TunnelRuntimeControl::Server { message },
    }
}

fn closed(reason: TunnelCloseReason) -> TunnelFrame {
    TunnelFrame::RuntimeControl {
        client_id: Some(ClientId::new(1)),
        control: TunnelRuntimeControl::Closed { reason },
    }
}

fn decode(text: &str) -> Result<TunnelFrame, TunnelError> {
    JsonTunnelCodec.decode(TunnelPayload::Text(text.to_string()))
}

fn is_refused(text: &str) -> bool {
    matches!(decode(text), Err(TunnelError::Json(_)))
}

fn encodes_as(frame: TunnelFrame, text: &str) {
    let payload = JsonTunnelCodec.encode(&frame).unwrap();
    assert_eq!(payload, TunnelPayload::Text(text.to_string()));
    assert!(JsonTunnelCodec.decode(payload).unwrap() == frame);
}

#[test]
fn register_session_has_its_json_form() {
    encodes_as(
        TunnelFrame::RegisterSession {
            session: SessionName::new("sess-a".to_string()).unwrap(),
            command_display: message("bash \"-l\"\n"),
            size: size(80, 24),
        },
        "{\"type\":\"registerSession\",\"session\":\"sess-a\",\"commandDisplay\":\"bash \\\"-l\\\"\\n\",\"size\":{\"cols\":80,\"rows\":24}}",
    );
}

#[test]
fn browser_frames_have_their_json_forms() {
    let client_id = ClientId::new(7);
    encodes_as(
        TunnelFrame::AttachBrowser { client_id },
        "{\"type\":\"attachBrowser\",\"clientId\":7}",
    );
    encodes_as(
        TunnelFrame::DetachBrowser { client_id },
        "{\"type\":\"detachBrowser\",\"clientId\":7}",
    );
    encodes_as(
        TunnelFrame::BrowserInput { client_id, bytes: payload(b"pwd\n") },
        "{\"type\":\"browserInput\",\"clientId\":7,\"bytes\":[112,119,100,10]}",
    );
    encodes_as(
        TunnelFrame::BrowserResize { client_id, size: size(120, 40) },
        "{\"type\":\"browserResize\",\"clientId\":7,\"size\":{\"cols\":120,\"rows\":40}}",
    );
}

#[test]
fn runtime_frames_have_their_json_forms() {
    encodes_as(
        TunnelFrame::PtyOutput { bytes: payload(&[]) },
        "{\"type\":\"ptyOutput\",\"bytes\":[]}",
    );
    encodes_as(
        TunnelFrame::PtyOutput { bytes: payload(&[0, 255]) },
        "{\"type\":\"ptyOutput\",\"bytes\":[0,255]}",
    );
    encodes_as(
        TunnelFrame::Heartbeat { sequence: HeartbeatSequence::new(u64::MAX) },
        "{\"type\":\"heartbeat\",\"sequence\":18446744073709551615}",
    );
}

#[test]
fn control_messages_have_their_json_forms() {
    let head = "{\"type\":\"runtimeControl\",\"clientId\":null,\"control\":{\"type\":\"server\",\"message\":";
    let cases = vec![
        (ServerControlMessage::Ready, "{\"type\":\"ready\"}"),
        (
            ServerControlMessage::LeaseChanged { owner: LeaseOwner::Browser, epoch: 4 },
            "{\"type\":\"leaseChanged\",\"owner\":\"browser\",\"epoch\":4}",
        ),
        (
            ServerControlMessage::LeaseChanged { owner: LeaseOwner::Local, epoch: 5 },
            "{\"type\":\"leaseChanged\",\"owner\":\"local\",\"epoch\":5}",
        ),
        (
            ServerControlMessage::SizeChanged { size: size(1, 2) },
            "{\"type\":\"sizeChanged\",\"size\":{\"cols\":1,\"rows\":2}}",
        ),
        (ServerControlMessage::ProcessExited, "{\"type\":\"processExited\"}"),
        (
            ServerControlMessage::Warning { message: message("low: space") },
            "{\"type\":\"warning\",\"message\":\"low: space\"}",
        ),
        (
            ServerControlMessage::Error { message: message("\u{e9}") },
            "{\"type\":\"error\",\"message\":\"\u{e9}\"}",
        ),
    ];
    for (message, text) in cases {
        encodes_as(server(message), &format!("{}{}}}}}", head, text));
    }
}

#[test]
fn close_reasons_have_their_json_forms() {
    let head = "{\"type\":\"runtimeControl\",\"clientId\":1,\"control\":{\"type\":\"closed\",\"reason\":";
    let cases = vec![
        (TunnelCloseReason::Supervisor, "{\"reason\":\"supervisor\"}"),
        (TunnelCloseReason::ClientDisconnect, "{\"reason\":\"clientDisconnect\"}"),
        (TunnelCloseReason::ControllerReplaced, "{\"reason\":\"controllerReplaced\"}"),
        (TunnelCloseReason::ChildExit, "{\"reason\":\"childExit\"}"),
        (
            TunnelCloseReason::RuntimeError(message("pty lost")),
            "{\"reason\":\"runtimeError\",\"detail\":\"pty lost\"}",
        ),
    ];
    for (reason, text) in cases {
        encodes_as(closed(reason), &format!("{}{}}}}}", head, text));
    }
}

#[test]
fn order_and_space_do_not_matter() {
    let frame = decode(" { \"clientId\" : 7 ,\n \"type\" : \"attachBrowser\" } ").unwrap();
    assert!(frame == TunnelFrame::AttachBrowser { client_id: ClientId::new(7) });
}

#[test]
fn names_may_be_escaped() {
    let frame = decode("{\"t\\u0079pe\":\"heartbeat\",\"sequence\":3}").unwrap();
    assert!(frame == TunnelFrame::Heartbeat { sequence: HeartbeatSequence::new(3) });
}

#[test]
fn absent_client_is_no_client() {
    let frame = decode("{\"type\":\"runtimeControl\",\"control\":{\"type\":\"server\",\"message\":{\"type\":\"ready\"}}}").unwrap();
    assert!(frame == server(ServerControlMessage::Ready));
}

#[test]
fn arrays_list_the_tag_and_the_fields() {
    let frame = decode("[\"browserResize\",7,[120,40]]").unwrap();
    assert!(
        frame == TunnelFrame::BrowserResize { client_id: ClientId::new(7), size: size(120, 40) }
    );
    let frame = decode("[\"runtimeControl\",1,[1,[4,\"pty lost\"]]]").unwrap();
    assert!(frame == closed(TunnelCloseReason::RuntimeError(message("pty lost"))));
    assert!(is_refused("[\"browserResize\",7]"));
    assert!(is_refused("[\"browserResize\",7,[120,40],0]"));
    assert!(is_refused("[]"));
}

#[test]
fn only_inner_tags_may_be_places() {
    let frame = decode("{\"type\":\"runtimeControl\",\"clientId\":1,\"control\":{\"type\":1,\"reason\":{\"reason\":\"childExit\"}}}").unwrap();
    assert!(frame == closed(TunnelCloseReason::ChildExit));
    assert!(is_refused("{\"type\":7,\"sequence\":3}"));
}

#[test]
fn close_reasons_have_other_forms() {
    let head = "{\"type\":\"runtimeControl\",\"clientId\":1,\"control\":{\"type\":\"closed\",\"reason\":";
    let accepted = [
        "{\"detail\":null,\"reason\":\"supervisor\"}",
        "{\"reason\":{\"supervisor\":null}}",
        "{\"reason\":{\"supervisor\":{}}}",
        "[\"supervisor\",null]",
    ];
    for text in accepted {
        let frame = decode(&format!("{}{}}}}}", head, text)).unwrap();
        assert!(frame == closed(TunnelCloseReason::Supervisor));
    }
    let refused = [
        "{\"reason\":\"supervisor\",\"detail\":\"x\"}",
        "{\"reason\":\"supervisor\",\"extra\":1}",
        "{\"reason\":\"supervisor\",\"since\":[1,2.5,-3]}",
        "{\"reason\":\"runtimeError\",\"detail\":\"x\",\"type\":\"closed\"}",
        "{\"reason\":\"supervisor\",\"reason\":\"supervisor\"}",
        "{\"reason\":\"runtimeError\"}",
        "{\"reason\":0}",
        "{\"reason\":{\"supervisor\":1}}",
        "{\"reason\":\"unknown\"}",
        "{\"detail\":null}",
        "[\"supervisor\"]",
        "[\"supervisor\",null,1]",
        "\"supervisor\"",
    ];
    for text in refused {
        assert!(is_refused(&format!("{}{}}}}}", head, text)));
    }
}

#[test]
fn lease_owners_may_stand_as_objects() {
    let head = "{\"type\":\"runtimeControl\",\"control\":{\"type\":\"server\",\"message\":{\"type\":\"leaseChanged\",\"epoch\":4,\"owner\":";
    let frame = decode(&format!("{}{}}}}}}}", head, "{\"browser\":null}")).unwrap();
    assert!(
        frame
            == server(ServerControlMessage::LeaseChanged { owner: LeaseOwner::Browser, epoch: 4 })
    );
    assert!(is_refused(&format!("{}{}}}}}}}", head, "1")));
    assert!(is_refused(&format!("{}{}}}}}}}", head, "\"nobody\"")));
}

#[test]
fn unknown_members_are_refused() {
    assert!(is_refused("{\"type\":\"heartbeat\",\"sequence\":3,\"extra\":1}"));
    assert!(is_refused("{\"type\":\"runtimeControl\",\"control\":{\"type\":\"closed\",\"reason\":{\"reason\":\"supervisor\",\"extra\":1}}}"));
    assert!(is_refused("{\"type\":\"runtimeControl\",\"control\":{\"type\":\"server\",\"message\":{\"type\":\"ready\",\"extra\":1}}}"));
    assert!(is_refused("{\"type\":\"browserResize\",\"clientId\":7,\"size\":{\"cols\":1,\"rows\":1,\"depth\":1}}"));
    assert!(is_refused("{\"type\":\"runtimeControl\",\"clientId\":null,\"control\":{\"type\":\"closed\",\"reason\":{\"reason\":\"childExit\"},\"extra\":1}}"));
}

#[test]
fn member_names_are_camel_case() {
    assert!(decode("{\"type\":\"attachBrowser\",\"clientId\":7}").is_ok());
    assert!(is_refused("{\"type\":\"attachBrowser\",\"client_id\":7}"));
    assert!(is_refused("{\"type\":\"attachBrowser\",\"ClientId\":7}"));
    assert!(is_refused("{\"type\":\"attach_browser\",\"clientId\":7}"));
    assert!(decode("{\"type\":\"registerSession\",\"session\":\"a\",\"commandDisplay\":\"\",\"size\":{\"cols\":1,\"rows\":1}}").is_ok());
    assert!(is_refused("{\"type\":\"registerSession\",\"session\":\"a\",\"command_display\":\"\",\"size\":{\"cols\":1,\"rows\":1}}"));
}

#[test]
fn missing_members_are_refused() {
    assert!(is_refused("{\"sequence\":3}"));
    assert!(is_refused("{\"type\":\"heartbeat\"}"));
    assert!(is_refused("{\"type\":\"runtimeControl\",\"clientId\":null}"));
    assert!(is_refused("{}"));
}

#[test]
fn repeated_members_are_refused() {
    assert!(is_refused("{\"type\":\"heartbeat\",\"sequence\":3,\"sequence\":3}"));
    assert!(is_refused("{\"type\":\"heartbeat\",\"type\":\"heartbeat\",\"sequence\":3}"));
    assert!(is_refused("{\"type\":\"heartbeat\",\"sequence\":3,\"sequenc\\u0065\":4}"));
}

#[test]
fn colons_and_quotes_in_texts_are_no_members() {
    encodes_as(
        server(ServerControlMessage::Warning { message: message("a\\\":\":\\") }),
        "{\"type\":\"runtimeControl\",\"clientId\":null,\"control\":{\"type\":\"server\",\"message\":{\"type\":\"warning\",\"message\":\"a\\\\\\\":\\\":\\\\\"}}}",
    );
}

#[test]
fn wrong_values_are_refused() {
    assert!(is_refused("{\"type\":\"heartbeat\",\"sequence\":-1}"));
    assert!(is_refused("{\"type\":\"heartbeat\",\"sequence\":1.0}"));
    assert!(is_refused("{\"type\":\"heartbeat\",\"sequence\":18446744073709551616}"));
    assert!(is_refused("{\"type\":\"heartbeat\",\"sequence\":\"1\"}"));
    assert!(is_refused("{\"type\":\"ptyOutput\",\"bytes\":[256]}"));
    assert!(is_refused("{\"type\":\"ptyOutput\",\"bytes\":\"abc\"}"));
    assert!(is_refused("{\"type\":\"browserResize\",\"clientId\":7,\"size\":{\"cols\":0,\"rows\":40}}"));
    assert!(is_refused("{\"type\":\"browserResize\",\"clientId\":7,\"size\":{\"cols\":65536,\"rows\":40}}"));
    assert!(is_refused("{\"type\":\"registerSession\",\"session\":\"a/b\",\"commandDisplay\":\"\",\"size\":{\"cols\":1,\"rows\":1}}"));
    assert!(is_refused("{\"type\":\"unknown\"}"));
}

#[test]
fn text_that_is_no_json_is_refused() {
    assert!(is_refused(""));
    assert!(is_refused("{\"type\":\"heartbeat\",\"sequence\":3} x"));
    assert!(is_refused("{\"type\":\"heartbeat\",\"sequence\":3"));
    assert!(is_refused(&"[".repeat(200)));
}

#[test]
fn binary_payload_is_unsupported() {
    assert!(matches!(
        JsonTunnelCodec.decode(TunnelPayload::Binary(Bytes::from_static(b"{}"))),
        Err(TunnelError::UnsupportedPayload)
    ));
}

#[test]
fn payload_cap_holds_on_the_wire() {
    let full = vec![b'x'; TUNNEL_TERMINAL_PAYLOAD_MAX_BYTES];
    let frame = TunnelFrame::PtyOutput { bytes: payload(&full) };
    let encoded = JsonTunnelCodec.encode(&frame).unwrap();
    assert!(JsonTunnelCodec.decode(encoded).unwrap() == frame);

    let mut text = "{\"type\":\"ptyOutput\",\"bytes\":[1".to_string();
    text.push_str(&",1".repeat(TUNNEL_TERMINAL_PAYLOAD_MAX_BYTES));
    text.push_str("]}");
    assert!(is_refused(&text));
}
