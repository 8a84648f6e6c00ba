use termstage_core::codec::JsonTunnelCodec;
use termstage_core::inspect::refuse;
use termstage_core::json::{parse, Json};
use termstage_core::refusal::Shape;
use termstage_core::tunnel::{
    TunnelCodec, TunnelError, TunnelPayload, TUNNEL_TERMINAL_PAYLOAD_MAX_BYTES,
};

fn says(text: &str, expected: &str) {
    match JsonTunnelCodec.decode(TunnelPayload::Text(text.to_string())) {
        Err(TunnelError::Json(error)) => assert_eq!(error.to_string(), expected),
        _ => panic!("expected a JSON failure"),
    }
}

fn reason_says(reason: &str, expected: &str) {
    let head = "{\"type\":\"runtimeControl\",\"control\":{\"type\":\"closed\",\"reason\":";
    says(&format!("{}{}}}}}", head, reason), expected);
}

fn message_says(message: &str, expected: &str) {
    let head = "{\"type\":\"runtimeControl\",\"control\":{\"type\":\"server\",\"message\":";
    says(&format!("{}{}}}}}", head, message), expected);
}

#[test]
fn missing_fields_are_named() {
    says("{\"type\":\"heartbeat\"}", "missing field `sequence`");
    says("{\"type\":\"browserInput\"}", "missing field `clientId`");
    says("{\"type\":\"browserInput\",\"clientId\":1}", "missing field `bytes`");
    says("{\"type\":\"runtimeControl\"}", "missing field `control`");
    says("{\"sequence\":3}", "missing field `type`");
    says("[]", "missing field `type`");
    says(
        "{\"type\":\"runtimeControl\",\"control\":{\"type\":\"server\"}}",
        "missing field `message`",
    );
    reason_says("{}", "missing field `reason`");
    reason_says("{\"detail\":null}", "missing field `reason`");
    reason_says("{\"reason\":\"runtimeError\"}", "missing field `detail`");
}

#[test]
fn unknown_fields_are_named_with_those_that_are_known() {
    says(
        "{\"type\":\"heartbeat\",\"sequence\":3,\"extra\":1}",
        "unknown field `extra`, expected `sequence`",
    );
    says(
        "{\"type\":\"attachBrowser\",\"client_id\":7}",
        "unknown field `client_id`, expected `clientId`",
    );
    says(
        "{\"type\":\"browserInput\",\"extra\":1}",
        "unknown field `extra`, expected `clientId` or `bytes`",
    );
    says(
        "{\"type\":\"registerSession\",\"extra\":1}",
        "unknown field `extra`, expected one of `session`, `commandDisplay`, `size`",
    );
    message_says("{\"type\":\"ready\",\"extra\":1}", "unknown field `extra`, there are no fields");
    reason_says(
        "{\"reason\":\"supervisor\",\"extra\":1}",
        "invalid value: string \"extra\", expected \"reason\" or \"detail\"",
    );
}

#[test]
fn unknown_variants_are_named_with_those_that_are_known() {
    says(
        "{\"type\":\"nope\"}",
        "unknown variant `nope`, expected one of `registerSession`, `attachBrowser`, `detachBrowser`, `browserInput`, `browserResize`, `ptyOutput`, `runtimeControl`, `heartbeat`",
    );
    says(
        "{\"type\":\"runtimeControl\",\"control\":{\"type\":\"nope\"}}",
        "unknown variant `nope`, expected `server` or `closed`",
    );
    reason_says(
        "{\"reason\":\"nope\"}",
        "unknown variant `nope`, expected one of `supervisor`, `clientDisconnect`, `controllerReplaced`, `childExit`, `runtimeError`",
    );
    message_says(
        "{\"type\":\"leaseChanged\",\"owner\":\"nope\",\"epoch\":1}",
        "unknown variant `nope`, expected `local` or `browser`",
    );
}

#[test]
fn wrong_types_are_described() {
    says("null", "invalid type: null, expected internally tagged enum TunnelFrame");
    says("{\"type\":7}", "invalid type: integer `7`, expected variant identifier");
    says(
        "{\"type\":\"heartbeat\",\"sequence\":true}",
        "invalid type: boolean `true`, expected u64",
    );
    says(
        "{\"type\":\"heartbeat\",\"sequence\":1.0}",
        "invalid type: floating point `1.0`, expected u64",
    );
    says("{\"type\":\"heartbeat\",\"sequence\":[]}", "invalid type: sequence, expected u64");
    says("{\"type\":\"heartbeat\",\"sequence\":{}}", "invalid type: map, expected u64");
    says(
        "{\"type\":\"ptyOutput\",\"bytes\":\"a\\n\"}",
        "invalid type: string \"a\\n\", expected a sequence",
    );
    says(
        "{\"type\":\"runtimeControl\",\"control\":1}",
        "invalid type: integer `1`, expected internally tagged enum TunnelRuntimeControl",
    );
    reason_says(
        "\"supervisor\"",
        "invalid type: string \"supervisor\", expected adjacently tagged enum TunnelCloseReason",
    );
    reason_says("{\"reason\":0}", "invalid type: integer `0`, expected string or map");
    reason_says("{\"reason\":{\"supervisor\":1}}", "invalid type: integer `1`, expected unit");
    reason_says(
        "{\"reason\":\"supervisor\",\"detail\":\"x\"}",
        "invalid type: string \"x\", expected unit variant TunnelCloseReason::Supervisor",
    );
    reason_says(
        "[\"childExit\",0]",
        "invalid type: integer `0`, expected unit variant TunnelCloseReason::ChildExit",
    );
}

#[test]
fn wrong_values_are_described() {
    says(
        "{\"type\":\"heartbeat\",\"sequence\":-1}",
        "invalid value: integer `-1`, expected u64",
    );
    says("{\"type\":\"ptyOutput\",\"bytes\":[1,256]}", "invalid value: integer `256`, expected u8");
    says(
        "{\"type\":\"ptyOutput\",\"bytes\":[1.5]}",
        "invalid type: floating point `1.5`, expected u8",
    );
    says(
        "{\"type\":\"browserResize\",\"clientId\":1,\"size\":{\"cols\":65536,\"rows\":1}}",
        "invalid value: integer `65536`, expected u16",
    );
    says(
        "{\"type\":\"runtimeControl\",\"control\":{\"type\":2}}",
        "invalid value: integer `2`, expected variant index 0 <= i < 2",
    );
    reason_says("[9,null]", "invalid value: integer `9`, expected variant index 0 <= i < 5");
    reason_says("{\"reason\":{}}", "invalid value: map, expected map with a single key");
}

#[test]
fn wrong_lengths_are_described() {
    says(
        "[\"browserResize\",7]",
        "invalid length 1, expected struct variant TunnelFrame::BrowserResize with 2 elements",
    );
    says("[\"heartbeat\",1,2,3]", "invalid length 3, expected 1 element in sequence");
    reason_says(
        "[]",
        "invalid length 0, expected adjacently tagged enum TunnelCloseReason",
    );
    reason_says(
        "[\"supervisor\"]",
        "invalid length 1, expected adjacently tagged enum TunnelCloseReason",
    );
    reason_says(
        "[\"supervisor\",null,1]",
        "invalid length 3, expected 2 elements in sequence",
    );
}

#[test]
fn broken_bounds_are_described() {
    let mut text = "{\"type\":\"ptyOutput\",\"bytes\":[1".to_string();
    text.push_str(&",1".repeat(TUNNEL_TERMINAL_PAYLOAD_MAX_BYTES));
    text.push_str("]}");
    says(&text, "tunnel terminal payload exceeds 65536 bytes");
    says(
        "{\"type\":\"browserResize\",\"clientId\":1,\"size\":{\"cols\":0,\"rows\":1}}",
        "invalid terminal size",
    );
    says("{\"type\":\"registerSession\",\"session\":\"a b\"}", "invalid session name");
    reason_says(
        &format!("{{\"reason\":\"runtimeError\",\"detail\":\"{}\"}}", "x".repeat(257)),
        "message is too long",
    );
}

#[test]
fn the_first_fault_is_reported() {
    says(
        "{\"type\":\"browserInput\",\"bytes\":[256],\"clientId\":\"x\",\"extra\":1}",
        "invalid value: integer `256`, expected u8",
    );
    says(
        "{\"extra\":1,\"bytes\":[256],\"type\":\"browserInput\"}",
        "unknown field `extra`, expected `clientId` or `bytes`",
    );
    reason_says(
        "{\"reason\":\"nope\",\"extra\":1}",
        "unknown variant `nope`, expected one of `supervisor`, `clientDisconnect`, `controllerReplaced`, `childExit`, `runtimeError`",
    );
    reason_says(
        "{\"detail\":1,\"reason\":\"supervisor\"}",
        "invalid type: integer `1`, expected unit variant TunnelCloseReason::Supervisor",
    );
}

#[test]
fn text_errors_are_those_of_serde_json() {
    says("", "EOF while parsing a value at line 1 column 0");
    says("{\"type\":\"heartbeat\",\"sequence\":3} x", "trailing characters at line 1 column 35");
    says("{\"type\":\"heartbeat\",\"sequence\":3", "EOF while parsing an object at line 1 column 32");
    says("{\"type\":\"heartbeat\",\"sequence\":3,\"sequence\":3}", "object repeats a name");
}

#[test]
fn repeated_members_are_named() {
    let sequence = || ("sequence".to_string(), Json::Number(3));
    let tag = || ("type".to_string(), Json::Text("heartbeat".to_string()));
    let error = refuse(Shape::Frame, &Json::Object(vec![tag(), sequence(), sequence()])).unwrap();
    assert_eq!(error.to_string(), "duplicate field `sequence`");
    let error = refuse(Shape::Frame, &Json::Object(vec![tag(), tag(), sequence()])).unwrap();
    assert_eq!(error.to_string(), "duplicate field `type`");
    let reason = || ("reason".to_string(), Json::Text("supervisor".to_string()));
    let error = refuse(Shape::Reason, &Json::Object(vec![reason(), reason()])).unwrap();
    assert_eq!(error.to_string(), "duplicate field `reason`");
}

#[test]
fn nothing_is_wrong_with_frames() {
    for text in [
        "{\"type\":\"heartbeat\",\"sequence\":3}",
        "[\"browserResize\",7,[120,40]]",
        "{\"type\":\"runtimeControl\",\"control\":{\"type\":\"server\",\"message\":[\"ready\"]}}",
    ] {
        assert!(refuse(Shape::Frame, &parse(text).unwrap()).is_none());
    }
}
