//! Finding what is wrong with a JSON value that is no frame.
use crate::errors::{
    custom_error, duplicate_field, ends_in_word, error_text, missing_field, unknown_field,
    unknown_variant, wrong_length, wrong_type, wrong_value,
};
use crate::json::{items_tree, lemma_tree_of_parts, members_tree, Json, JsonTree};
use crate::members::{
    find_member, find_place, find_tag, find_unit_variant, find_variant, occurrences, same_text,
    texts, };
use crate::protocol::{SafeMessage, SessionName};
use crate::reader::read_size;
use crate::refusal::{
    array_refusal, bytes_refusal, control_form, detail_refusal, fields_refusal, first_item,
    form_of, frame_form, integer_refusal, items_refusal, members_refusal, message_form,
    missing_refusal, reason_key_refusal, reason_members_refusal, reason_refusal, refusal,
    session_refusal, size_form, tag_refusal, text_refusal, unit_refusal, variant_refusal,
    variants_of, FormView, Shape,
};
use crate::tunnel::TUNNEL_TERMINAL_PAYLOAD_MAX_BYTES;
use crate::verdict::{
    lemma_counted_is_found, lemma_place_names, lemma_tag_names_variant, lemma_unit_is_named,
};
use crate::wire::{owner_names, reason_names};
use vstd::prelude::*;
use vstd::string::*;

verus! {

/// Whether an error shows a text, or neither is there.
pub open spec fn shows(error: Option<serde_json::Error>, text: Option<Seq<char>>) -> bool {
    match (error, text) {
        (Some(error), Some(text)) => error_text(error) == text,
        (None, None) => true,
        _ => false,
    }
}

/// The fields of a value, and how errors speak of it.
struct Form {
    names: &'static [&'static str],
    shapes: &'static [Shape],
    items: &'static str,
    count: &'static str,
}

impl View for Form {
    type V = FormView;

    closed spec fn view(&self) -> FormView {
        FormView {
            names: texts(self.names@),
            shapes: self.shapes@,
            items: self.items@,
            count: self.count@,
        }
    }
}

/// Writes down the form of a terminal size.
fn form_of_size() -> (form: Form)
    ensures
        form@ == size_form(),
{
    let form = Form {
        names: &["cols", "rows"],
        shapes: &[Shape::Short, Shape::Short],
        items: "struct TerminalSize with 2 elements",
        count: "2 elements in sequence",
    };
    proof {
        assert(form@.names =~= size_form().names);
        assert(form@.shapes =~= size_form().shapes);
    }
    form
}

/// Writes down the form of a variant of a control message.
fn form_of_message(variant: usize) -> (form: Form)
    ensures
        form@ == message_form(variant as int),
{
    let form = match variant {
        0 => Form {
            names: &[],
            shapes: &[],
            items: "struct variant ServerControlMessage::Ready with 0 elements",
            count: "0 elements in sequence",
        },
        1 => Form {
            names: &["owner", "epoch"],
            shapes: &[Shape::Owner, Shape::Number],
            items: "struct variant ServerControlMessage::LeaseChanged with 2 elements",
            count: "2 elements in sequence",
        },
        2 => Form {
            names: &["size"],
            shapes: &[Shape::Size],
            items: "struct variant ServerControlMessage::SizeChanged with 1 element",
            count: "1 element in sequence",
        },
        3 => Form {
            names: &[],
            shapes: &[],
            items: "struct variant ServerControlMessage::ProcessExited with 0 elements",
            count: "0 elements in sequence",
        },
        4 => Form {
            names: &["message"],
            shapes: &[Shape::Text],
            items: "struct variant ServerControlMessage::Warning with 1 element",
            count: "1 element in sequence",
        },
        _ => Form {
            names: &["message"],
            shapes: &[Shape::Text],
            items: "struct variant ServerControlMessage::Error with 1 element",
            count: "1 element in sequence",
        },
    };
    proof {
        assert(form@.names =~= message_form(variant as int).names);
        assert(form@.shapes =~= message_form(variant as int).shapes);
    }
    form
}

/// Writes down the form of a variant of a runtime control.
fn form_of_control(variant: usize) -> (form: Form)
    ensures
        form@ == control_form(variant as int),
{
    let form = match variant {
        0 => Form {
            names: &["message"],
            shapes: &[Shape::Message],
            items: "struct variant TunnelRuntimeControl::Server with 1 element",
            count: "1 element in sequence",
        },
        _ => Form {
            names: &["reason"],
            shapes: &[Shape::Reason],
            items: "struct variant TunnelRuntimeControl::Closed with 1 element",
            count: "1 element in sequence",
        },
    };
    proof {
        assert(form@.names =~= control_form(variant as int).names);
        assert(form@.shapes =~= control_form(variant as int).shapes);
    }
    form
}

/// Writes down the form of a variant of a frame.
fn form_of_frame(variant: usize) -> (form: Form)
    ensures
        form@ == frame_form(variant as int),
{
    let form = match variant {
        0 => Form {
            names: &["session", "commandDisplay", "size"],
            shapes: &[Shape::Session, Shape::Text, Shape::Size],
            items: "struct variant TunnelFrame::RegisterSession with 3 elements",
            count: "3 elements in sequence",
        },
        1 => Form {
            names: &["clientId"],
            shapes: &[Shape::Number],
            items: "struct variant TunnelFrame::AttachBrowser with 1 element",
            count: "1 element in sequence",
        },
        2 => Form {
            names: &["clientId"],
            shapes: &[Shape::Number],
            items: "struct variant TunnelFrame::DetachBrowser with 1 element",
            count: "1 element in sequence",
        },
        3 => Form {
            names: &["clientId", "bytes"],
            shapes: &[Shape::Number, Shape::Bytes],
            items: "struct variant TunnelFrame::BrowserInput with 2 elements",
            count: "2 elements in sequence",
        },
        4 => Form {
            names: &["clientId", "size"],
            shapes: &[Shape::Number, Shape::Size],
            items: "struct variant TunnelFrame::BrowserResize with 2 elements",
            count: "2 elements in sequence",
        },
        5 => Form {
            names: &["bytes"],
            shapes: &[Shape::Bytes],
            items: "struct variant TunnelFrame::PtyOutput with 1 element",
            count: "1 element in sequence",
        },
        6 => Form {
            names: &["clientId", "control"],
            shapes: &[Shape::Client, Shape::Control],
            items: "struct variant TunnelFrame::RuntimeControl with 2 elements",
            count: "2 elements in sequence",
        },
        _ => Form {
            names: &["sequence"],
            shapes: &[Shape::Number],
            items: "struct variant TunnelFrame::Heartbeat with 1 element",
            count: "1 element in sequence",
        },
    };
    proof {
        assert(form@.names =~= frame_form(variant as int).names);
        assert(form@.shapes =~= frame_form(variant as int).shapes);
    }
    form
}

/// What forms expect does not end in a digit.
proof fn lemma_forms_end_in_words(shape: Shape, variant: int)
    ensures
        ends_in_word(size_form().items),
        ends_in_word(size_form().count),
        ends_in_word(form_of(shape, variant).items),
        ends_in_word(form_of(shape, variant).count),
{
    reveal_strlit("struct TerminalSize with 2 elements");
    reveal_strlit("struct variant ServerControlMessage::Error with 1 element");
    reveal_strlit("struct variant ServerControlMessage::LeaseChanged with 2 elements");
    reveal_strlit("struct variant ServerControlMessage::ProcessExited with 0 elements");
    reveal_strlit("struct variant ServerControlMessage::Ready with 0 elements");
    reveal_strlit("struct variant ServerControlMessage::SizeChanged with 1 element");
    reveal_strlit("struct variant ServerControlMessage::Warning with 1 element");
    reveal_strlit("struct variant TunnelRuntimeControl::Closed with 1 element");
    reveal_strlit("struct variant TunnelRuntimeControl::Server with 1 element");
    reveal_strlit("struct variant TunnelFrame::AttachBrowser with 1 element");
    reveal_strlit("struct variant TunnelFrame::BrowserInput with 2 elements");
    reveal_strlit("struct variant TunnelFrame::BrowserResize with 2 elements");
    reveal_strlit("struct variant TunnelFrame::DetachBrowser with 1 element");
    reveal_strlit("struct variant TunnelFrame::Heartbeat with 1 element");
    reveal_strlit("struct variant TunnelFrame::PtyOutput with 1 element");
    reveal_strlit("struct variant TunnelFrame::RegisterSession with 3 elements");
    reveal_strlit("struct variant TunnelFrame::RuntimeControl with 2 elements");
    reveal_strlit("0 elements in sequence");
    reveal_strlit("1 element in sequence");
    reveal_strlit("2 elements in sequence");
    reveal_strlit("3 elements in sequence");
}

/// Lists the variants of a tagged value.
fn list_variants(shape: Shape) -> (names: &'static [&'static str])
    ensures
        texts(names@) == variants_of(shape),
        names@.len() > 0,
{
    let names: &'static [&'static str] = match shape {
        Shape::Message => &[
            "ready",
            "leaseChanged",
            "sizeChanged",
            "processExited",
            "warning",
            "error",
        ],
        Shape::Control => &["server", "closed"],
        _ => &[
            "registerSession",
            "attachBrowser",
            "detachBrowser",
            "browserInput",
            "browserResize",
            "ptyOutput",
            "runtimeControl",
            "heartbeat",
        ],
    };
    proof {
        assert(texts(names@) =~= variants_of(shape));
    }
    names
}

/// Lists the variants of a close reason.
fn list_reasons() -> (names: &'static [&'static str])
    ensures
        texts(names@) == reason_names(),
        names@.len() > 0,
{
    let names: &'static [&'static str] = &[
        "supervisor",
        "clientDisconnect",
        "controllerReplaced",
        "childExit",
        "runtimeError",
    ];
    proof {
        assert(texts(names@) =~= reason_names());
    }
    names
}

/// Finds what is wrong with a natural number up to a bound.
fn refuse_integer(json: &Json, bound: u64, expected: &str) -> (error: Option<serde_json::Error>)
    ensures
        shows(error, integer_refusal(json@, bound, expected@)),
{
    match json {
        Json::Number(number) => if *number <= bound {
            None
        } else {
            Some(wrong_value(json, expected))
        },
        Json::Negative(_) => Some(wrong_value(json, expected)),
        _ => Some(wrong_type(json, expected)),
    }
}

/// Finds what is wrong with a message text.
fn refuse_text(json: &Json) -> (error: Option<serde_json::Error>)
    ensures
        shows(error, text_refusal(json@)),
{
    match json {
        Json::Text(text) => match SafeMessage::new(text.clone()) {
            Ok(_) => None,
            Err(_) => {
                proof {
                    reveal_strlit("message is too long");
                }
                Some(custom_error("message is too long"))
            },
        },
        _ => Some(wrong_type(json, "a string")),
    }
}

/// Finds what is wrong with a session name.
fn refuse_session(json: &Json) -> (error: Option<serde_json::Error>)
    ensures
        shows(error, session_refusal(json@)),
{
    match json {
        Json::Text(text) => match SessionName::new(text.clone()) {
            Ok(_) => None,
            Err(_) => {
                proof {
                    reveal_strlit("invalid session name");
                }
                Some(custom_error("invalid session name"))
            },
        },
        _ => Some(wrong_type(json, "a string")),
    }
}

/// Finds what is wrong with terminal bytes.
fn refuse_bytes(json: &Json) -> (error: Option<serde_json::Error>)
    ensures
        shows(error, bytes_refusal(json@)),
{
    proof {
        lemma_tree_of_parts(*json);
    }
    match json {
        Json::Array(items) => {
            let ghost trees = items_tree(items@);
            for i in 0..items.len()
                invariant
                    trees == items_tree(items@),
                    json@ == JsonTree::Array(trees),
                    items_refusal(trees.take(i as int)) is None,
            {
                proof {
                    assert(trees.take(i + 1).drop_last() =~= trees.take(i as int));
                    assert(trees[i as int] == items@[i as int]@);
                }
                let error = refuse_integer(&items[i], u8::MAX as u64, "u8");
                if error.is_some() {
                    proof {
                        lemma_items_refusal_grows(trees, i + 1);
                    }
                    return error;
                }
            }
            proof {
                assert(trees.take(items@.len() as int) =~= trees);
            }
            if items.len() <= TUNNEL_TERMINAL_PAYLOAD_MAX_BYTES {
                None
            } else {
                proof {
                    reveal_strlit("tunnel terminal payload exceeds 65536 bytes");
                }
                Some(custom_error("tunnel terminal payload exceeds 65536 bytes"))
            }
        },
        _ => Some(wrong_type(json, "a sequence")),
    }
}

/// What is wrong with the first items is what is wrong with all of them.
pub proof fn lemma_items_refusal_grows(items: Seq<JsonTree>, n: int)
    requires
        0 <= n <= items.len(),
        items_refusal(items.take(n)) is Some,
    ensures
        items_refusal(items) == items_refusal(items.take(n)),
    decreases items.len(),
{
    if n < items.len() {
        assert(items.drop_last().take(n) =~= items.take(n));
        lemma_items_refusal_grows(items.drop_last(), n);
    } else {
        assert(items.take(n) =~= items);
    }
}

/// Finds what is wrong with a variant that holds nothing.
fn refuse_unit(json: &Json, names: &'static [&'static str]) -> (error: Option<serde_json::Error>)
    requires
        names@.len() > 0,
    ensures
        shows(error, unit_refusal(json@, texts(names@))),
{
    proof {
        lemma_tree_of_parts(*json);
    }
    match json {
        Json::Text(name) => match find_place(names, name) {
            Some(_) => None,
            None => Some(unknown_variant(name.as_str(), names)),
        },
        Json::Object(members) => {
            if members.len() != 1 {
                return Some(wrong_value(json, "map with a single key"));
            }
            if find_place(names, &members[0].0).is_none() {
                return Some(unknown_variant(members[0].0.as_str(), names));
            }
            match find_unit_variant(json, names) {
                Some(_) => None,
                None => Some(wrong_type(&members[0].1, "unit")),
            }
        },
        _ => Some(wrong_type(json, "string or map")),
    }
}

/// Finds what is wrong with a tag.
fn refuse_variant(
    tag: &Json,
    names: &'static [&'static str],
    indexed: bool,
    index: &str,
) -> (error: Option<serde_json::Error>)
    requires
        names@.len() > 0,
    ensures
        shows(error, variant_refusal(tag@, texts(names@), indexed, index@)),
{
    match tag {
        Json::Text(name) => match find_place(names, name) {
            Some(_) => None,
            None => Some(unknown_variant(name.as_str(), names)),
        },
        Json::Number(place) => if !indexed {
            Some(wrong_type(tag, "variant identifier"))
        } else if *place < names.len() as u64 {
            None
        } else {
            Some(wrong_value(tag, index))
        },
        _ => Some(wrong_type(tag, "variant identifier")),
    }
}

/// Finds what is wrong with the tag of a tagged value.
fn refuse_tag(shape: Shape, json: &Json) -> (error: Option<serde_json::Error>)
    ensures
        shows(error, tag_refusal(shape, json@)),
{
    proof {
        lemma_tree_of_parts(*json);
    }
    let names = list_variants(shape);
    let index = match shape {
        Shape::Message => "variant index 0 <= i < 6",
        Shape::Reason => "variant index 0 <= i < 5",
        _ => "variant index 0 <= i < 2",
    };
    let indexed = !matches!(shape, Shape::Frame);
    match json {
        Json::Object(members) => {
            let (count, _) = find_member(members, "type");
            proof {
                lemma_counted_is_found(members_tree(members@), "type"@);
            }
            if count > 1 {
                return Some(duplicate_field("type"));
            }
        },
        Json::Array(_) => {},
        _ => {
            return Some(
                wrong_type(
                    json,
                    match shape {
                        Shape::Message => "internally tagged enum ServerControlMessage",
                        Shape::Control => "internally tagged enum TunnelRuntimeControl",
                        _ => "internally tagged enum TunnelFrame",
                    },
                ),
            );
        },
    }
    match find_tag(json) {
        Some(tag) => refuse_variant(tag, names, indexed, index),
        None => Some(missing_field("type")),
    }
}

/// Finds what is wrong with the detail of a close reason.
fn refuse_detail(variant: usize, detail: &Json) -> (error: Option<serde_json::Error>)
    ensures
        shows(error, detail_refusal(variant as int, detail@)),
{
    if variant == 4 {
        return refuse_text(detail);
    }
    let expected = match variant {
        0 => "unit variant TunnelCloseReason::Supervisor",
        1 => "unit variant TunnelCloseReason::ClientDisconnect",
        2 => "unit variant TunnelCloseReason::ControllerReplaced",
        _ => "unit variant TunnelCloseReason::ChildExit",
    };
    match detail {
        Json::Null => None,
        _ => Some(wrong_type(detail, expected)),
    }
}

/// Finds what is wrong with the name of a further member of a close reason.
fn refuse_reason_key(name: &String, has_reason: bool, has_detail: bool) -> (error: Option<
    serde_json::Error,
>)
    ensures
        shows(error, reason_key_refusal(name@, has_reason, has_detail)),
{
    if same_text(name, "reason") {
        if has_reason {
            Some(duplicate_field("reason"))
        } else {
            None
        }
    } else if same_text(name, "detail") {
        if has_detail {
            Some(duplicate_field("detail"))
        } else {
            None
        }
    } else {
        Some(wrong_value(&Json::Text(name.clone()), "\"reason\" or \"detail\""))
    }
}

/// Finds what is wrong with the members of a close reason.
fn refuse_reason_members(members: &Vec<(String, Json)>) -> (error: Option<serde_json::Error>)
    ensures
        shows(error, reason_members_refusal(members_tree(members@))),
{
    let ghost trees = members_tree(members@);
    proof {
        assert(forall|i: int|
            0 <= i < members@.len() ==> (#[trigger] trees[i]) == (
                members@[i].0@,
                members@[i].1@,
            ));
    }
    let names = list_reasons();
    if members.len() == 0 {
        return Some(missing_field("reason"));
    }
    let reason_first = same_text(&members[0].0, "reason");
    if reason_first {
        let error = refuse_unit(&members[0].1, names);
        if error.is_some() {
            return error;
        }
    } else {
        let error = refuse_reason_key(&members[0].0, false, false);
        if error.is_some() {
            return error;
        }
    }
    if members.len() == 1 {
        if !reason_first {
            return Some(missing_field("reason"));
        }
        return match find_unit_variant(&members[0].1, names) {
            Some(4) => Some(missing_field("detail")),
            _ => None,
        };
    }
    let error = refuse_reason_key(&members[1].0, reason_first, !reason_first);
    if error.is_some() {
        return error;
    }
    if !reason_first {
        let error = refuse_unit(&members[1].1, names);
        if error.is_some() {
            return error;
        }
    }
    let (reason, detail) = if reason_first {
        (&members[0].1, &members[1].1)
    } else {
        (&members[1].1, &members[0].1)
    };
    proof {
        lemma_unit_is_named(reason@, reason_names());
    }
    let variant = find_unit_variant(reason, names).unwrap();
    let error = refuse_detail(variant, detail);
    if error.is_some() || members.len() == 2 {
        return error;
    }
    refuse_reason_key(&members[2].0, true, true)
}

/// Finds what is wrong with a close reason.
fn refuse_reason(json: &Json) -> (error: Option<serde_json::Error>)
    ensures
        shows(error, reason_refusal(json@)),
{
    proof {
        lemma_tree_of_parts(*json);
        reveal_strlit("adjacently tagged enum TunnelCloseReason");
        reveal_strlit("2 elements in sequence");
    }
    let expected = "adjacently tagged enum TunnelCloseReason";
    match json {
        Json::Object(members) => refuse_reason_members(members),
        Json::Array(items) => {
            if items.len() == 0 {
                return Some(wrong_length(0, expected));
            }
            let names = list_reasons();
            let error = refuse_variant(&items[0], names, true, "variant index 0 <= i < 5");
            if error.is_some() {
                return error;
            }
            if items.len() == 1 {
                return Some(wrong_length(1, expected));
            }
            let variant = find_variant(&items[0], names, true).unwrap();
            let error = refuse_detail(variant, &items[1]);
            if error.is_some() || items.len() == 2 {
                return error;
            }
            Some(wrong_length(items.len(), "2 elements in sequence"))
        },
        _ => Some(wrong_type(json, expected)),
    }
}

/// Finds what is wrong with a value that is read as a shape.
pub fn refuse(shape: Shape, json: &Json) -> (error: Option<serde_json::Error>)
    ensures
        shows(error, refusal(shape, json@)),
    decreases *json, 1int,
{
    match shape {
        Shape::Number => refuse_integer(json, u64::MAX, "u64"),
        Shape::Short => refuse_integer(json, u16::MAX as u64, "u16"),
        Shape::Client => match json {
            Json::Null => None,
            _ => refuse_integer(json, u64::MAX, "u64"),
        },
        Shape::Bytes => refuse_bytes(json),
        Shape::Text => refuse_text(json),
        Shape::Session => refuse_session(json),
        Shape::Size => {
            match json {
                Json::Object(_) | Json::Array(_) => {},
                _ => {
                    return Some(wrong_type(json, "struct TerminalSize"));
                },
            }
            let form = form_of_size();
            proof {
                lemma_forms_end_in_words(shape, 0);
            }
            let error = refuse_fields(json, false, &form);
            if error.is_some() {
                return error;
            }
            match read_size(Some(json)) {
                Some(_) => None,
                None => {
                    proof {
                        reveal_strlit("invalid terminal size");
                    }
                    Some(custom_error("invalid terminal size"))
                },
            }
        },
        Shape::Owner => {
            let names: &'static [&'static str] = &["local", "browser"];
            proof {
                assert(texts(names@) =~= owner_names());
            }
            refuse_unit(json, names)
        },
        Shape::Reason => refuse_reason(json),
        Shape::Message | Shape::Control | Shape::Frame => {
            let error = refuse_tag(shape, json);
            if error.is_some() {
                return error;
            }
            proof {
                lemma_tag_names_variant(shape, json@);
            }
            let indexed = !matches!(shape, Shape::Frame);
            let tag = find_tag(json).unwrap();
            let variant = find_variant(tag, list_variants(shape), indexed).unwrap();
            let form = match shape {
                Shape::Message => form_of_message(variant),
                Shape::Control => form_of_control(variant),
                _ => form_of_frame(variant),
            };
            proof {
                lemma_forms_end_in_words(shape, variant as int);
            }
            refuse_fields(json, true, &form)
        },
    }
}

/// Finds what is wrong with the fields of a value.
fn refuse_fields(json: &Json, tagged: bool, form: &Form) -> (error: Option<serde_json::Error>)
    requires
        form@.shapes.len() == form@.names.len(),
        ends_in_word(form@.items),
        ends_in_word(form@.count),
    ensures
        shows(error, fields_refusal(json@, tagged, form@)),
    decreases *json, 0int,
{
    proof {
        lemma_tree_of_parts(*json);
    }
    match json {
        Json::Object(members) => {
            let ghost trees = members_tree(members@);
            for i in 0..members.len()
                invariant
                    *json == Json::Object(*members),
                    trees == members_tree(members@),
                    json@ == JsonTree::Object(trees),
                    form@.shapes.len() == form@.names.len(),
                    members_refusal(json@, tagged, form@, i as int) is None,
            {
                proof {
                    assert(trees[i as int] == (members@[i as int].0@, members@[i as int].1@));
                }
                let name = &members[i].0;
                let error = if tagged && same_text(name, "type") {
                    None
                } else {
                    match find_place(form.names, name) {
                        None => Some(unknown_field(name.as_str(), form.names)),
                        Some(place) => {
                            if stands_before(members, i, name) {
                                proof {
                                    lemma_place_names(form@.names, name@);
                                }
                                Some(duplicate_field(form.names[place]))
                            } else {
                                refuse(form.shapes[place], &members[i].1)
                            }
                        },
                    }
                };
                if error.is_some() {
                    proof {
                        lemma_members_refusal_grows(json@, tagged, form@, i + 1);
                    }
                    return error;
                }
            }
            for k in 0..form.names.len()
                invariant
                    trees == members_tree(members@),
                    json@ == JsonTree::Object(trees),
                    form@.shapes.len() == form@.names.len(),
                    members_refusal(json@, tagged, form@, trees.len() as int) is None,
                    missing_refusal(trees, form@, k as int) is None,
            {
                let (_, found) = find_member(members, form.names[k]);
                let optional = matches!(form.shapes[k], Shape::Client);
                if found.is_none() && !optional {
                    proof {
                        lemma_missing_refusal_grows(trees, form@, k + 1, form@.names.len() as int);
                    }
                    return Some(missing_field(form.names[k]));
                }
            }
            None
        },
        Json::Array(items) => {
            let first: usize = if tagged {
                1
            } else {
                0
            };
            let ghost trees = items_tree(items@);
            for k in 0..form.names.len()
                invariant
                    *json == Json::Array(*items),
                    trees == items_tree(items@),
                    json@ == JsonTree::Array(trees),
                    first <= 1,
                    first == first_item(tagged),
                    form@.shapes.len() == form@.names.len(),
                    ends_in_word(form@.items),
                    array_refusal(json@, tagged, form@, k as int) is None,
            {
                let error = if items.len() < first || items.len() - first <= k {
                    Some(wrong_length(k, form.items))
                } else {
                    proof {
                        assert(trees[first + k] == items@[first + k]@);
                    }
                    refuse(form.shapes[k], &items[first + k])
                };
                if error.is_some() {
                    proof {
                        lemma_array_refusal_grows(
                            json@,
                            tagged,
                            form@,
                            k + 1,
                            form@.names.len() as int,
                        );
                    }
                    return error;
                }
            }
            if items.len() < first || items.len() - first <= form.names.len() {
                None
            } else {
                Some(wrong_length(items.len() - first, form.count))
            }
        },
        _ => None,
    }
}

/// Whether one of the first members has a name.
fn stands_before(members: &Vec<(String, Json)>, n: usize, name: &String) -> (found: bool)
    requires
        n <= members@.len(),
    ensures
        found == (occurrences(members_tree(members@).take(n as int), name@) > 0),
{
    let ghost trees = members_tree(members@);
    let mut found = false;
    for i in 0..n
        invariant
            n <= members@.len(),
            trees == members_tree(members@),
            found == (occurrences(trees.take(i as int), name@) > 0),
    {
        proof {
            assert(trees.take(i + 1).drop_last() =~= trees.take(i as int));
        }
        if same_text(&members[i].0, name.as_str()) {
            found = true;
        }
    }
    found
}

/// What is wrong with the first members is what is wrong with all of them.
pub proof fn lemma_members_refusal_grows(tree: JsonTree, tagged: bool, form: FormView, n: int)
    requires
        tree is Object,
        0 <= n <= tree->Object_0.len(),
        members_refusal(tree, tagged, form, n) is Some,
    ensures
        members_refusal(tree, tagged, form, tree->Object_0.len() as int) == members_refusal(
            tree,
            tagged,
            form,
            n,
        ),
    decreases tree->Object_0.len() - n,
{
    if n < tree->Object_0.len() {
        lemma_members_refusal_grows(tree, tagged, form, n + 1);
    }
}

/// What is missing first is what is missing of all fields.
pub proof fn lemma_missing_refusal_grows(
    members: Seq<(Seq<char>, JsonTree)>,
    form: FormView,
    n: int,
    all: int,
)
    requires
        0 <= n <= all,
        missing_refusal(members, form, n) is Some,
    ensures
        missing_refusal(members, form, all) == missing_refusal(members, form, n),
    decreases all - n,
{
    if n < all {
        lemma_missing_refusal_grows(members, form, n + 1, all);
    }
}

/// What is wrong with the first fields of an array is what is wrong with all of them.
pub proof fn lemma_array_refusal_grows(
    tree: JsonTree,
    tagged: bool,
    form: FormView,
    n: int,
    all: int,
)
    requires
        0 <= n <= all,
        array_refusal(tree, tagged, form, n) is Some,
    ensures
        array_refusal(tree, tagged, form, all) == array_refusal(tree, tagged, form, n),
    decreases all - n,
{
    if n < all {
        lemma_array_refusal_grows(tree, tagged, form, n + 1, all);
    }
}

} // verus!
