//! What is wrong with a JSON value that is no frame.
//!
//! A value is read from the front: members in the order in which they stand, then the
//! fields that are missing in the order in which they are declared. The first thing that
//! is wrong is the one that is reported.
use crate::errors::{
    duplicate_field_text, missing_field_text, unknown_field_text, unknown_variant_text,
    wrong_length_text, wrong_type_text, wrong_value_text,
};
use crate::json::JsonTree;
use crate::members::{member_named, occurrences, place_of, tag_of, unit_variant_of, variant_of};
use crate::protocol::{is_safe_message, is_session_name};
use crate::tunnel::TUNNEL_TERMINAL_PAYLOAD_MAX_BYTES;
use crate::wire::{
    control_names, frame_fields, frame_names, message_names, owner_names, reason_names, size_from,
};
use vstd::prelude::*;

verus! {

/// What a value is read as.
#[derive(Clone, Copy, PartialEq, Eq)]
pub enum Shape {
    /// A natural number of 64 bits.
    Number,
    /// A natural number of 16 bits.
    Short,
    /// A client id that may be null or absent.
    Client,
    /// Terminal bytes.
    Bytes,
    /// A message text.
    Text,
    /// A session name.
    Session,
    /// A terminal size.
    Size,
    /// A lease owner.
    Owner,
    /// A close reason.
    Reason,
    /// A control message.
    Message,
    /// A runtime control.
    Control,
    /// A frame.
    Frame,
}

/// The fields of a value, and how errors speak of it.
pub struct FormView {
    /// Names of the fields.
    pub names: Seq<Seq<char>>,
    /// What each field is read as.
    pub shapes: Seq<Shape>,
    /// What is expected of an array.
    pub items: Seq<char>,
    /// How many items an array may have.
    pub count: Seq<char>,
}

/// The form of a terminal size.
pub open spec fn size_form() -> FormView {
    FormView {
        names: seq!["cols"@, "rows"@],
        shapes: seq![Shape::Short, Shape::Short],
        items: "struct TerminalSize with 2 elements"@,
        count: "2 elements in sequence"@,
    }
}

/// The form of a variant of a control message.
pub open spec fn message_form(variant: int) -> FormView {
    if variant == 0 {
        FormView {
            names: seq![],
            shapes: seq![],
            items: "struct variant ServerControlMessage::Ready with 0 elements"@,
            count: "0 elements in sequence"@,
        }
    } else if variant == 1 {
        FormView {
            names: seq!["owner"@, "epoch"@],
            shapes: seq![Shape::Owner, Shape::Number],
            items: "struct variant ServerControlMessage::LeaseChanged with 2 elements"@,
            count: "2 elements in sequence"@,
        }
    } else if variant == 2 {
        FormView {
            names: seq!["size"@],
            shapes: seq![Shape::Size],
            items: "struct variant ServerControlMessage::SizeChanged with 1 element"@,
            count: "1 element in sequence"@,
        }
    } else if variant == 3 {
        FormView {
            names: seq![],
            shapes: seq![],
            items: "struct variant ServerControlMessage::ProcessExited with 0 elements"@,
            count: "0 elements in sequence"@,
        }
    } else if variant == 4 {
        FormView {
            names: seq!["message"@],
            shapes: seq![Shape::Text],
            items: "struct variant ServerControlMessage::Warning with 1 element"@,
            count: "1 element in sequence"@,
        }
    } else {
        FormView {
            names: seq!["message"@],
            shapes: seq![Shape::Text],
            items: "struct variant ServerControlMessage::Error with 1 element"@,
            count: "1 element in sequence"@,
        }
    }
}

/// The form of a variant of a runtime control.
pub open spec fn control_form(variant: int) -> FormView {
    if variant == 0 {
        FormView {
            names: seq!["message"@],
            shapes: seq![Shape::Message],
            items: "struct variant TunnelRuntimeControl::Server with 1 element"@,
            count: "1 element in sequence"@,
        }
    } else {
        FormView {
            names: seq!["reason"@],
            shapes: seq![Shape::Reason],
            items: "struct variant TunnelRuntimeControl::Closed with 1 element"@,
            count: "1 element in sequence"@,
        }
    }
}

/// The form of a variant of a frame.
pub open spec fn frame_form(variant: int) -> FormView {
    if variant == 0 {
        FormView {
            names: frame_fields(0),
            shapes: seq![Shape::Session, Shape::Text, Shape::Size],
            items: "struct variant TunnelFrame::RegisterSession with 3 elements"@,
            count: "3 elements in sequence"@,
        }
    } else if variant == 1 {
        FormView {
            names: frame_fields(1),
            shapes: seq![Shape::Number],
            items: "struct variant TunnelFrame::AttachBrowser with 1 element"@,
            count: "1 element in sequence"@,
        }
    } else if variant == 2 {
        FormView {
            names: frame_fields(2),
            shapes: seq![Shape::Number],
            items: "struct variant TunnelFrame::DetachBrowser with 1 element"@,
            count: "1 element in sequence"@,
        }
    } else if variant == 3 {
        FormView {
            names: frame_fields(3),
            shapes: seq![Shape::Number, Shape::Bytes],
            items: "struct variant TunnelFrame::BrowserInput with 2 elements"@,
            count: "2 elements in sequence"@,
        }
    } else if variant == 4 {
        FormView {
            names: frame_fields(4),
            shapes: seq![Shape::Number, Shape::Size],
            items: "struct variant TunnelFrame::BrowserResize with 2 elements"@,
            count: "2 elements in sequence"@,
        }
    } else if variant == 5 {
        FormView {
            names: frame_fields(5),
            shapes: seq![Shape::Bytes],
            items: "struct variant TunnelFrame::PtyOutput with 1 element"@,
            count: "1 element in sequence"@,
        }
    } else if variant == 6 {
        FormView {
            names: frame_fields(6),
            shapes: seq![Shape::Client, Shape::Control],
            items: "struct variant TunnelFrame::RuntimeControl with 2 elements"@,
            count: "2 elements in sequence"@,
        }
    } else {
        FormView {
            names: frame_fields(variant),
            shapes: seq![Shape::Number],
            items: "struct variant TunnelFrame::Heartbeat with 1 element"@,
            count: "1 element in sequence"@,
        }
    }
}

/// The form of a variant of a tagged value.
pub open spec fn form_of(shape: Shape, variant: int) -> FormView {
    match shape {
        Shape::Message => message_form(variant),
        Shape::Control => control_form(variant),
        _ => frame_form(variant),
    }
}

/// The variants of a tagged value.
pub open spec fn variants_of(shape: Shape) -> Seq<Seq<char>> {
    match shape {
        Shape::Message => message_names(),
        Shape::Control => control_names(),
        _ => frame_names(),
    }
}

/// What is expected where a tagged value stands.
pub open spec fn tagged_text(shape: Shape) -> Seq<char> {
    match shape {
        Shape::Message => "internally tagged enum ServerControlMessage"@,
        Shape::Control => "internally tagged enum TunnelRuntimeControl"@,
        _ => "internally tagged enum TunnelFrame"@,
    }
}

/// What is expected of the place of a variant.
pub open spec fn index_text(shape: Shape) -> Seq<char> {
    match shape {
        Shape::Message => "variant index 0 <= i < 6"@,
        Shape::Reason => "variant index 0 <= i < 5"@,
        _ => "variant index 0 <= i < 2"@,
    }
}

/// The first of two things that are wrong.
pub open spec fn first_of(left: Option<Seq<char>>, right: Option<Seq<char>>) -> Option<Seq<char>> {
    if left is Some {
        left
    } else {
        right
    }
}

/// The place of the first field in an array.
pub open spec fn first_item(tagged: bool) -> int {
    if tagged {
        1
    } else {
        0
    }
}

/// The first of some fields that is missing: a client id may be.
pub open spec fn missing_refusal(
    members: Seq<(Seq<char>, JsonTree)>,
    form: FormView,
    n: int,
) -> Option<Seq<char>>
    decreases n,
{
    if n <= 0 {
        None
    } else {
        first_of(
            missing_refusal(members, form, n - 1),
            if member_named(members, form.names[n - 1]) is Some || form.shapes[n - 1]
                == Shape::Client {
                None
            } else {
                Some(missing_field_text(form.names[n - 1]))
            },
        )
    }
}

/// What is wrong with a natural number up to a bound.
pub open spec fn integer_refusal(tree: JsonTree, bound: u64, expected: Seq<char>) -> Option<
    Seq<char>,
> {
    match tree {
        JsonTree::Number(number) => if number <= bound {
            None
        } else {
            Some(wrong_value_text(tree, expected))
        },
        JsonTree::Negative(_) => Some(wrong_value_text(tree, expected)),
        _ => Some(wrong_type_text(tree, expected)),
    }
}

/// What is wrong with a message text.
pub open spec fn text_refusal(tree: JsonTree) -> Option<Seq<char>> {
    match tree {
        JsonTree::Text(text) => if is_safe_message(text) {
            None
        } else {
            Some("message is too long"@)
        },
        _ => Some(wrong_type_text(tree, "a string"@)),
    }
}

/// What is wrong with a session name.
pub open spec fn session_refusal(tree: JsonTree) -> Option<Seq<char>> {
    match tree {
        JsonTree::Text(text) => if is_session_name(text) {
            None
        } else {
            Some("invalid session name"@)
        },
        _ => Some(wrong_type_text(tree, "a string"@)),
    }
}

/// What is wrong with the first of some items that is no byte.
pub open spec fn items_refusal(items: Seq<JsonTree>) -> Option<Seq<char>>
    decreases items.len(),
{
    if items.len() == 0 {
        None
    } else {
        match items_refusal(items.drop_last()) {
            Some(message) => Some(message),
            None => integer_refusal(items.last(), u8::MAX as u64, "u8"@),
        }
    }
}

/// What is wrong with terminal bytes.
pub open spec fn bytes_refusal(tree: JsonTree) -> Option<Seq<char>> {
    match tree {
        JsonTree::Array(items) => match items_refusal(items) {
            Some(message) => Some(message),
            None => if items.len() <= TUNNEL_TERMINAL_PAYLOAD_MAX_BYTES {
                None
            } else {
                Some("tunnel terminal payload exceeds 65536 bytes"@)
            },
        },
        _ => Some(wrong_type_text(tree, "a sequence"@)),
    }
}

/// What is wrong with a variant that holds nothing.
pub open spec fn unit_refusal(tree: JsonTree, names: Seq<Seq<char>>) -> Option<Seq<char>> {
    match tree {
        JsonTree::Text(name) => if place_of(names, name) is Some {
            None
        } else {
            Some(unknown_variant_text(name, names))
        },
        JsonTree::Object(members) => if members.len() != 1 {
            Some(wrong_value_text(tree, "map with a single key"@))
        } else if place_of(names, members[0].0) is None {
            Some(unknown_variant_text(members[0].0, names))
        } else if members[0].1 is Null || members[0].1 == JsonTree::Object(Seq::empty()) {
            None
        } else {
            Some(wrong_type_text(members[0].1, "unit"@))
        },
        _ => Some(wrong_type_text(tree, "string or map"@)),
    }
}

/// What is wrong with a tag that may be the place of its variant where `indexed` is set.
pub open spec fn variant_refusal(
    tag: JsonTree,
    names: Seq<Seq<char>>,
    indexed: bool,
    index: Seq<char>,
) -> Option<Seq<char>> {
    match tag {
        JsonTree::Text(name) => if place_of(names, name) is Some {
            None
        } else {
            Some(unknown_variant_text(name, names))
        },
        JsonTree::Number(place) => if !indexed {
            Some(wrong_type_text(tag, "variant identifier"@))
        } else if place < names.len() {
            None
        } else {
            Some(wrong_value_text(tag, index))
        },
        _ => Some(wrong_type_text(tag, "variant identifier"@)),
    }
}

/// What is wrong with the tag of a tagged value.
pub open spec fn tag_refusal(shape: Shape, tree: JsonTree) -> Option<Seq<char>> {
    let indexed = shape != Shape::Frame;
    match tree {
        JsonTree::Object(members) => if occurrences(members, "type"@) == 0 {
            Some(missing_field_text("type"@))
        } else if occurrences(members, "type"@) > 1 {
            Some(duplicate_field_text("type"@))
        } else {
            variant_refusal(
                tag_of(tree)->0,
                variants_of(shape),
                indexed,
                index_text(shape),
            )
        },
        JsonTree::Array(items) => if items.len() == 0 {
            Some(missing_field_text("type"@))
        } else {
            variant_refusal(items[0], variants_of(shape), indexed, index_text(shape))
        },
        _ => Some(wrong_type_text(tree, tagged_text(shape))),
    }
}

/// What is wrong with the detail of a close reason.
pub open spec fn detail_refusal(variant: int, detail: JsonTree) -> Option<Seq<char>> {
    if variant == 4 {
        text_refusal(detail)
    } else if detail is Null {
        None
    } else if variant == 0 {
        Some(wrong_type_text(detail, "unit variant TunnelCloseReason::Supervisor"@))
    } else if variant == 1 {
        Some(wrong_type_text(detail, "unit variant TunnelCloseReason::ClientDisconnect"@))
    } else if variant == 2 {
        Some(wrong_type_text(detail, "unit variant TunnelCloseReason::ControllerReplaced"@))
    } else {
        Some(wrong_type_text(detail, "unit variant TunnelCloseReason::ChildExit"@))
    }
}

/// What is wrong with the name of a further member of a close reason, where the names
/// that may not stand again are given.
pub open spec fn reason_key_refusal(
    name: Seq<char>,
    has_reason: bool,
    has_detail: bool,
) -> Option<Seq<char>> {
    if name == "reason"@ {
        if has_reason {
            Some(duplicate_field_text("reason"@))
        } else {
            None
        }
    } else if name == "detail"@ {
        if has_detail {
            Some(duplicate_field_text("detail"@))
        } else {
            None
        }
    } else {
        Some(wrong_value_text(JsonTree::Text(name), "\"reason\" or \"detail\""@))
    }
}

/// What is wrong with the members of a close reason.
pub open spec fn reason_members_refusal(members: Seq<(Seq<char>, JsonTree)>) -> Option<Seq<char>> {
    let names = reason_names();
    if members.len() == 0 {
        Some(missing_field_text("reason"@))
    } else if members[0].0 == "reason"@ {
        let variant = unit_variant_of(members[0].1, names)->0;
        first_of(
            unit_refusal(members[0].1, names),
            if members.len() == 1 {
                if variant == 4 {
                    Some(missing_field_text("detail"@))
                } else {
                    None
                }
            } else {
                first_of(
                    reason_key_refusal(members[1].0, true, false),
                    first_of(
                        detail_refusal(variant, members[1].1),
                        if members.len() == 2 {
                            None
                        } else {
                            reason_key_refusal(members[2].0, true, true)
                        },
                    ),
                )
            },
        )
    } else {
        first_of(
            reason_key_refusal(members[0].0, false, false),
            if members.len() == 1 {
                Some(missing_field_text("reason"@))
            } else {
                let variant = unit_variant_of(members[1].1, names)->0;
                first_of(
                    reason_key_refusal(members[1].0, false, true),
                    first_of(
                        unit_refusal(members[1].1, names),
                        first_of(
                            detail_refusal(variant, members[0].1),
                            if members.len() == 2 {
                                None
                            } else {
                                reason_key_refusal(members[2].0, true, true)
                            },
                        ),
                    ),
                )
            },
        )
    }
}

/// What is wrong with a close reason.
pub open spec fn reason_refusal(tree: JsonTree) -> Option<Seq<char>> {
    let expected = "adjacently tagged enum TunnelCloseReason"@;
    match tree {
        JsonTree::Object(members) => reason_members_refusal(members),
        JsonTree::Array(items) => if items.len() == 0 {
            Some(wrong_length_text(0, expected))
        } else {
            first_of(
                variant_refusal(items[0], reason_names(), true, index_text(Shape::Reason)),
                if items.len() == 1 {
                    Some(wrong_length_text(1, expected))
                } else {
                    first_of(
                        detail_refusal(variant_of(items[0], reason_names(), true)->0, items[1]),
                        if items.len() == 2 {
                            None
                        } else {
                            Some(wrong_length_text(items.len(), "2 elements in sequence"@))
                        },
                    )
                },
            )
        },
        _ => Some(wrong_type_text(tree, expected)),
    }
}

/// What is wrong with a value that is read as a shape, or `None` where nothing is.
pub open spec fn refusal(shape: Shape, tree: JsonTree) -> Option<Seq<char>>
    decreases tree, 2int, 0int,
{
    match shape {
        Shape::Number => integer_refusal(tree, u64::MAX, "u64"@),
        Shape::Short => integer_refusal(tree, u16::MAX as u64, "u16"@),
        Shape::Client => if tree is Null {
            None
        } else {
            integer_refusal(tree, u64::MAX, "u64"@)
        },
        Shape::Bytes => bytes_refusal(tree),
        Shape::Text => text_refusal(tree),
        Shape::Session => session_refusal(tree),
        Shape::Size => if !(tree is Object) && !(tree is Array) {
            Some(wrong_type_text(tree, "struct TerminalSize"@))
        } else {
            first_of(
                fields_refusal(tree, false, size_form()),
                if size_from(Some(tree)) is None {
                    Some("invalid terminal size"@)
                } else {
                    None
                },
            )
        },
        Shape::Owner => unit_refusal(tree, owner_names()),
        Shape::Reason => reason_refusal(tree),
        Shape::Message | Shape::Control | Shape::Frame => {
            let variant = variant_of(tag_of(tree)->0, variants_of(shape), shape != Shape::Frame)->0;
            first_of(tag_refusal(shape, tree), fields_refusal(tree, true, form_of(shape, variant)))
        },
    }
}

/// What is wrong with the fields of a value.
pub open spec fn fields_refusal(tree: JsonTree, tagged: bool, form: FormView) -> Option<Seq<char>>
    decreases tree, 1int, 0int,
{
    match tree {
        JsonTree::Object(members) => first_of(
            members_refusal(tree, tagged, form, members.len() as int),
            missing_refusal(members, form, form.names.len() as int),
        ),
        JsonTree::Array(items) => {
            let first = first_item(tagged);
            first_of(
                array_refusal(tree, tagged, form, form.names.len() as int),
                if items.len() <= first + form.names.len() {
                    None
                } else {
                    Some(wrong_length_text((items.len() - first) as nat, form.count))
                },
            )
        },
        _ => None,
    }
}

/// What is wrong with the first members of an object, in the order in which they stand.
pub open spec fn members_refusal(
    tree: JsonTree,
    tagged: bool,
    form: FormView,
    n: int,
) -> Option<Seq<char>>
    decreases tree, 0int, n,
{
    if n <= 0 || !(tree is Object) || n > tree->Object_0.len() {
        None
    } else {
        let members = tree->Object_0;
        let name = members[n - 1].0;
        let place = place_of(form.names, name);
        first_of(
            members_refusal(tree, tagged, form, n - 1),
            if tagged && name == "type"@ {
                None
            } else if place is None {
                Some(unknown_field_text(name, form.names))
            } else if occurrences(members.take(n - 1), name) > 0 {
                Some(duplicate_field_text(name))
            } else {
                refusal(form.shapes[place->0], tree->Object_0[n - 1].1)
            },
        )
    }
}

/// What is wrong with the first fields of an array.
pub open spec fn array_refusal(
    tree: JsonTree,
    tagged: bool,
    form: FormView,
    n: int,
) -> Option<Seq<char>>
    decreases tree, 0int, n,
{
    if n <= 0 || !(tree is Array) {
        None
    } else {
        let at = first_item(tagged) + n - 1;
        first_of(
            array_refusal(tree, tagged, form, n - 1),
            if at >= tree->Array_0.len() {
                Some(wrong_length_text((n - 1) as nat, form.items))
            } else {
                refusal(form.shapes[n - 1], tree->Array_0[at])
            },
        )
    }
}

} // verus!
