//! Remote commands: what a message of the control protocol asks for.
//!
//! A message is a JSON object. Its `Method` names the command; its `Data`
//! may hold a `Position` (`X`, `Y` and a `Type`) and a `SelectAll` flag.
//! Members that are missing or of another kind are skipped, never an error.

use crate::json::{as_bool, as_number_bits, as_str, document_of, get, parse, parsed_document, Json};
use serde_json::Value;
use vstd::prelude::*;

verus! {

/// What a position in a message is relative to.
#[derive(Clone, Copy, Debug, PartialEq, Eq, Structural)]
pub enum PositionOrigin {
    /// `Type` is `MouseScreen`: the display under the pointer.
    CursorMonitor,
    /// Any other `Type`.
    Other,
}

/// The position that a message carries. The coordinates are kept as the bits
/// of the doubles that the message gave.
#[derive(Clone, Copy, Debug, PartialEq, Eq, Structural)]
pub struct Position {
    pub x_bits: u64,
    pub y_bits: u64,
    pub origin: PositionOrigin,
}

/// What a command that shows the window may carry.
#[derive(Clone, Copy, Debug, PartialEq, Eq, Structural)]
pub struct ShowPayload {
    pub position: Option<Position>,
    pub select_all: Option<bool>,
}

/// A command of the control protocol.
#[derive(Clone, Copy, Debug, PartialEq, Eq, Structural)]
pub enum RemoteCommand {
    ToggleApp(ShowPayload),
    ShowApp(ShowPayload),
    Unknown,
}

/// The origin that a `Type` names.
pub open spec fn spec_origin(kind: Seq<char>) -> PositionOrigin {
    if kind == "MouseScreen"@ {
        PositionOrigin::CursorMonitor
    } else {
        PositionOrigin::Other
    }
}

/// The position in a `Data` object: there is one where `Position` has a
/// number `X`, a number `Y` and a string `Type`.
pub open spec fn spec_position(data: Json) -> Option<Position> {
    match data.member("Position"@) {
        Some(position) => match (
            spec_number(position, "X"@),
            spec_number(position, "Y"@),
            spec_text(position, "Type"@),
        ) {
            (Some(x_bits), Some(y_bits), Some(kind)) => Some(
                Position { x_bits, y_bits, origin: spec_origin(kind) },
            ),
            _ => None,
        },
        None => None,
    }
}

/// The number that is the member `key` of `doc`.
pub open spec fn spec_number(doc: Json, key: Seq<char>) -> Option<u64> {
    match doc.member(key) {
        Some(v) => v.as_number_bits(),
        None => None,
    }
}

/// The string that is the member `key` of `doc`.
pub open spec fn spec_text(doc: Json, key: Seq<char>) -> Option<Seq<char>> {
    match doc.member(key) {
        Some(v) => v.as_text(),
        None => None,
    }
}

/// The boolean that is the member `key` of `doc`.
pub open spec fn spec_flag(doc: Json, key: Seq<char>) -> Option<bool> {
    match doc.member(key) {
        Some(v) => v.as_flag(),
        None => None,
    }
}

/// The payload of a message: what its `Data` holds, and nothing where it
/// has no `Data`.
pub open spec fn spec_payload(doc: Json) -> ShowPayload {
    match doc.member("Data"@) {
        Some(data) => ShowPayload {
            position: spec_position(data),
            select_all: spec_flag(data, "SelectAll"@),
        },
        None => ShowPayload { position: None, select_all: None },
    }
}

/// The command that a message stands for.
pub open spec fn spec_command(doc: Json) -> RemoteCommand {
    match spec_text(doc, "Method"@) {
        Some(method) => if method == "ToggleApp"@ {
            RemoteCommand::ToggleApp(spec_payload(doc))
        } else if method == "ShowApp"@ {
            RemoteCommand::ShowApp(spec_payload(doc))
        } else {
            RemoteCommand::Unknown
        },
        None => RemoteCommand::Unknown,
    }
}

/// The command that a text stands for: `None` where the text is no JSON
/// document.
pub open spec fn spec_parse_command(text: Seq<char>) -> Option<RemoteCommand> {
    match parsed_document(text) {
        Some(doc) => Some(spec_command(doc)),
        None => None,
    }
}

/// Whether two strings hold the same characters.
fn same_text(a: &str, b: &str) -> (r: bool)
    ensures
        r == (a@ == b@),
{
    let x: String = a.to_owned();
    let y: String = b.to_owned();
    x == y
}

/// The number that is the member `key` of `doc`, as the bits of its double.
fn number_member(doc: &Value, key: &str) -> (r: Option<u64>)
    ensures
        r == spec_number(document_of(*doc), key@),
{
    match get(doc, key) {
        Some(v) => as_number_bits(v),
        None => None,
    }
}

/// The origin that a `Type` names: the display under the pointer for
/// `MouseScreen`, `Other` for anything else.
pub fn origin_of(kind: &str) -> (r: PositionOrigin)
    ensures
        r == spec_origin(kind@),
{
    if same_text(kind, "MouseScreen") {
        PositionOrigin::CursorMonitor
    } else {
        PositionOrigin::Other
    }
}

/// The position in a `Data` object. There is one exactly where `Position`
/// has a number `X`, a number `Y` and a string `Type`.
pub fn extract_position(data: &Value) -> (r: Option<Position>)
    ensures
        r == spec_position(document_of(*data)),
{
    let position = match get(data, "Position") {
        Some(p) => p,
        None => {
            return None;
        },
    };
    let x = number_member(position, "X");
    let y = number_member(position, "Y");
    let kind = match get(position, "Type") {
        Some(t) => as_str(t),
        None => None,
    };
    match (x, y, kind) {
        (Some(x_bits), Some(y_bits), Some(kind)) => Some(
            Position { x_bits, y_bits, origin: origin_of(kind) },
        ),
        _ => None,
    }
}

/// The payload of a message: the position and the `SelectAll` flag in its
/// `Data`, each `None` where the message does not hold it.
pub fn extract_payload(doc: &Value) -> (r: ShowPayload)
    ensures
        r == spec_payload(document_of(*doc)),
{
    match get(doc, "Data") {
        Some(data) => {
            let select_all = match get(data, "SelectAll") {
                Some(flag) => as_bool(flag),
                None => None,
            };
            ShowPayload { position: extract_position(data), select_all }
        },
        None => ShowPayload { position: None, select_all: None },
    }
}

/// The command that a message stands for. `Method` must be the string
/// `ToggleApp` or `ShowApp`; any other message is `Unknown`.
pub fn command_of(doc: &Value) -> (r: RemoteCommand)
    ensures
        r == spec_command(document_of(*doc)),
{
    let method = match get(doc, "Method") {
        Some(m) => as_str(m),
        None => None,
    };
    match method {
        Some(name) => {
            if same_text(name, "ToggleApp") {
                RemoteCommand::ToggleApp(extract_payload(doc))
            } else if same_text(name, "ShowApp") {
                RemoteCommand::ShowApp(extract_payload(doc))
            } else {
                RemoteCommand::Unknown
            }
        },
        None => RemoteCommand::Unknown,
    }
}

/// The command that a text stands for, `None` where the text is no JSON
/// document.
pub fn parse_command(text: &str) -> (r: Option<RemoteCommand>)
    ensures
        r == spec_parse_command(text@),
{
    match parse(text) {
        Some(doc) => Some(command_of(&doc)),
        None => None,
    }
}

} // verus!
