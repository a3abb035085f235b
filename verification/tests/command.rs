use wox_overlay::command::{
    command_of, extract_payload, extract_position, origin_of, parse_command, Position,
    PositionOrigin, RemoteCommand, ShowPayload,
};

fn doc(text: &str) -> serde_json::Value {
    serde_json::from_str(text).unwrap()
}

const NOTHING: ShowPayload = ShowPayload { position: None, select_all: None };

#[test]
fn show_app_with_mouse_screen_position() {
    let c = parse_command(
        "{\"Method\":\"ShowApp\",\"Data\":{\"Position\":{\"X\":100,\"Y\":200,\"Type\":\"MouseScreen\"}}}",
    );
    assert_eq!(
        c,
        Some(RemoteCommand::ShowApp(ShowPayload {
            position: Some(Position {
                x_bits: 100.0f64.to_bits(),
                y_bits: 200.0f64.to_bits(),
                origin: PositionOrigin::CursorMonitor,
            }),
            select_all: None,
        }))
    );
}

#[test]
fn toggle_app_without_data() {
    assert_eq!(parse_command("{\"Method\":\"ToggleApp\"}"), Some(RemoteCommand::ToggleApp(NOTHING)));
}

#[test]
fn toggle_app_with_select_all() {
    let c = parse_command("{\"Method\":\"ToggleApp\",\"Data\":{\"SelectAll\":true}}");
    assert_eq!(
        c,
        Some(RemoteCommand::ToggleApp(ShowPayload { position: None, select_all: Some(true) }))
    );
    let c = parse_command("{\"Data\":{\"SelectAll\":false},\"Method\":\"ShowApp\"}");
    assert_eq!(
        c,
        Some(RemoteCommand::ShowApp(ShowPayload { position: None, select_all: Some(false) }))
    );
}

#[test]
fn truncated_text_is_no_command() {
    assert_eq!(parse_command("{\"Method\":\"ToggleApp\""), None);
    assert_eq!(parse_command(""), None);
    assert_eq!(parse_command("ToggleApp"), None);
    assert_eq!(parse_command("{\"Method\":\"ShowApp\"} trailing"), None);
}

#[test]
fn missing_or_mistyped_method_is_unknown() {
    assert_eq!(parse_command("{}"), Some(RemoteCommand::Unknown));
    assert_eq!(parse_command("{\"Data\":{\"SelectAll\":true}}"), Some(RemoteCommand::Unknown));
    assert_eq!(parse_command("{\"Method\":7}"), Some(RemoteCommand::Unknown));
    assert_eq!(parse_command("{\"Method\":null}"), Some(RemoteCommand::Unknown));
    assert_eq!(parse_command("{\"Method\":[\"ShowApp\"]}"), Some(RemoteCommand::Unknown));
    assert_eq!(parse_command("{\"method\":\"ShowApp\"}"), Some(RemoteCommand::Unknown));
    assert_eq!(parse_command("[\"Method\",\"ShowApp\"]"), Some(RemoteCommand::Unknown));
    assert_eq!(parse_command("\"ShowApp\""), Some(RemoteCommand::Unknown));
    assert_eq!(parse_command("12"), Some(RemoteCommand::Unknown));
}

#[test]
fn other_methods_are_unknown() {
    assert_eq!(parse_command("{\"Method\":\"HideApp\"}"), Some(RemoteCommand::Unknown));
    assert_eq!(parse_command("{\"Method\":\"showapp\"}"), Some(RemoteCommand::Unknown));
    assert_eq!(parse_command("{\"Method\":\"ShowApp \"}"), Some(RemoteCommand::Unknown));
    assert_eq!(parse_command("{\"Method\":\"\"}"), Some(RemoteCommand::Unknown));
}

#[test]
fn unrecognised_members_are_ignored() {
    let c = parse_command(
        "{\"Id\":\"7\",\"Method\":\"ShowApp\",\"Data\":{\"Extra\":[1,2],\"SelectAll\":true},\"Type\":\"x\"}",
    );
    assert_eq!(
        c,
        Some(RemoteCommand::ShowApp(ShowPayload { position: None, select_all: Some(true) }))
    );
}

#[test]
fn position_of_another_type_has_origin_other() {
    let p = extract_position(&doc("{\"Position\":{\"X\":1.5,\"Y\":-2,\"Type\":\"LastLocation\"}}"));
    assert_eq!(
        p,
        Some(Position {
            x_bits: 1.5f64.to_bits(),
            y_bits: (-2.0f64).to_bits(),
            origin: PositionOrigin::Other,
        })
    );
    assert_eq!(origin_of("MouseScreen"), PositionOrigin::CursorMonitor);
    assert_eq!(origin_of("mousescreen"), PositionOrigin::Other);
    assert_eq!(origin_of(""), PositionOrigin::Other);
}

#[test]
fn position_needs_two_numbers_and_a_type() {
    assert_eq!(extract_position(&doc("{}")), None);
    assert_eq!(extract_position(&doc("{\"Position\":null}")), None);
    assert_eq!(extract_position(&doc("{\"Position\":{\"X\":1,\"Y\":2}}")), None);
    assert_eq!(extract_position(&doc("{\"Position\":{\"X\":1,\"Type\":\"MouseScreen\"}}")), None);
    assert_eq!(extract_position(&doc("{\"Position\":{\"Y\":1,\"Type\":\"MouseScreen\"}}")), None);
    assert_eq!(
        extract_position(&doc("{\"Position\":{\"X\":\"1\",\"Y\":2,\"Type\":\"MouseScreen\"}}")),
        None
    );
    assert_eq!(
        extract_position(&doc("{\"Position\":{\"X\":1,\"Y\":2,\"Type\":3}}")),
        None
    );
    assert_eq!(
        extract_position(&doc("{\"Position\":[1,2,\"MouseScreen\"]}")),
        None
    );
}

#[test]
fn payload_skips_what_is_missing_or_mistyped() {
    assert_eq!(extract_payload(&doc("{\"Method\":\"ShowApp\"}")), NOTHING);
    assert_eq!(extract_payload(&doc("{\"Data\":null}")), NOTHING);
    assert_eq!(extract_payload(&doc("{\"Data\":\"SelectAll\"}")), NOTHING);
    assert_eq!(extract_payload(&doc("{\"Data\":{\"SelectAll\":\"true\"}}")), NOTHING);
    assert_eq!(extract_payload(&doc("{\"Data\":{\"SelectAll\":1}}")), NOTHING);
    assert_eq!(extract_payload(&doc("{\"SelectAll\":true}")), NOTHING);
    assert_eq!(
        extract_payload(&doc(
            "{\"Data\":{\"SelectAll\":true,\"Position\":{\"X\":0,\"Y\":0,\"Type\":\"MouseScreen\"}}}"
        )),
        ShowPayload {
            position: Some(Position {
                x_bits: 0.0f64.to_bits(),
                y_bits: 0.0f64.to_bits(),
                origin: PositionOrigin::CursorMonitor,
            }),
            select_all: Some(true),
        }
    );
}

#[test]
fn command_of_a_document_built_by_hand() {
    let mut data = serde_json::Map::new();
    data.insert("SelectAll".to_string(), serde_json::Value::Bool(true));
    let mut message = serde_json::Map::new();
    message.insert("Method".to_string(), serde_json::Value::String("ToggleApp".to_string()));
    message.insert("Data".to_string(), serde_json::Value::Object(data));
    assert_eq!(
        command_of(&serde_json::Value::Object(message)),
        RemoteCommand::ToggleApp(ShowPayload { position: None, select_all: Some(true) })
    );
    assert_eq!(command_of(&serde_json::Value::Null), RemoteCommand::Unknown);
    assert_eq!(
        command_of(&serde_json::Value::String("ToggleApp".to_string())),
        RemoteCommand::Unknown
    );
}

#[test]
fn coordinates_keep_their_fraction_and_sign() {
    let c = parse_command(
        "{\"Method\":\"ShowApp\",\"Data\":{\"Position\":{\"X\":-0.25,\"Y\":1e3,\"Type\":\"MouseScreen\"}}}",
    );
    match c {
        Some(RemoteCommand::ShowApp(ShowPayload { position: Some(p), .. })) => {
            assert_eq!(f64::from_bits(p.x_bits), -0.25);
            assert_eq!(f64::from_bits(p.y_bits), 1000.0);
        }
        other => panic!("unexpected command {:?}", other),
    }
}
