use game_master::actions::{
    decode, decode_payload, envelope_from_json, handle_request, parse, ActionEnvelope, ActionTypes, Point,
    PointColor, PointHex, ProtocolError, SceneUpdate, UpdateGame,
};
use game_master::color::Color;
use game_master::json::{parse_json, Json, Member};

fn red() -> Color {
    Color { red: 255, green: 0, blue: 0, alpha: 255 }
}

fn envelope(action: &str, value: &str) -> String {
    let mut text = String::from("{\"action\":");
    text.push_str(&serde_json::to_string(action).unwrap());
    text.push_str(",\"value\":");
    text.push_str(&serde_json::to_string(value).unwrap());
    text.push('}');
    text
}

#[test]
fn sorry_reply_passes_the_error_on() {
    let raw = "{\"action\":\"Sorry\",\"value\":\"{\\\"error\\\":\\\"sorry\\\"}\"}";
    let parsed = parse(raw).unwrap();
    assert_eq!(parsed, ActionEnvelope { action: ActionTypes::Sorry, value: "{\"error\":\"sorry\"}".to_string() });
    assert_eq!(decode(&parsed), Ok(SceneUpdate::Sorry { error: "sorry".to_string() }));
    assert_eq!(handle_request(raw), Ok(SceneUpdate::Sorry { error: "sorry".to_string() }));
}

#[test]
fn update_game_reply_with_one_red_point() {
    let raw = "{\"action\":\"UpdateGame\",\"value\":\"{\\\"update_points\\\":[{\\\"hex\\\":\\\"#FF0000\\\",\\\"point\\\":{\\\"x\\\":3,\\\"y\\\":4}}]}\"}";
    let expected = SceneUpdate::UpdateGame {
        clear_grid: None,
        update_points: vec![PointColor { color: red(), point: Point { x: 3, y: 4 } }],
        game_end: None,
        message: None,
    };
    assert_eq!(decode(&parse(raw).unwrap()), Ok(expected.clone()));
    assert_eq!(handle_request(raw), Ok(expected));
}

#[test]
fn update_game_reply_keeps_every_field() {
    let payload = "{\"clear_grid\":true,\"update_points\":[{\"hex\":\"#00ff00\",\"point\":{\"x\":0,\"y\":19}},{\"hex\":\"0000FF80\",\"point\":{\"x\":19,\"y\":0}}],\"game_end\":false,\"message\":\"go\"}";
    let raw = envelope("UpdateGame", payload);
    assert_eq!(
        handle_request(&raw),
        Ok(SceneUpdate::UpdateGame {
            clear_grid: Some(true),
            update_points: vec![
                PointColor { color: Color { red: 0, green: 255, blue: 0, alpha: 255 }, point: Point { x: 0, y: 19 } },
                PointColor { color: Color { red: 0, green: 0, blue: 255, alpha: 128 }, point: Point { x: 19, y: 0 } },
            ],
            game_end: Some(false),
            message: Some("go".to_string()),
        })
    );
}

#[test]
fn null_members_count_as_absent() {
    let raw = envelope("UpdateGame", "{\"clear_grid\":null,\"update_points\":[],\"game_end\":null,\"message\":null}");
    assert_eq!(
        handle_request(&raw),
        Ok(SceneUpdate::UpdateGame { clear_grid: None, update_points: vec![], game_end: None, message: None })
    );
}

#[test]
fn unknown_action_is_reported_by_parse() {
    let raw = envelope("TurnCircleColor", "{\"hex\":\"#FF0000\"}");
    assert_eq!(parse(&raw), Err(ProtocolError::UnknownAction));
    assert_eq!(handle_request(&raw), Err(ProtocolError::UnknownAction));
    assert_eq!(parse(&envelope("updategame", "{}")), Err(ProtocolError::UnknownAction));
}

#[test]
fn malformed_envelopes_are_reported() {
    assert_eq!(parse("not json"), Err(ProtocolError::MalformedEnvelope));
    assert_eq!(parse(""), Err(ProtocolError::MalformedEnvelope));
    assert_eq!(parse("{\"action\":\"Sorry\"}"), Err(ProtocolError::MalformedEnvelope));
    assert_eq!(parse("{\"value\":\"{}\"}"), Err(ProtocolError::MalformedEnvelope));
    assert_eq!(parse("{\"action\":7,\"value\":\"{}\"}"), Err(ProtocolError::MalformedEnvelope));
    assert_eq!(parse("{\"action\":\"Sorry\",\"value\":{\"error\":\"sorry\"}}"), Err(ProtocolError::MalformedEnvelope));
    assert_eq!(parse("[\"Sorry\",\"{}\"]"), Err(ProtocolError::MalformedEnvelope));
    assert_eq!(parse("{\"action\":\"Nope\",\"value\":3}"), Err(ProtocolError::MalformedEnvelope));
    assert_eq!(handle_request("{\"action\":\"Sorry\",\"value\":\"{}\"} trailing"), Err(ProtocolError::MalformedEnvelope));
}

#[test]
fn extra_members_of_the_envelope_are_ignored() {
    let raw = "{\"note\":1,\"action\":\"Sorry\",\"value\":\"{\\\"error\\\":\\\"e\\\",\\\"more\\\":[]}\"}";
    assert_eq!(handle_request(raw), Ok(SceneUpdate::Sorry { error: "e".to_string() }));
}

#[test]
fn payload_that_does_not_fit_drops_the_action() {
    let bad = [
        "not json",
        "{}",
        "{\"update_points\":null}",
        "{\"update_points\":{}}",
        "{\"update_points\":[],\"clear_grid\":\"yes\"}",
        "{\"update_points\":[],\"game_end\":0}",
        "{\"update_points\":[],\"message\":false}",
        "{\"update_points\":[{\"hex\":\"#FF0000\"}]}",
        "{\"update_points\":[{\"point\":{\"x\":1,\"y\":1}}]}",
        "{\"update_points\":[{\"hex\":7,\"point\":{\"x\":1,\"y\":1}}]}",
        "{\"update_points\":[{\"hex\":\"#FF0000\",\"point\":{\"x\":1}}]}",
        "{\"update_points\":[{\"hex\":\"#FF0000\",\"point\":{\"x\":1.5,\"y\":1}}]}",
        "{\"update_points\":[{\"hex\":\"#FF0000\",\"point\":{\"x\":-1,\"y\":1}}]}",
        "{\"update_points\":[{\"hex\":\"#FF0000\",\"point\":{\"x\":\"1\",\"y\":1}}]}",
        "{\"update_points\":[{\"hex\":\"#FF0000\",\"point\":{\"x\":1,\"y\":1}},7]}",
    ];
    for payload in bad {
        assert_eq!(handle_request(&envelope("UpdateGame", payload)), Err(ProtocolError::PayloadDecodeError), "{}", payload);
    }
    for payload in ["not json", "{}", "{\"error\":null}", "{\"error\":5}", "[\"sorry\"]"] {
        assert_eq!(handle_request(&envelope("Sorry", payload)), Err(ProtocolError::PayloadDecodeError), "{}", payload);
    }
}

#[test]
fn point_off_the_grid_rejects_the_whole_action() {
    for (x, y) in [(20, 0), (0, 20), (255, 3), (3, 256), (19, 4000000000u64)] {
        let payload = format!(
            "{{\"update_points\":[{{\"hex\":\"#FF0000\",\"point\":{{\"x\":1,\"y\":1}}}},{{\"hex\":\"#FF0000\",\"point\":{{\"x\":{},\"y\":{}}}}}]}}",
            x, y
        );
        assert_eq!(handle_request(&envelope("UpdateGame", &payload)), Err(ProtocolError::PayloadDecodeError));
    }
    let edge = "{\"update_points\":[{\"hex\":\"#FF0000\",\"point\":{\"x\":19,\"y\":19}}]}";
    assert!(handle_request(&envelope("UpdateGame", edge)).is_ok());
}

#[test]
fn malformed_hex_falls_back_for_that_point_only() {
    let payload = "{\"update_points\":[{\"hex\":\"#FF0000\",\"point\":{\"x\":1,\"y\":2}},{\"hex\":\"#GG0000\",\"point\":{\"x\":3,\"y\":4}},{\"hex\":\"#0000FF\",\"point\":{\"x\":5,\"y\":6}}]}";
    assert_eq!(
        handle_request(&envelope("UpdateGame", payload)),
        Ok(SceneUpdate::UpdateGame {
            clear_grid: None,
            update_points: vec![
                PointColor { color: red(), point: Point { x: 1, y: 2 } },
                PointColor { color: Color { red: 255, green: 20, blue: 147, alpha: 255 }, point: Point { x: 3, y: 4 } },
                PointColor { color: Color { red: 0, green: 0, blue: 255, alpha: 255 }, point: Point { x: 5, y: 6 } },
            ],
            game_end: None,
            message: None,
        })
    );
}

#[test]
fn envelope_is_read_from_a_tree() {
    let tree = Json::Object(vec![
        Member { key: "action".to_string(), value: Json::Text("Sorry".to_string()) },
        Member { key: "value".to_string(), value: Json::Text("{}".to_string()) },
    ]);
    assert_eq!(envelope_from_json(&tree), Ok(ActionEnvelope { action: ActionTypes::Sorry, value: "{}".to_string() }));
    assert_eq!(envelope_from_json(&Json::Array(vec![])), Err(ProtocolError::MalformedEnvelope));
    assert_eq!(envelope_from_json(&Json::Null), Err(ProtocolError::MalformedEnvelope));
}

#[test]
fn payload_is_decoded_from_a_tree() {
    let tree = parse_json("{\"update_points\":[{\"hex\":\"F00\",\"point\":{\"x\":2,\"y\":2}}],\"game_end\":true}").unwrap();
    assert_eq!(
        decode_payload(ActionTypes::UpdateGame, &tree),
        Ok(SceneUpdate::UpdateGame {
            clear_grid: None,
            update_points: vec![PointColor { color: red(), point: Point { x: 2, y: 2 } }],
            game_end: Some(true),
            message: None,
        })
    );
    assert_eq!(decode_payload(ActionTypes::Sorry, &tree), Err(ProtocolError::PayloadDecodeError));
}

#[test]
fn wire_payload_keeps_the_hex_text() {
    let tree = parse_json("{\"update_points\":[{\"hex\":\"nope\",\"point\":{\"x\":2,\"y\":3}}]}").unwrap();
    let payload = UpdateGame::from_json(&tree).unwrap();
    assert_eq!(payload.update_points, vec![PointHex { hex: "nope".to_string(), point: Point { x: 2, y: 3 } }]);
    assert_eq!(payload.update_points[0].resolve(), PointColor { color: Color::fallback(), point: Point { x: 2, y: 3 } });
}
